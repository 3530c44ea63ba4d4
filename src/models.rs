use vstd::prelude::*;
use crate::amount::Amount;

verus! {

/// A UTC instant, in microseconds since the Unix epoch.
#[derive(Clone, Copy, Debug, PartialEq, Eq, Structural)]
pub struct Timestamp {
    pub micros: i64,
}

/// A persisted savings record.
#[derive(Debug)]
pub struct Transaction {
    pub id: i64,
    pub amount: Amount,
    pub source: String,
    pub created_at: Timestamp,
    pub updated_at: Timestamp,
}

/// What a `Transaction` holds, with its text as a sequence of characters.
pub struct TransactionView {
    pub id: int,
    pub amount: Amount,
    pub source: Seq<char>,
    pub created_at: int,
    pub updated_at: int,
}

impl View for Transaction {
    type V = TransactionView;

    open spec fn view(&self) -> TransactionView {
        TransactionView {
            id: self.id as int,
            amount: self.amount,
            source: self.source@,
            created_at: self.created_at.micros as int,
            updated_at: self.updated_at.micros as int,
        }
    }
}

impl Transaction {
    /// A field-by-field copy.
    pub fn duplicate(&self) -> (r: Transaction)
        ensures
            r@ == self@,
    {
        Transaction {
            id: self.id,
            amount: self.amount,
            source: self.source.clone(),
            created_at: self.created_at,
            updated_at: self.updated_at,
        }
    }
}

/// Input of a create: both fields are required.
#[derive(Debug)]
pub struct CreateTransaction {
    pub amount: Amount,
    pub source: String,
}

/// Input of an update: each field is optional, absent fields keep their stored value.
#[derive(Debug)]
pub struct UpdateTransaction {
    pub amount: Option<Amount>,
    pub source: Option<String>,
}

/// One violated field rule: the field's name and the rule's message.
#[derive(Debug)]
pub struct FieldError {
    pub field: String,
    pub message: String,
}

impl View for FieldError {
    type V = (Seq<char>, Seq<char>);

    open spec fn view(&self) -> (Seq<char>, Seq<char>) {
        (self.field@, self.message@)
    }
}

/// The text of an optional string.
pub open spec fn opt_text(o: Option<String>) -> Option<Seq<char>> {
    match o {
        Some(s) => Some(s@),
        None => None,
    }
}

pub const SOURCE_MIN_CHARS: usize = 1;

pub const SOURCE_MAX_CHARS: usize = 255;

/// A source text is accepted when it has between 1 and 255 characters.
pub open spec fn source_is_valid(s: Seq<char>) -> bool {
    SOURCE_MIN_CHARS <= s.len() <= SOURCE_MAX_CHARS
}

pub open spec fn amount_violation() -> (Seq<char>, Seq<char>) {
    ("amount"@, "Amount must be greater than 0"@)
}

pub open spec fn source_violation() -> (Seq<char>, Seq<char>) {
    ("source"@, "Source must be between 1 and 255 characters"@)
}

/// The violations of the rules by the fields that are present, amount first.
pub open spec fn violations(amount: Option<Amount>, source: Option<Seq<char>>) -> Seq<(Seq<char>, Seq<char>)> {
    let a: Seq<(Seq<char>, Seq<char>)> = match amount {
        Some(x) if !x.is_positive() => seq![amount_violation()],
        _ => Seq::empty(),
    };
    let s: Seq<(Seq<char>, Seq<char>)> = match source {
        Some(t) if !source_is_valid(t) => seq![source_violation()],
        _ => Seq::empty(),
    };
    a + s
}

pub open spec fn field_errors_view(v: Seq<FieldError>) -> Seq<(Seq<char>, Seq<char>)> {
    v.map_values(|e: FieldError| e@)
}

/// The result of checking the fields that are present against the field rules.
pub open spec fn validation_outcome(
    r: Result<(), Vec<FieldError>>,
    amount: Option<Amount>,
    source: Option<Seq<char>>,
) -> bool {
    match r {
        Ok(()) => violations(amount, source).len() == 0,
        Err(errs) => violations(amount, source).len() > 0 && field_errors_view(errs@) == violations(
            amount,
            source,
        ),
    }
}

/// Checks that an amount is strictly greater than zero.
pub fn validate_positive_amount(amount: &Amount) -> (r: Result<(), FieldError>)
    ensures
        r is Ok <==> amount.is_positive(),
        r matches Err(e) ==> e@ == amount_violation(),
{
    if !amount.positive() {
        return Err(
            FieldError {
                field: String::from_str("amount"),
                message: String::from_str("Amount must be greater than 0"),
            },
        );
    }
    Ok(())
}

/// Checks that a source has between 1 and 255 characters.
pub fn validate_source_length(source: &str) -> (r: Result<(), FieldError>)
    ensures
        r is Ok <==> source_is_valid(source@),
        r matches Err(e) ==> e@ == source_violation(),
{
    let n = source.unicode_len();
    if n < SOURCE_MIN_CHARS || n > SOURCE_MAX_CHARS {
        return Err(
            FieldError {
                field: String::from_str("source"),
                message: String::from_str("Source must be between 1 and 255 characters"),
            },
        );
    }
    Ok(())
}

fn check_fields(amount: Option<&Amount>, source: Option<&str>) -> (r: Result<(), Vec<FieldError>>)
    ensures
        validation_outcome(
            r,
            match amount {
                Some(a) => Some(*a),
                None => None,
            },
            match source {
                Some(s) => Some(s@),
                None => None,
            },
        ),
{
    let mut errs: Vec<FieldError> = Vec::new();
    if let Some(a) = amount {
        if let Err(e) = validate_positive_amount(a) {
            errs.push(e);
        }
    }
    if let Some(s) = source {
        if let Err(e) = validate_source_length(s) {
            errs.push(e);
        }
    }
    let ghost ga = match amount {
        Some(a) => Some(*a),
        None => None,
    };
    let ghost gs = match source {
        Some(s) => Some(s@),
        None => None,
    };
    assert(field_errors_view(errs@) =~= violations(ga, gs));
    if errs.len() == 0 {
        Ok(())
    } else {
        Err(errs)
    }
}

impl CreateTransaction {
    /// Checks both fields against the field rules.
    pub fn validate(&self) -> (r: Result<(), Vec<FieldError>>)
        ensures
            validation_outcome(r, Some(self.amount), Some(self.source@)),
    {
        check_fields(Some(&self.amount), Some(self.source.as_str()))
    }
}

impl UpdateTransaction {
    /// Checks the fields that are present against the field rules.
    pub fn validate(&self) -> (r: Result<(), Vec<FieldError>>)
        ensures
            validation_outcome(r, self.amount, opt_text(self.source)),
    {
        let s: Option<&str> = match &self.source {
            Some(t) => Some(t.as_str()),
            None => None,
        };
        check_fields(self.amount.as_ref(), s)
    }

    /// Neither field is present.
    pub open spec fn is_empty_patch(&self) -> bool {
        self.amount is None && self.source is None
    }

    pub fn has_changes(&self) -> (r: bool)
        ensures
            r == !self.is_empty_patch(),
    {
        self.amount.is_some() || self.source.is_some()
    }
}

} // verus!
