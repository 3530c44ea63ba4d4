use vstd::prelude::*;
use crate::models::{FieldError, field_errors_view};

verus! {

/// How the backend reported a failed operation.
#[derive(Clone, Copy, Debug, PartialEq, Eq, Structural)]
pub enum StoreError {
    /// The statement expected a row and found none.
    RowNotFound,
    /// A uniqueness constraint was violated.
    UniqueViolation,
    /// A referential constraint was violated.
    ForeignKeyViolation,
    /// A not-null constraint was violated.
    NotNullViolation,
    /// Any other backend failure.
    Other,
}

/// Class of a backend constraint code, when the backend gave one.
pub open spec fn class_of_code(code: Option<Seq<char>>) -> StoreError {
    match code {
        Some(c) => if c == "23505"@ {
            StoreError::UniqueViolation
        } else if c == "23503"@ {
            StoreError::ForeignKeyViolation
        } else if c == "23502"@ {
            StoreError::NotNullViolation
        } else {
            StoreError::Other
        },
        None => StoreError::Other,
    }
}

/// Compares two texts character by character.
pub fn same_text(a: &str, b: &str) -> (r: bool)
    ensures
        r == (a@ == b@),
{
    let n = a.unicode_len();
    if n != b.unicode_len() {
        return false;
    }
    let mut i: usize = 0;
    while i < n
        invariant
            n == a@.len(),
            n == b@.len(),
            i <= n,
            forall|k: int| 0 <= k < i ==> a@[k] == b@[k],
        decreases n - i,
    {
        if a.get_char(i) != b.get_char(i) {
            return false;
        }
        i = i + 1;
    }
    assert(a@ =~= b@);
    true
}

impl StoreError {
    /// Classifies a failure that the backend reported with an optional constraint code.
    pub fn from_code(code: Option<&str>) -> (r: StoreError)
        ensures
            r == class_of_code(
                match code {
                    Some(c) => Some(c@),
                    None => None,
                },
            ),
    {
        match code {
            Some(c) => {
                if same_text(c, "23505") {
                    StoreError::UniqueViolation
                } else if same_text(c, "23503") {
                    StoreError::ForeignKeyViolation
                } else if same_text(c, "23502") {
                    StoreError::NotNullViolation
                } else {
                    StoreError::Other
                }
            },
            None => StoreError::Other,
        }
    }
}

/// The closed set of failures of the request pipeline.
#[derive(Debug)]
pub enum AppError {
    ValidationError(Vec<FieldError>),
    DatabaseError(StoreError),
    NotFound(String),
    BadRequest(String),
    InternalServerError(String),
}

/// The body sent for a failure: a message, and for validation failures one line per field.
#[derive(Debug)]
pub struct ErrorResponse {
    pub error: String,
    pub details: Option<Vec<String>>,
}

impl View for ErrorResponse {
    type V = (Seq<char>, Option<Seq<Seq<char>>>);

    open spec fn view(&self) -> (Seq<char>, Option<Seq<Seq<char>>>) {
        (
            self.error@,
            match self.details {
                Some(d) => Some(d@.map_values(|s: String| s@)),
                None => None,
            },
        )
    }
}

/// One line of detail for a field violation: `field: message`.
pub open spec fn detail_line(v: (Seq<char>, Seq<char>)) -> Seq<char> {
    v.0 + ": "@ + v.1
}

pub open spec fn store_status(e: StoreError) -> u16 {
    match e {
        StoreError::RowNotFound => 404,
        StoreError::UniqueViolation => 409,
        StoreError::ForeignKeyViolation => 400,
        StoreError::NotNullViolation => 400,
        StoreError::Other => 500,
    }
}

pub open spec fn store_message(e: StoreError) -> Seq<char> {
    match e {
        StoreError::RowNotFound => "Resource not found"@,
        StoreError::UniqueViolation => "A record with this information already exists"@,
        StoreError::ForeignKeyViolation => "Referenced resource does not exist"@,
        StoreError::NotNullViolation => "Required field is missing"@,
        StoreError::Other => "Database operation failed"@,
    }
}

impl AppError {
    /// The HTTP status of each kind of failure.
    pub open spec fn status_of(&self) -> u16 {
        match self {
            AppError::ValidationError(_) => 400,
            AppError::DatabaseError(e) => store_status(*e),
            AppError::NotFound(_) => 404,
            AppError::BadRequest(_) => 400,
            AppError::InternalServerError(_) => 500,
        }
    }

    /// The body shown to the caller; backend detail and internal messages never appear in it.
    pub open spec fn response_of(&self) -> (Seq<char>, Option<Seq<Seq<char>>>) {
        match self {
            AppError::ValidationError(errs) => (
                "Validation failed"@,
                Some(field_errors_view(errs@).map_values(|v: (Seq<char>, Seq<char>)| detail_line(v))),
            ),
            AppError::DatabaseError(e) => (store_message(*e), None),
            AppError::NotFound(m) => (m@, None),
            AppError::BadRequest(m) => (m@, None),
            AppError::InternalServerError(_) => ("An internal error occurred"@, None),
        }
    }

    pub fn status_code(&self) -> (r: u16)
        ensures
            r == self.status_of(),
    {
        match self {
            AppError::ValidationError(_) => 400,
            AppError::DatabaseError(e) => match e {
                StoreError::RowNotFound => 404,
                StoreError::UniqueViolation => 409,
                StoreError::ForeignKeyViolation => 400,
                StoreError::NotNullViolation => 400,
                StoreError::Other => 500,
            },
            AppError::NotFound(_) => 404,
            AppError::BadRequest(_) => 400,
            AppError::InternalServerError(_) => 500,
        }
    }

    pub fn error_response(&self) -> (r: ErrorResponse)
        ensures
            r@ == self.response_of(),
    {
        match self {
            AppError::ValidationError(errs) => {
                let details = detail_lines(errs);
                let r = ErrorResponse {
                    error: String::from_str("Validation failed"),
                    details: Some(details),
                };
                assert(r@.1 =~= self.response_of().1);
                r
            },
            AppError::DatabaseError(e) => {
                let msg = match e {
                    StoreError::RowNotFound => "Resource not found",
                    StoreError::UniqueViolation => "A record with this information already exists",
                    StoreError::ForeignKeyViolation => "Referenced resource does not exist",
                    StoreError::NotNullViolation => "Required field is missing",
                    StoreError::Other => "Database operation failed",
                };
                ErrorResponse { error: String::from_str(msg), details: None }
            },
            AppError::NotFound(m) => ErrorResponse { error: m.clone(), details: None },
            AppError::BadRequest(m) => ErrorResponse { error: m.clone(), details: None },
            AppError::InternalServerError(_) => ErrorResponse {
                error: String::from_str("An internal error occurred"),
                details: None,
            },
        }
    }

    /// A one-line description for logs; unlike the response it keeps the inner message.
    pub fn describe(&self) -> (r: String)
        ensures
            r@ == self.description(),
    {
        match self {
            AppError::ValidationError(_) => String::from_str("Validation error"),
            AppError::DatabaseError(e) => {
                let mut s = String::from_str("Database error: ");
                s.append(store_error_name(e));
                s
            },
            AppError::NotFound(m) => {
                let mut s = String::from_str("Not found: ");
                s.append(m.as_str());
                s
            },
            AppError::BadRequest(m) => {
                let mut s = String::from_str("Bad request: ");
                s.append(m.as_str());
                s
            },
            AppError::InternalServerError(m) => {
                let mut s = String::from_str("Internal server error: ");
                s.append(m.as_str());
                s
            },
        }
    }

    pub open spec fn description(&self) -> Seq<char> {
        match self {
            AppError::ValidationError(_) => "Validation error"@,
            AppError::DatabaseError(e) => "Database error: "@ + store_error_name_of(*e),
            AppError::NotFound(m) => "Not found: "@ + m@,
            AppError::BadRequest(m) => "Bad request: "@ + m@,
            AppError::InternalServerError(m) => "Internal server error: "@ + m@,
        }
    }
}

pub open spec fn store_error_name_of(e: StoreError) -> Seq<char> {
    match e {
        StoreError::RowNotFound => "no rows returned"@,
        StoreError::UniqueViolation => "unique constraint violated"@,
        StoreError::ForeignKeyViolation => "foreign key constraint violated"@,
        StoreError::NotNullViolation => "not-null constraint violated"@,
        StoreError::Other => "backend failure"@,
    }
}

fn store_error_name(e: &StoreError) -> (r: &'static str)
    ensures
        r@ == store_error_name_of(*e),
{
    match e {
        StoreError::RowNotFound => "no rows returned",
        StoreError::UniqueViolation => "unique constraint violated",
        StoreError::ForeignKeyViolation => "foreign key constraint violated",
        StoreError::NotNullViolation => "not-null constraint violated",
        StoreError::Other => "backend failure",
    }
}

/// One `field: message` line per violation, in order.
fn detail_lines(errs: &Vec<FieldError>) -> (r: Vec<String>)
    ensures
        r@.map_values(|s: String| s@) == field_errors_view(errs@).map_values(
            |v: (Seq<char>, Seq<char>)| detail_line(v),
        ),
{
    let mut out: Vec<String> = Vec::new();
    let mut i: usize = 0;
    while i < errs.len()
        invariant
            i <= errs@.len(),
            out@.len() == i,
            forall|k: int| 0 <= k < i ==> #[trigger] out@[k]@ == detail_line(errs@[k]@),
        decreases errs@.len() - i,
    {
        let mut line = errs[i].field.clone();
        line.append(": ");
        line.append(errs[i].message.as_str());
        out.push(line);
        i = i + 1;
    }
    assert(out@.map_values(|s: String| s@) =~= field_errors_view(errs@).map_values(
        |v: (Seq<char>, Seq<char>)| detail_line(v),
    ));
    out
}

} // verus!
