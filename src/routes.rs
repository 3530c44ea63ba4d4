use vstd::prelude::*;
use crate::errors::{AppError, ErrorResponse, StoreError, detail_line};
use crate::models::{
    CreateTransaction, Timestamp, Transaction, TransactionView, UpdateTransaction, opt_text,
    violations,
};
use crate::service::SavingsService;
use crate::store::{
    TransactionStore, can_stamp, empty_update_message, next_stamp, not_found_message, patched,
    rows_view,
};

verus! {

pub open spec fn is_digit(c: char) -> bool {
    '0' <= c && c <= '9'
}

pub open spec fn all_digits(s: Seq<char>) -> bool {
    s.len() > 0 && forall|i: int| 0 <= i < s.len() ==> is_digit(#[trigger] s[i])
}

/// The value of a string of decimal digits.
pub open spec fn digits_value(s: Seq<char>) -> int
    decreases s.len(),
{
    if s.len() == 0 {
        0
    } else {
        digits_value(s.drop_last()) * 10 + (s.last() as u32 - '0' as u32)
    }
}

/// The integer a path segment spells: an optional sign followed by decimal digits.
pub open spec fn path_number(s: Seq<char>) -> Option<int> {
    let rest = s.subrange(1, s.len() as int);
    if s.len() > 0 && s[0] == '-' && all_digits(rest) {
        Some(-digits_value(rest))
    } else if s.len() > 0 && s[0] == '+' && all_digits(rest) {
        Some(digits_value(rest))
    } else if all_digits(s) {
        Some(digits_value(s))
    } else {
        None
    }
}

/// A path segment names a record when it spells an integer from 1 up to the largest `i64`.
pub open spec fn path_id(s: Seq<char>) -> Option<int> {
    match path_number(s) {
        Some(v) => if 1 <= v <= i64::MAX {
            Some(v)
        } else {
            None
        },
        None => None,
    }
}

pub open spec fn bad_id_message() -> Seq<char> {
    "Id must be a positive integer"@
}

proof fn lemma_digits_nonneg(s: Seq<char>)
    requires
        forall|i: int| 0 <= i < s.len() ==> is_digit(#[trigger] s[i]),
    ensures
        digits_value(s) >= 0,
    decreases s.len(),
{
    if s.len() > 0 {
        lemma_digits_nonneg(s.drop_last());
    }
}

proof fn lemma_digits_prefix(s: Seq<char>, j: int)
    requires
        forall|i: int| 0 <= i < s.len() ==> is_digit(#[trigger] s[i]),
        0 <= j <= s.len(),
    ensures
        digits_value(s.subrange(0, j)) <= digits_value(s),
    decreases s.len() - j,
{
    if j < s.len() {
        let t = s.drop_last();
        lemma_digits_prefix(t, j);
        assert(t.subrange(0, j) =~= s.subrange(0, j));
        lemma_digits_nonneg(t);
    } else {
        assert(s.subrange(0, j) =~= s);
    }
}

/// Without a leading `-`, a path segment spells a number exactly when what follows an
/// optional `+` is a string of digits.
proof fn lemma_unsigned_number(s: Seq<char>, first: int)
    requires
        s.len() > 0,
        s[0] != '-',
        first == (if s[0] == '+' { 1int } else { 0int }),
    ensures
        path_number(s) == (if all_digits(s.subrange(first, s.len() as int)) {
            Some(digits_value(s.subrange(first, s.len() as int)))
        } else {
            None
        }),
{
    if first == 0 {
        assert(s.subrange(0, s.len() as int) =~= s);
    } else {
        assert(!is_digit(s[0]));
    }
}

fn bad_id() -> (r: AppError)
    ensures
        r matches AppError::BadRequest(m) && m@ == bad_id_message(),
{
    AppError::BadRequest(String::from_str("Id must be a positive integer"))
}

/// Reads a record id from a path segment; anything but a positive integer is `BadRequest`.
pub fn parse_path_id(raw: &str) -> (r: Result<i64, AppError>)
    ensures
        match path_id(raw@) {
            Some(v) => r == Ok::<i64, AppError>(v as i64),
            None => r matches Err(AppError::BadRequest(m)) && m@ == bad_id_message(),
        },
{
    let n = raw.unicode_len();
    let ghost s = raw@;
    if n == 0 {
        return Err(bad_id());
    }
    let c0 = raw.get_char(0);
    if c0 == '-' {
        proof {
            let rest = s.subrange(1, s.len() as int);
            if all_digits(rest) {
                lemma_digits_nonneg(rest);
            }
        }
        return Err(bad_id());
    }
    let first: usize = if c0 == '+' {
        1
    } else {
        0
    };
    let ghost body = s.subrange(first as int, s.len() as int);
    proof {
        lemma_unsigned_number(s, first as int);
    }
    if first == n {
        return Err(bad_id());
    }
    let mut acc: i64 = 0;
    let mut i: usize = first;
    while i < n
        invariant
            n == s.len(),
            s == raw@,
            first <= i <= n,
            first < n,
            body == s.subrange(first as int, s.len() as int),
            path_number(s) == (if all_digits(body) {
                Some(digits_value(body))
            } else {
                None
            }),
            forall|k: int| first <= k < i ==> is_digit(#[trigger] s[k]),
            acc == digits_value(s.subrange(first as int, i as int)),
            0 <= acc,
        decreases n - i,
    {
        let c = raw.get_char(i);
        if c < '0' || c > '9' {
            proof {
                assert(body[i - first] == s[i as int]);
                assert(!is_digit(body[i - first]));
            }
            return Err(bad_id());
        }
        let d: i64 = (c as u32 - '0' as u32) as i64;
        let ghost next = s.subrange(first as int, i + 1);
        assert(next.drop_last() =~= s.subrange(first as int, i as int));
        assert(digits_value(next) == acc * 10 + d);
        if acc > i64::MAX / 10 || (acc == i64::MAX / 10 && d > i64::MAX % 10) {
            proof {
                if all_digits(body) {
                    lemma_digits_prefix(body, i + 1 - first);
                    assert(body.subrange(0, i + 1 - first) =~= next);
                }
            }
            return Err(bad_id());
        }
        acc = acc * 10 + d;
        i = i + 1;
    }
    assert(body =~= s.subrange(first as int, i as int));
    assert(all_digits(body)) by {
        assert forall|k: int| 0 <= k < body.len() implies is_digit(#[trigger] body[k]) by {
            assert(body[k] == s[k + first]);
        }
    }
    if acc == 0 {
        return Err(bad_id());
    }
    Ok(acc)
}

/// What a handler sends back: a status and a body.
#[derive(Debug)]
pub struct Reply {
    pub status: u16,
    pub body: ReplyBody,
}

#[derive(Debug)]
pub enum ReplyBody {
    Entity(Transaction),
    Entities(Vec<Transaction>),
    Failure(ErrorResponse),
    Empty,
}

pub enum ReplyBodyView {
    Entity(TransactionView),
    Entities(Seq<TransactionView>),
    Failure((Seq<char>, Option<Seq<Seq<char>>>)),
    Empty,
}

impl View for Reply {
    type V = (u16, ReplyBodyView);

    open spec fn view(&self) -> (u16, ReplyBodyView) {
        (
            self.status,
            match self.body {
                ReplyBody::Entity(t) => ReplyBodyView::Entity(t@),
                ReplyBody::Entities(v) => ReplyBodyView::Entities(rows_view(v@)),
                ReplyBody::Failure(e) => ReplyBodyView::Failure(e@),
                ReplyBody::Empty => ReplyBodyView::Empty,
            },
        )
    }
}

/// The reply for a failure: its status and its public body.
pub open spec fn error_reply(e: AppError) -> (u16, ReplyBodyView) {
    (e.status_of(), ReplyBodyView::Failure(e.response_of()))
}

pub open spec fn message_reply(status: u16, m: Seq<char>) -> (u16, ReplyBodyView) {
    (status, ReplyBodyView::Failure((m, None)))
}

/// The reply for a list of field violations.
pub open spec fn validation_reply(v: Seq<(Seq<char>, Seq<char>)>) -> (u16, ReplyBodyView) {
    (
        400,
        ReplyBodyView::Failure(
            ("Validation failed"@, Some(v.map_values(|x: (Seq<char>, Seq<char>)| detail_line(x)))),
        ),
    )
}

pub fn reply_error(e: &AppError) -> (r: Reply)
    ensures
        r@ == error_reply(*e),
{
    Reply { status: e.status_code(), body: ReplyBody::Failure(e.error_response()) }
}

/// The record with the given success status, or the reply for the failure.
pub fn reply_entity(r: Result<Transaction, AppError>, status: u16) -> (out: Reply)
    ensures
        match r {
            Ok(t) => out@ == (status, ReplyBodyView::Entity(t@)),
            Err(e) => out@ == error_reply(e),
        },
{
    match r {
        Ok(t) => Reply { status, body: ReplyBody::Entity(t) },
        Err(e) => reply_error(&e),
    }
}

/// `201` with the new record, or the reply for its failure.
pub fn add_new_saving_value(db: &mut TransactionStore, payload: &CreateTransaction, now: Timestamp) -> (r:
    Reply)
    requires
        old(db)@.well_formed(),
    ensures
        final(db)@.well_formed(),
        ({
            let s0 = old(db)@;
            let v = violations(Some(payload.amount), Some(payload.source@));
            let t = now.micros as int;
            if v.len() > 0 {
                r@ == validation_reply(v) && final(db)@ == s0
            } else if !s0.can_create(t) {
                r@ == error_reply(AppError::DatabaseError(StoreError::Other)) && final(db)@ == s0
            } else {
                r@ == (201u16, ReplyBodyView::Entity(s0.created_row(payload.amount, payload.source@, t)))
                    && final(db)@ == s0.after_create(payload.amount, payload.source@, t)
            }
        }),
{
    reply_entity(SavingsService::create_new_saving(db, payload, now), 201)
}

/// `200` with the record named by the path segment, `400` for a bad id, `404` when absent.
pub fn get_saving(db: &TransactionStore, raw_id: &str) -> (r: Reply)
    requires
        db@.well_formed(),
    ensures
        match path_id(raw_id@) {
            None => r@ == message_reply(400, bad_id_message()),
            Some(id) => match db@.find(id) {
                Some(t) => r@ == (200u16, ReplyBodyView::Entity(t)),
                None => r@ == message_reply(404, not_found_message()),
            },
        },
{
    let id = match parse_path_id(raw_id) {
        Ok(id) => id,
        Err(e) => {
            return reply_error(&e);
        },
    };
    match SavingsService::get_by_id(db, id) {
        Ok(found) => reply_entity(SavingsService::require_found(found), 200),
        Err(e) => reply_error(&e),
    }
}

/// `200` with the updated record, or the reply for the failure; the store changes only on success.
pub fn update_saving(
    db: &mut TransactionStore,
    raw_id: &str,
    payload: &UpdateTransaction,
    now: Timestamp,
) -> (r: Reply)
    requires
        old(db)@.well_formed(),
    ensures
        final(db)@.well_formed(),
        ({
            let s0 = old(db)@;
            let sv = opt_text(payload.source);
            let v = violations(payload.amount, sv);
            let t = now.micros as int;
            match path_id(raw_id@) {
                None => r@ == message_reply(400, bad_id_message()) && final(db)@ == s0,
                Some(id) => if v.len() > 0 {
                    r@ == validation_reply(v) && final(db)@ == s0
                } else if payload.is_empty_patch() {
                    r@ == message_reply(400, empty_update_message()) && final(db)@ == s0
                } else if !s0.has_id(id) {
                    r@ == message_reply(404, not_found_message()) && final(db)@ == s0
                } else if !can_stamp(s0.clock, t) {
                    r@ == error_reply(AppError::DatabaseError(StoreError::Other)) && final(db)@ == s0
                } else {
                    r@ == (200u16, ReplyBodyView::Entity(
                        patched(s0.find(id)->Some_0, payload.amount, sv, next_stamp(s0.clock, t)),
                    )) && final(db)@ == s0.after_update(id, payload.amount, sv, t)
                },
            }
        }),
{
    let id = match parse_path_id(raw_id) {
        Ok(id) => id,
        Err(e) => {
            return reply_error(&e);
        },
    };
    reply_entity(SavingsService::update(db, id, payload, now), 200)
}

/// `204` once the record named by the path segment is removed, `400` for a bad id, `404` when absent.
pub fn delete_saving(db: &mut TransactionStore, raw_id: &str) -> (r: Reply)
    requires
        old(db)@.well_formed(),
    ensures
        final(db)@.well_formed(),
        match path_id(raw_id@) {
            None => r@ == message_reply(400, bad_id_message()) && final(db)@ == old(db)@,
            Some(id) => if old(db)@.has_id(id) {
                r@ == (204u16, ReplyBodyView::Empty) && final(db)@ == old(db)@.after_delete(id)
            } else {
                r@ == message_reply(404, not_found_message()) && final(db)@ == old(db)@
            },
        },
{
    let id = match parse_path_id(raw_id) {
        Ok(id) => id,
        Err(e) => {
            return reply_error(&e);
        },
    };
    match SavingsService::delete(db, id) {
        Ok(()) => Reply { status: 204, body: ReplyBody::Empty },
        Err(e) => reply_error(&e),
    }
}

/// `200` with at most `limit` records, newest first, after skipping `offset` of them.
pub fn list_savings(db: &TransactionStore, limit: usize, offset: usize) -> (r: Reply)
    requires
        db@.well_formed(),
    ensures
        r@ == (200u16, ReplyBodyView::Entities(db@.page(limit as int, offset as int))),
{
    Reply { status: 200, body: ReplyBody::Entities(SavingsService::list(db, limit, offset)) }
}

} // verus!
