use vstd::prelude::*;
use crate::errors::{AppError, StoreError};
use crate::models::{
    CreateTransaction, Timestamp, Transaction, UpdateTransaction, field_errors_view,
    opt_text, violations,
};
use crate::store::{
    TransactionStore, can_stamp, empty_update_message, next_stamp, not_found_message, opt_view,
    patched, rows_view,
};

verus! {

/// The operations on savings records, each validating its input before the store is touched.
pub struct SavingsService;

/// The failure that a validation outcome with violations turns into.
pub open spec fn is_validation_failure(
    e: AppError,
    v: Seq<(Seq<char>, Seq<char>)>,
) -> bool {
    e matches AppError::ValidationError(errs) && field_errors_view(errs@) == v
}

impl SavingsService {
    /// The checks a create passes before any store is touched: the field rules.
    pub fn check_create(payload: &CreateTransaction) -> (r: Result<(), AppError>)
        ensures
            ({
                let v = violations(Some(payload.amount), Some(payload.source@));
                if v.len() > 0 {
                    r matches Err(e) && is_validation_failure(e, v)
                } else {
                    r is Ok
                }
            }),
    {
        match payload.validate() {
            Ok(()) => Ok(()),
            Err(errs) => Err(AppError::ValidationError(errs)),
        }
    }

    /// The checks an update passes before any store is touched: the field rules on the
    /// present fields, then that at least one field is present.
    pub fn check_update(payload: &UpdateTransaction) -> (r: Result<(), AppError>)
        ensures
            ({
                let v = violations(payload.amount, opt_text(payload.source));
                if v.len() > 0 {
                    r matches Err(e) && is_validation_failure(e, v)
                } else if payload.is_empty_patch() {
                    r matches Err(AppError::BadRequest(m)) && m@ == empty_update_message()
                } else {
                    r is Ok
                }
            }),
    {
        if let Err(errs) = payload.validate() {
            return Err(AppError::ValidationError(errs));
        }
        if !payload.has_changes() {
            return Err(AppError::BadRequest(String::from_str("At least one of amount or source must be provided")));
        }
        Ok(())
    }

    /// Validates the payload, then inserts it.
    pub fn create_new_saving(
        db: &mut TransactionStore,
        payload: &CreateTransaction,
        now: Timestamp,
    ) -> (r: Result<Transaction, AppError>)
        requires
            old(db)@.well_formed(),
        ensures
            final(db)@.well_formed(),
            ({
                let s0 = old(db)@;
                let v = violations(Some(payload.amount), Some(payload.source@));
                let t = now.micros as int;
                if v.len() > 0 {
                    (r matches Err(e) && is_validation_failure(e, v)) && final(db)@ == s0
                } else if !s0.can_create(t) {
                    r == Err::<Transaction, AppError>(AppError::DatabaseError(StoreError::Other))
                        && final(db)@ == s0
                } else {
                    r matches Ok(x) && x@ == s0.created_row(payload.amount, payload.source@, t)
                        && final(db)@ == s0.after_create(payload.amount, payload.source@, t)
                        && x.id > 0 && x.created_at == x.updated_at && x.amount == payload.amount
                }
            }),
    {
        if let Err(e) = Self::check_create(payload) {
            return Err(e);
        }
        db.create(payload.amount, payload.source.clone(), now)
    }

    /// The record with the given id; absence is a result, not a failure.
    pub fn get_by_id(db: &TransactionStore, id: i64) -> (r: Result<Option<Transaction>, AppError>)
        requires
            db@.well_formed(),
        ensures
            r matches Ok(o) && opt_view(o) == db@.find(id as int),
    {
        Ok(db.get_by_id(id))
    }

    /// Validates the present fields, then applies them to the record with the given id.
    pub fn update(
        db: &mut TransactionStore,
        id: i64,
        payload: &UpdateTransaction,
        now: Timestamp,
    ) -> (r: Result<Transaction, AppError>)
        requires
            old(db)@.well_formed(),
        ensures
            final(db)@.well_formed(),
            ({
                let s0 = old(db)@;
                let sv = opt_text(payload.source);
                let v = violations(payload.amount, sv);
                let t = now.micros as int;
                if v.len() > 0 {
                    (r matches Err(e) && is_validation_failure(e, v)) && final(db)@ == s0
                } else if payload.is_empty_patch() {
                    r matches Err(AppError::BadRequest(m)) && m@ == empty_update_message()
                        && final(db)@ == s0
                } else if !s0.has_id(id as int) {
                    r matches Err(AppError::NotFound(m)) && m@ == not_found_message() && final(db)@ == s0
                } else if !can_stamp(s0.clock, t) {
                    r == Err::<Transaction, AppError>(AppError::DatabaseError(StoreError::Other))
                        && final(db)@ == s0
                } else {
                    r matches Ok(x) && x@ == patched(
                        s0.find(id as int)->Some_0,
                        payload.amount,
                        sv,
                        next_stamp(s0.clock, t),
                    ) && final(db)@ == s0.after_update(id as int, payload.amount, sv, t)
                }
            }),
    {
        if let Err(e) = Self::check_update(payload) {
            return Err(e);
        }
        let source = match &payload.source {
            Some(s) => Some(s.clone()),
            None => None,
        };
        db.update(id, payload.amount, source, now)
    }

    /// Removes the record with the given id; a missing record is `NotFound`.
    pub fn delete(db: &mut TransactionStore, id: i64) -> (r: Result<(), AppError>)
        requires
            old(db)@.well_formed(),
        ensures
            final(db)@.well_formed(),
            r is Ok <==> old(db)@.has_id(id as int),
            r is Ok ==> final(db)@ == old(db)@.after_delete(id as int),
            r matches Err(e) ==> (e matches AppError::NotFound(m) && m@ == not_found_message())
                && final(db)@ == old(db)@,
    {
        db.delete(id)
    }

    /// At most `limit` records, newest first, after skipping `offset` of them.
    pub fn list(db: &TransactionStore, limit: usize, offset: usize) -> (r: Vec<Transaction>)
        requires
            db@.well_formed(),
        ensures
            rows_view(r@) == db@.page(limit as int, offset as int),
    {
        db.list(limit, offset)
    }

    /// Turns the row that a fetch or an update returned into the record, or `NotFound`.
    pub fn require_found(row: Option<Transaction>) -> (r: Result<Transaction, AppError>)
        ensures
            match row {
                Some(t) => r == Ok::<Transaction, AppError>(t),
                None => r matches Err(AppError::NotFound(m)) && m@ == not_found_message(),
            },
    {
        match row {
            Some(t) => Ok(t),
            None => Err(AppError::NotFound(String::from_str("Transaction not found"))),
        }
    }

    /// Turns the number of rows a delete affected into success, or `NotFound` when it is zero.
    pub fn require_affected(rows_affected: u64) -> (r: Result<(), AppError>)
        ensures
            rows_affected > 0 ==> r is Ok,
            rows_affected == 0 ==> (r matches Err(AppError::NotFound(m)) && m@ == not_found_message()),
    {
        if rows_affected > 0 {
            Ok(())
        } else {
            Err(AppError::NotFound(String::from_str("Transaction not found")))
        }
    }
}

} // verus!
