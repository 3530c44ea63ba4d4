use vstd::prelude::*;
use crate::amount::Amount;
use crate::errors::{AppError, StoreError};
use crate::models::{Timestamp, Transaction, TransactionView, opt_text, source_is_valid};

verus! {

/// The rows of a store in insertion order, the last id it handed out and its clock.
pub struct StoreView {
    pub rows: Seq<TransactionView>,
    pub last_id: int,
    pub clock: int,
}

/// The instant a store records for an operation asked at `now`: `now`, or one tick past the
/// clock when `now` has not moved past it, so that recorded instants strictly increase.
pub open spec fn next_stamp(clock: int, now: int) -> int {
    if now > clock {
        now
    } else {
        clock + 1
    }
}

/// The next instant fits in an `i64`.
pub open spec fn can_stamp(clock: int, now: int) -> bool {
    next_stamp(clock, now) <= i64::MAX
}

/// A row with the present fields of a patch applied and its update instant refreshed.
pub open spec fn patched(
    row: TransactionView,
    amount: Option<Amount>,
    source: Option<Seq<char>>,
    stamp: int,
) -> TransactionView {
    TransactionView {
        id: row.id,
        amount: match amount {
            Some(a) => a,
            None => row.amount,
        },
        source: match source {
            Some(s) => s,
            None => row.source,
        },
        created_at: row.created_at,
        updated_at: stamp,
    }
}

pub open spec fn not_found_message() -> Seq<char> {
    "Transaction not found"@
}

pub open spec fn empty_update_message() -> Seq<char> {
    "At least one of amount or source must be provided"@
}

impl StoreView {
    pub open spec fn well_formed(self) -> bool {
        &&& 0 <= self.last_id <= i64::MAX
        &&& i64::MIN <= self.clock <= i64::MAX
        &&& forall|i: int| 0 <= i < self.rows.len() ==> {
            let r = #[trigger] self.rows[i];
            &&& 1 <= r.id <= self.last_id
            &&& r.created_at <= r.updated_at <= self.clock
            &&& i64::MIN <= r.created_at
            &&& r.amount.is_positive()
            &&& source_is_valid(r.source)
        }
        &&& forall|i: int, j: int|
            0 <= i < j < self.rows.len() ==> #[trigger] self.rows[i].id < #[trigger] self.rows[j].id
                && self.rows[i].created_at < self.rows[j].created_at
    }

    pub open spec fn has_id(self, id: int) -> bool {
        exists|i: int| 0 <= i < self.rows.len() && self.rows[i].id == id
    }

    pub open spec fn index_of(self, id: int) -> int {
        choose|i: int| 0 <= i < self.rows.len() && self.rows[i].id == id
    }

    /// The row with the given id, if there is one.
    pub open spec fn find(self, id: int) -> Option<TransactionView> {
        if self.has_id(id) {
            Some(self.rows[self.index_of(id)])
        } else {
            None
        }
    }

    /// Creating fails only when ids or instants are exhausted.
    pub open spec fn can_create(self, now: int) -> bool {
        self.last_id < i64::MAX && can_stamp(self.clock, now)
    }

    /// The row that a create asked at `now` inserts.
    pub open spec fn created_row(self, amount: Amount, source: Seq<char>, now: int) -> TransactionView {
        let stamp = next_stamp(self.clock, now);
        TransactionView {
            id: self.last_id + 1,
            amount,
            source,
            created_at: stamp,
            updated_at: stamp,
        }
    }

    pub open spec fn after_create(self, amount: Amount, source: Seq<char>, now: int) -> StoreView {
        StoreView {
            rows: self.rows.push(self.created_row(amount, source, now)),
            last_id: self.last_id + 1,
            clock: next_stamp(self.clock, now),
        }
    }

    pub open spec fn after_update(
        self,
        id: int,
        amount: Option<Amount>,
        source: Option<Seq<char>>,
        now: int,
    ) -> StoreView {
        let i = self.index_of(id);
        StoreView {
            rows: self.rows.update(i, patched(self.rows[i], amount, source, next_stamp(self.clock, now))),
            last_id: self.last_id,
            clock: next_stamp(self.clock, now),
        }
    }

    pub open spec fn after_delete(self, id: int) -> StoreView {
        StoreView { rows: self.rows.remove(self.index_of(id)), last_id: self.last_id, clock: self.clock }
    }

    /// All rows, the most recently created first.
    pub open spec fn newest_first(self) -> Seq<TransactionView> {
        Seq::new(self.rows.len(), |k: int| self.rows[self.rows.len() - 1 - k])
    }

    /// At most `limit` rows of `newest_first`, after skipping `offset` of them.
    pub open spec fn page(self, limit: int, offset: int) -> Seq<TransactionView> {
        let n = self.rows.len() as int;
        let start = if offset < n { offset } else { n };
        let end = if offset + limit < n { offset + limit } else { n };
        self.newest_first().subrange(start, end)
    }
}

pub open spec fn opt_view(r: Option<Transaction>) -> Option<TransactionView> {
    match r {
        Some(t) => Some(t@),
        None => None,
    }
}

pub open spec fn rows_view(v: Seq<Transaction>) -> Seq<TransactionView> {
    v.map_values(|t: Transaction| t@)
}

/// Transactions kept in memory, with the semantics of the relational store: ids handed out
/// in increasing order, recorded instants that strictly increase, coalescing updates.
pub struct TransactionStore {
    rows: Vec<Transaction>,
    last_id: i64,
    clock: i64,
}

impl View for TransactionStore {
    type V = StoreView;

    closed spec fn view(&self) -> StoreView {
        StoreView { rows: rows_view(self.rows@), last_id: self.last_id as int, clock: self.clock as int }
    }
}

fn stamp(clock: i64, now: Timestamp) -> (r: Timestamp)
    requires
        can_stamp(clock as int, now.micros as int),
    ensures
        r.micros == next_stamp(clock as int, now.micros as int),
{
    if now.micros > clock {
        now
    } else {
        Timestamp { micros: clock + 1 }
    }
}

fn exhausted() -> (r: AppError)
    ensures
        r == AppError::DatabaseError(StoreError::Other),
{
    AppError::DatabaseError(StoreError::Other)
}

fn not_found() -> (r: AppError)
    ensures
        r matches AppError::NotFound(m) && m@ == not_found_message(),
{
    AppError::NotFound(String::from_str("Transaction not found"))
}

impl TransactionStore {
    /// An empty store whose clock starts at `start`.
    pub fn new(start: Timestamp) -> (r: TransactionStore)
        ensures
            r@.well_formed(),
            r@.rows.len() == 0,
            r@.last_id == 0,
            r@.clock == start.micros,
    {
        let r = TransactionStore { rows: Vec::new(), last_id: 0, clock: start.micros };
        assert(r@.rows =~= Seq::empty());
        r
    }

    fn index_of_id(&self, id: i64) -> (r: Option<usize>)
        requires
            self@.well_formed(),
        ensures
            r is None <==> !self@.has_id(id as int),
            r matches Some(i) ==> i < self@.rows.len() && i == self@.index_of(id as int),
    {
        let mut i: usize = 0;
        while i < self.rows.len()
            invariant
                self@.well_formed(),
                i <= self.rows@.len(),
                self@.rows.len() == self.rows@.len(),
                forall|k: int| 0 <= k < i ==> #[trigger] self@.rows[k].id != id,
            decreases self.rows@.len() - i,
        {
            if self.rows[i].id == id {
                assert(self@.rows[i as int].id == id);
                let ghost j = self@.index_of(id as int);
                assert(self@.rows[j].id == id);
                assert(j == i) by {
                    if j < i {
                        assert(self@.rows[j].id < self@.rows[i as int].id);
                    } else if j > i {
                        assert(self@.rows[i as int].id < self@.rows[j].id);
                    }
                }
                return Some(i);
            }
            i = i + 1;
        }
        None
    }

    /// Inserts a row with the next id, both instants set to the recorded instant of `now`.
    pub fn create(&mut self, amount: Amount, source: String, now: Timestamp) -> (r: Result<Transaction, AppError>)
        requires
            old(self)@.well_formed(),
            amount.is_positive(),
            source_is_valid(source@),
        ensures
            final(self)@.well_formed(),
            r is Ok <==> old(self)@.can_create(now.micros as int),
            r matches Ok(t) ==> {
                &&& t@ == old(self)@.created_row(amount, source@, now.micros as int)
                &&& final(self)@ == old(self)@.after_create(amount, source@, now.micros as int)
                &&& t.id > 0
                &&& t.created_at == t.updated_at
                &&& t.amount == amount
            },
            r matches Err(e) ==> e == AppError::DatabaseError(StoreError::Other) && final(self)@ == old(self)@,
    {
        if self.last_id == i64::MAX || (now.micros <= self.clock && self.clock == i64::MAX) {
            return Err(exhausted());
        }
        let at = stamp(self.clock, now);
        let id = self.last_id + 1;
        let row = Transaction { id, amount, source, created_at: at, updated_at: at };
        let out = row.duplicate();
        let ghost before = self@;
        self.rows.push(row);
        self.last_id = id;
        self.clock = at.micros;
        assert(self@.rows =~= before.rows.push(out@));
        assert(self@ == before.after_create(amount, out@.source, now.micros as int));
        Ok(out)
    }

    /// The row with the given id, if there is one.
    pub fn get_by_id(&self, id: i64) -> (r: Option<Transaction>)
        requires
            self@.well_formed(),
        ensures
            opt_view(r) == self@.find(id as int),
    {
        match self.index_of_id(id) {
            Some(i) => Some(self.rows[i].duplicate()),
            None => None,
        }
    }

    /// Applies the present fields to the row with the given id and refreshes its update instant.
    pub fn update(&mut self, id: i64, amount: Option<Amount>, source: Option<String>, now: Timestamp) -> (r:
        Result<Transaction, AppError>)
        requires
            old(self)@.well_formed(),
            amount matches Some(a) ==> a.is_positive(),
            source matches Some(s) ==> source_is_valid(s@),
        ensures
            final(self)@.well_formed(),
            ({
                let sv = opt_text(source);
                let s0 = old(self)@;
                if amount is None && source is None {
                    r matches Err(AppError::BadRequest(m)) && m@ == empty_update_message()
                        && final(self)@ == s0
                } else if !s0.has_id(id as int) {
                    r matches Err(AppError::NotFound(m)) && m@ == not_found_message() && final(self)@ == s0
                } else if !can_stamp(s0.clock, now.micros as int) {
                    r == Err::<Transaction, AppError>(AppError::DatabaseError(StoreError::Other))
                        && final(self)@ == s0
                } else {
                    r matches Ok(t) && t@ == patched(
                        s0.find(id as int)->Some_0,
                        amount,
                        sv,
                        next_stamp(s0.clock, now.micros as int),
                    ) && final(self)@ == s0.after_update(id as int, amount, sv, now.micros as int)
                }
            }),
    {
        if amount.is_none() && source.is_none() {
            return Err(AppError::BadRequest(String::from_str("At least one of amount or source must be provided")));
        }
        let i = match self.index_of_id(id) {
            Some(i) => i,
            None => {
                return Err(not_found());
            },
        };
        if now.micros <= self.clock && self.clock == i64::MAX {
            return Err(exhausted());
        }
        let at = stamp(self.clock, now);
        let ghost before = self@;
        let ghost sv = opt_text(source);
        let old_row = self.rows[i].duplicate();
        let row = Transaction {
            id: old_row.id,
            amount: match amount {
                Some(a) => a,
                None => old_row.amount,
            },
            source: match source {
                Some(s) => s,
                None => old_row.source,
            },
            created_at: old_row.created_at,
            updated_at: at,
        };
        let out = row.duplicate();
        self.rows.set(i, row);
        self.clock = at.micros;
        assert(out@ == patched(before.rows[i as int], amount, sv, at.micros as int));
        assert(self@.rows =~= before.rows.update(i as int, out@));
        assert forall|a: int, b: int| 0 <= a < b < self@.rows.len() implies #[trigger] self@.rows[a].id
            < #[trigger] self@.rows[b].id && self@.rows[a].created_at < self@.rows[b].created_at by {
            assert(before.rows[a].id < before.rows[b].id);
        }
        Ok(out)
    }

    /// Removes the row with the given id.
    pub fn delete(&mut self, id: i64) -> (r: Result<(), AppError>)
        requires
            old(self)@.well_formed(),
        ensures
            final(self)@.well_formed(),
            r is Ok <==> old(self)@.has_id(id as int),
            r is Ok ==> final(self)@ == old(self)@.after_delete(id as int),
            r matches Err(e) ==> (e matches AppError::NotFound(m) && m@ == not_found_message())
                && final(self)@ == old(self)@,
    {
        match self.index_of_id(id) {
            Some(i) => {
                let ghost before = self@;
                let _gone = self.rows.remove(i);
                assert(self@.rows =~= before.rows.remove(i as int));
                assert forall|a: int, b: int| 0 <= a < b < self@.rows.len() implies #[trigger] self@.rows[a].id
                    < #[trigger] self@.rows[b].id && self@.rows[a].created_at < self@.rows[b].created_at by {
                    let oa = if a < i { a } else { a + 1 };
                    let ob = if b < i { b } else { b + 1 };
                    assert(before.rows[oa].id < before.rows[ob].id);
                }
                assert forall|k: int| 0 <= k < self@.rows.len() implies {
                    let r = #[trigger] self@.rows[k];
                    &&& 1 <= r.id <= self@.last_id
                    &&& r.created_at <= r.updated_at <= self@.clock
                    &&& i64::MIN <= r.created_at
                    &&& r.amount.is_positive()
                    &&& source_is_valid(r.source)
                } by {
                    let ok = if k < i { k } else { k + 1 };
                    assert(before.rows[ok] == self@.rows[k]);
                }
                Ok(())
            },
            None => Err(not_found()),
        }
    }

    /// At most `limit` rows, newest first, after skipping `offset` of them.
    pub fn list(&self, limit: usize, offset: usize) -> (r: Vec<Transaction>)
        requires
            self@.well_formed(),
        ensures
            rows_view(r@) == self@.page(limit as int, offset as int),
            forall|a: int, b: int|
                0 <= a < b < r@.len() ==> #[trigger] r@[a].created_at.micros > #[trigger] r@[b].created_at.micros,
    {
        let n = self.rows.len();
        let start: usize = if offset < n { offset } else { n };
        let end: usize = if limit < n - start { start + limit } else { n };
        let ghost page = self@.page(limit as int, offset as int);
        let mut out: Vec<Transaction> = Vec::new();
        let mut k: usize = start;
        while k < end
            invariant
                self@.well_formed(),
                n == self.rows@.len(),
                n == self@.rows.len(),
                start <= k <= end <= n,
                page == self@.newest_first().subrange(start as int, end as int),
                out@.len() == k - start,
                forall|j: int| 0 <= j < out@.len() ==> #[trigger] out@[j]@ == page[j],
            decreases end - k,
        {
            let row = self.rows[n - 1 - k].duplicate();
            out.push(row);
            k = k + 1;
        }
        assert(rows_view(out@) =~= page);
        assert forall|a: int, b: int| 0 <= a < b < out@.len() implies #[trigger] out@[a].created_at.micros
            > #[trigger] out@[b].created_at.micros by {
            assert(out@[a]@ == page[a]);
            assert(out@[b]@ == page[b]);
            assert(self@.rows[n - 1 - (start + b)].created_at < self@.rows[n - 1 - (start + a)].created_at);
        }
        out
    }
}

} // verus!
