use vstd::prelude::*;
use crate::amount::Amount;
use crate::models::{TransactionView, amount_violation, source_is_valid, violations};
use crate::store::{StoreView, can_stamp};

verus! {

/// In a well-formed store each row is the one found under its own id.
pub proof fn lemma_find_row(s: StoreView, i: int)
    requires
        s.well_formed(),
        0 <= i < s.rows.len(),
    ensures
        s.has_id(s.rows[i].id),
        s.index_of(s.rows[i].id) == i,
        s.find(s.rows[i].id) == Some(s.rows[i]),
{
    let id = s.rows[i].id;
    assert(s.has_id(id));
    let j = s.index_of(id);
    if j < i {
        assert(s.rows[j].id < s.rows[i].id);
    } else if j > i {
        assert(s.rows[i].id < s.rows[j].id);
    }
}

/// A create of valid fields keeps the store well formed.
pub proof fn lemma_create_well_formed(s: StoreView, amount: Amount, source: Seq<char>, now: int)
    requires
        s.well_formed(),
        s.can_create(now),
        amount.is_positive(),
        source_is_valid(source),
    ensures
        s.after_create(amount, source, now).well_formed(),
{
    let s1 = s.after_create(amount, source, now);
    let n = s.rows.len() as int;
    assert forall|i: int, j: int| 0 <= i < j < s1.rows.len() implies #[trigger] s1.rows[i].id
        < #[trigger] s1.rows[j].id && s1.rows[i].created_at < s1.rows[j].created_at by {
        if j < n {
            assert(s.rows[i].id < s.rows[j].id);
        } else {
            assert(s.rows[i] == s1.rows[i]);
        }
    }
    assert forall|i: int| 0 <= i < s1.rows.len() implies {
        let r = #[trigger] s1.rows[i];
        &&& 1 <= r.id <= s1.last_id
        &&& r.created_at <= r.updated_at <= s1.clock
        &&& i64::MIN <= r.created_at
        &&& r.amount.is_positive()
        &&& source_is_valid(r.source)
    } by {
        if i < n {
            assert(s.rows[i] == s1.rows[i]);
        }
    }
}

/// A created record has a positive id, equal creation and update instants, and the amount
/// it was given.
pub proof fn lemma_created_record(s: StoreView, amount: Amount, source: Seq<char>, now: int)
    requires
        s.well_formed(),
        s.can_create(now),
    ensures
        s.created_row(amount, source, now).id > 0,
        s.created_row(amount, source, now).created_at == s.created_row(amount, source, now).updated_at,
        s.created_row(amount, source, now).amount == amount,
{
}

/// A non-positive amount, on a create or on an update, is a validation failure with the
/// amount's fixed message, listed first.
pub proof fn lemma_nonpositive_amount_rejected(amount: Amount, source: Option<Seq<char>>)
    requires
        !amount.is_positive(),
    ensures
        violations(Some(amount), source).len() > 0,
        violations(Some(amount), source)[0] == amount_violation(),
{
}

/// Reading a record back right after creating it gives the amount and source it was
/// created with.
pub proof fn lemma_create_then_get(s: StoreView, amount: Amount, source: Seq<char>, now: int)
    requires
        s.well_formed(),
        s.can_create(now),
        amount.is_positive(),
        source_is_valid(source),
    ensures
        ({
            let t = s.created_row(amount, source, now);
            let s1 = s.after_create(amount, source, now);
            &&& s1.find(t.id) == Some(t)
            &&& t.amount == amount
            &&& t.source == source
        }),
{
    lemma_create_well_formed(s, amount, source, now);
    let s1 = s.after_create(amount, source, now);
    lemma_find_row(s1, s.rows.len() as int);
}

/// Updating only the source of a fresh record keeps its amount, sets the new source and
/// moves its update instant strictly forward.
pub proof fn lemma_update_source_only(
    s: StoreView,
    amount: Amount,
    source: Seq<char>,
    new_source: Seq<char>,
    created: int,
    updated: int,
)
    requires
        s.well_formed(),
        s.can_create(created),
        amount.is_positive(),
        source_is_valid(source),
        source_is_valid(new_source),
        can_stamp(s.after_create(amount, source, created).clock, updated),
    ensures
        ({
            let t = s.created_row(amount, source, created);
            let s1 = s.after_create(amount, source, created);
            let s2 = s1.after_update(t.id, None, Some(new_source), updated);
            &&& s2.find(t.id) matches Some(u)
            &&& u.id == t.id
            &&& u.amount == amount
            &&& u.source == new_source
            &&& u.created_at == t.created_at
            &&& u.updated_at > t.updated_at
        }),
{
    lemma_create_well_formed(s, amount, source, created);
    let t = s.created_row(amount, source, created);
    let s1 = s.after_create(amount, source, created);
    let n = s.rows.len() as int;
    lemma_find_row(s1, n);
    let s2 = s1.after_update(t.id, None, Some(new_source), updated);
    assert(s2.rows[n].id == t.id);
    assert(s2.has_id(t.id));
    let j = s2.index_of(t.id);
    assert(s2.rows[j].id == s1.rows[j].id);
    if j < n {
        assert(s1.rows[j].id < s1.rows[n].id);
    }
}

/// Three records created one after another are listed newest first: the last created,
/// then the second, then the first; on a store that was empty they are the whole page.
pub proof fn lemma_list_newest_first(
    s: StoreView,
    a1: Amount,
    x1: Seq<char>,
    n1: int,
    a2: Amount,
    x2: Seq<char>,
    n2: int,
    a3: Amount,
    x3: Seq<char>,
    n3: int,
)
    requires
        s.well_formed(),
        s.can_create(n1),
        s.after_create(a1, x1, n1).can_create(n2),
        s.after_create(a1, x1, n1).after_create(a2, x2, n2).can_create(n3),
    ensures
        ({
            let s1 = s.after_create(a1, x1, n1);
            let s2 = s1.after_create(a2, x2, n2);
            let s3 = s2.after_create(a3, x3, n3);
            let expected: Seq<TransactionView> = seq![
                s2.created_row(a3, x3, n3),
                s1.created_row(a2, x2, n2),
                s.created_row(a1, x1, n1),
            ];
            &&& s3.page(10, 0).subrange(0, 3) == expected
            &&& s.rows.len() == 0 ==> s3.page(10, 0) == expected
        }),
{
    let s1 = s.after_create(a1, x1, n1);
    let s2 = s1.after_create(a2, x2, n2);
    let s3 = s2.after_create(a3, x3, n3);
    let expected: Seq<TransactionView> = seq![
        s2.created_row(a3, x3, n3),
        s1.created_row(a2, x2, n2),
        s.created_row(a1, x1, n1),
    ];
    let n = s.rows.len() as int;
    assert(s3.rows.len() == n + 3);
    assert(s3.rows[n + 2] == expected[0]);
    assert(s3.rows[n + 1] == expected[1]);
    assert(s3.rows[n] == expected[2]);
    assert(s3.page(10, 0).subrange(0, 3) =~= expected);
    if n == 0 {
        assert(s3.page(10, 0) =~= expected);
    }
}

/// After a record is deleted its id is gone, so a second delete of it finds nothing.
pub proof fn lemma_delete_twice(s: StoreView, id: int)
    requires
        s.well_formed(),
        s.has_id(id),
    ensures
        !s.after_delete(id).has_id(id),
{
    let i = s.index_of(id);
    let s1 = s.after_delete(id);
    if s1.has_id(id) {
        let k = choose|k: int| 0 <= k < s1.rows.len() && s1.rows[k].id == id;
        let ok = if k < i { k } else { k + 1 };
        assert(s.rows[ok] == s1.rows[k]);
        if ok < i {
            assert(s.rows[ok].id < s.rows[i].id);
        } else {
            assert(s.rows[i].id < s.rows[ok].id);
        }
    }
}

} // verus!
