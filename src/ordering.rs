//! Stable ordering of ledger entries by posting day.
use vstd::prelude::*;
use crate::ledger::TransactionConfirmed;

verus! {

/// Entries in ascending order of posting day.
pub open spec fn chronological(txs: Seq<TransactionConfirmed>) -> bool {
    forall|i: int| 0 < i < txs.len() ==> txs[i - 1].balances_date <= #[trigger] txs[i].balances_date
}

/// `s` with `x` placed after every entry, counted from the end, whose posting
/// day is later than that of `x`; an entry with the same day stays before `x`.
pub open spec fn insert_by_date(s: Seq<TransactionConfirmed>, x: TransactionConfirmed) -> Seq<
    TransactionConfirmed,
>
    decreases s.len(),
{
    if s.len() == 0 {
        seq![x]
    } else if s.last().balances_date <= x.balances_date {
        s.push(x)
    } else {
        insert_by_date(s.drop_last(), x).push(s.last())
    }
}

/// The entries of `s` sorted stably by posting day: entries posted on the same
/// day keep their order.
pub open spec fn sorted_by_date(s: Seq<TransactionConfirmed>) -> Seq<TransactionConfirmed>
    decreases s.len(),
{
    if s.len() == 0 {
        s
    } else {
        insert_by_date(sorted_by_date(s.drop_last()), s.last())
    }
}

proof fn lemma_insert_by_date(s: Seq<TransactionConfirmed>, x: TransactionConfirmed)
    ensures
        insert_by_date(s, x).len() == s.len() + 1,
        insert_by_date(s, x).last() == x || (s.len() > 0 && insert_by_date(s, x).last()
            == s.last()),
        insert_by_date(s, x).to_multiset() == s.to_multiset().insert(x),
        chronological(s) ==> chronological(insert_by_date(s, x)),
    decreases s.len(),
{
    broadcast use vstd::seq_lib::group_to_multiset_ensures;

    if s.len() == 0 {
        assert(seq![x] =~= Seq::<TransactionConfirmed>::empty().push(x));
    } else if s.last().balances_date <= x.balances_date {
    } else {
        let d = s.drop_last();
        lemma_insert_by_date(d, x);
        assert(s =~= d.push(s.last()));
        let r = insert_by_date(d, x);
        if chronological(s) {
            assert(chronological(d));
            if d.len() > 0 && r.last() == d.last() {
                assert(d.last() == s[s.len() - 2]);
            }
            assert(chronological(r.push(s.last()))) by {
                assert forall|i: int| 0 < i < r.len() + 1 implies #[trigger] r.push(
                    s.last(),
                )[i - 1].balances_date <= r.push(s.last())[i].balances_date by {
                    if i < r.len() {
                        assert(r.push(s.last())[i - 1] == r[i - 1]);
                        assert(r.push(s.last())[i] == r[i]);
                    }
                }
            }
        }
    }
}

/// Sorting by posting day keeps every entry, each as often as it came, and
/// puts them in ascending order of posting day.
pub proof fn lemma_sorted_by_date(s: Seq<TransactionConfirmed>)
    ensures
        sorted_by_date(s).to_multiset() == s.to_multiset(),
        sorted_by_date(s).len() == s.len(),
        chronological(sorted_by_date(s)),
    decreases s.len(),
{
    broadcast use vstd::seq_lib::group_to_multiset_ensures;

    if s.len() > 0 {
        let d = s.drop_last();
        lemma_sorted_by_date(d);
        lemma_insert_by_date(sorted_by_date(d), s.last());
        assert(s =~= d.push(s.last()));
    }
}

/// No two entries share a posting day.
pub open spec fn distinct_days(s: Seq<TransactionConfirmed>) -> bool {
    forall|i: int, j: int|
        0 <= i < j < s.len() ==> (#[trigger] s[i]).balances_date != (#[trigger] s[j]).balances_date
}

proof fn lemma_chronological_pairs(s: Seq<TransactionConfirmed>, i: int, j: int)
    requires
        chronological(s),
        0 <= i <= j < s.len(),
    ensures
        s[i].balances_date <= s[j].balances_date,
    decreases j - i,
{
    if i < j {
        lemma_chronological_pairs(s, i, j - 1);
    }
}

proof fn lemma_index_of(s: Seq<TransactionConfirmed>, x: TransactionConfirmed) -> (k: int)
    requires
        s.to_multiset().count(x) > 0,
    ensures
        0 <= k < s.len(),
        s[k] == x,
{
    broadcast use vstd::seq_lib::group_to_multiset_ensures;

    assert(s.contains(x));
    choose|k: int| 0 <= k < s.len() && s[k] == x
}

proof fn lemma_distinct_days_transfer(a: Seq<TransactionConfirmed>, b: Seq<TransactionConfirmed>)
    requires
        a.to_multiset() == b.to_multiset(),
        distinct_days(a),
    ensures
        distinct_days(b),
{
    broadcast use vstd::seq_lib::group_to_multiset_ensures;

    assert forall|i: int, j: int| 0 <= i < j < b.len() implies (#[trigger] b[i]).balances_date
        != (#[trigger] b[j]).balances_date by {
        if b[i].balances_date == b[j].balances_date {
            assert(b.to_multiset().count(b[i]) > 0);
            assert(b.to_multiset().count(b[j]) > 0);
            let p = lemma_index_of(a, b[i]);
            let q = lemma_index_of(a, b[j]);
            if p != q {
                if p < q {
                    assert(a[p].balances_date != a[q].balances_date);
                } else {
                    assert(a[q].balances_date != a[p].balances_date);
                }
            } else {
                let x = b[i];
                let br = b.remove(j);
                assert(br[i] == x);
                assert(br.to_multiset() == b.to_multiset().remove(b[j]));
                assert(br.to_multiset().count(x) > 0);
                let ar = a.remove(p);
                assert(ar.to_multiset() == a.to_multiset().remove(a[p]));
                assert(ar.to_multiset().count(x) > 0);
                let r = lemma_index_of(ar, x);
                let r2 = if r < p { r } else { r + 1 };
                assert(a[r2] == x);
                if r2 < p {
                    assert(a[r2].balances_date != a[p].balances_date);
                } else {
                    assert(a[p].balances_date != a[r2].balances_date);
                }
            }
        }
    }
}

proof fn lemma_same_len(a: Seq<TransactionConfirmed>, b: Seq<TransactionConfirmed>)
    requires
        a.to_multiset() == b.to_multiset(),
    ensures
        a.len() == b.len(),
{
    broadcast use vstd::seq_lib::group_to_multiset_ensures;

    assert(a.len() == a.to_multiset().len());
    assert(b.len() == b.to_multiset().len());
}

proof fn lemma_same_last(a: Seq<TransactionConfirmed>, b: Seq<TransactionConfirmed>)
    requires
        chronological(a),
        chronological(b),
        distinct_days(a),
        a.len() == b.len(),
        a.len() > 0,
        a.to_multiset() == b.to_multiset(),
    ensures
        a.last() == b.last(),
{
    broadcast use vstd::seq_lib::group_to_multiset_ensures;

    let n = a.len() - 1;
    assert(a.to_multiset().count(a.last()) > 0);
    assert(b.to_multiset().count(b.last()) > 0);
    let k = lemma_index_of(b, a.last());
    lemma_chronological_pairs(b, k, n);
    let k2 = lemma_index_of(a, b.last());
    lemma_chronological_pairs(a, k2, n);
    if k2 != n {
        assert(a[k2].balances_date != a[n].balances_date);
    }
}

proof fn lemma_drop_same_last(a: Seq<TransactionConfirmed>, b: Seq<TransactionConfirmed>)
    requires
        a.len() == b.len(),
        a.len() > 0,
        a.last() == b.last(),
        a.to_multiset() == b.to_multiset(),
    ensures
        a.drop_last().to_multiset() == b.drop_last().to_multiset(),
{
    broadcast use vstd::seq_lib::group_to_multiset_ensures;

    let n = a.len() - 1;
    assert(a.remove(n) =~= a.drop_last());
    assert(b.remove(n) =~= b.drop_last());
    assert(a.remove(n).to_multiset() == a.to_multiset().remove(a[n]));
    assert(b.remove(n).to_multiset() == b.to_multiset().remove(b[n]));
}

proof fn lemma_prefix_keeps_order(a: Seq<TransactionConfirmed>)
    requires
        a.len() > 0,
        chronological(a),
        distinct_days(a),
    ensures
        chronological(a.drop_last()),
        distinct_days(a.drop_last()),
        a =~= a.drop_last().push(a.last()),
{
    let d = a.drop_last();
    assert forall|i: int, j: int| 0 <= i < j < d.len() implies (#[trigger] d[i]).balances_date
        != (#[trigger] d[j]).balances_date by {
        assert(d[i] == a[i] && d[j] == a[j]);
    }
}

proof fn lemma_chronological_unique(a: Seq<TransactionConfirmed>, b: Seq<TransactionConfirmed>)
    requires
        chronological(a),
        chronological(b),
        distinct_days(a),
        distinct_days(b),
        a.to_multiset() == b.to_multiset(),
    ensures
        a == b,
    decreases a.len(),
{
    lemma_same_len(a, b);
    if a.len() == 0 {
        assert(a =~= b);
    } else {
        lemma_same_last(a, b);
        lemma_drop_same_last(a, b);
        lemma_prefix_keeps_order(a);
        lemma_prefix_keeps_order(b);
        lemma_chronological_unique(a.drop_last(), b.drop_last());
    }
}

/// Entries whose posting days are pairwise distinct sort to the same
/// sequence, whatever order they come in.
pub proof fn lemma_sort_ignores_input_order(s: Seq<TransactionConfirmed>, t: Seq<TransactionConfirmed>)
    requires
        t.to_multiset() == s.to_multiset(),
        distinct_days(s),
    ensures
        sorted_by_date(t) == sorted_by_date(s),
{
    lemma_sorted_by_date(s);
    lemma_sorted_by_date(t);
    lemma_distinct_days_transfer(s, sorted_by_date(s));
    lemma_distinct_days_transfer(s, sorted_by_date(t));
    lemma_chronological_unique(sorted_by_date(t), sorted_by_date(s));
}

/// Places `x` into `v` as [`insert_by_date`] states it.
fn insert_in_order(v: &mut Vec<TransactionConfirmed>, x: TransactionConfirmed)
    ensures
        final(v)@ == insert_by_date(old(v)@, x),
{
    let ghost s = v@;
    let mut pos: usize = v.len();
    assert(s.take(s.len() as int) =~= s);
    assert(insert_by_date(s, x) + s.skip(s.len() as int) =~= insert_by_date(s, x));
    while pos > 0 && v[pos - 1].balances_date > x.balances_date
        invariant
            v@ == s,
            pos <= s.len(),
            insert_by_date(s, x) == insert_by_date(s.take(pos as int), x) + s.skip(pos as int),
        decreases pos,
    {
        proof {
            let t = s.take(pos as int);
            assert(t.drop_last() =~= s.take(pos - 1));
            assert(t.last() == s[pos - 1]);
            assert(insert_by_date(t, x) == insert_by_date(s.take(pos - 1), x).push(s[pos - 1]));
            assert(insert_by_date(s.take(pos - 1), x).push(s[pos - 1]) + s.skip(pos as int)
                =~= insert_by_date(s.take(pos - 1), x) + s.skip(pos - 1));
        }
        pos = pos - 1;
    }
    proof {
        let t = s.take(pos as int);
        if pos > 0 {
            assert(t.last() == s[pos - 1]);
        }
        assert(insert_by_date(t, x) =~= t.push(x));
        assert(insert_by_date(s, x) =~= s.insert(pos as int, x));
    }
    v.insert(pos, x);
}

/// The entries sorted stably by posting day.
pub fn sort_by_balances_date(transactions: &Vec<TransactionConfirmed>) -> (r: Vec<
    TransactionConfirmed,
>)
    ensures
        r@ == sorted_by_date(transactions@),
{
    let mut sorted: Vec<TransactionConfirmed> = Vec::new();
    let mut i: usize = 0;
    while i < transactions.len()
        invariant
            0 <= i <= transactions@.len(),
            sorted@ == sorted_by_date(transactions@.take(i as int)),
        decreases transactions@.len() - i,
    {
        proof {
            let t = transactions@.take(i as int + 1);
            assert(t.drop_last() =~= transactions@.take(i as int));
            assert(t.last() == transactions@[i as int]);
        }
        insert_in_order(&mut sorted, transactions[i]);
        i = i + 1;
    }
    assert(transactions@.take(i as int) =~= transactions@);
    sorted
}

/// Whether the entries come in ascending order of posting day.
pub fn is_chronological(transactions: &Vec<TransactionConfirmed>) -> (r: bool)
    ensures
        r == chronological(transactions@),
{
    let mut i: usize = 1;
    while i < transactions.len()
        invariant
            1 <= i,
            i <= transactions@.len() || transactions@.len() == 0,
            forall|k: int|
                0 < k < i && k < transactions@.len() ==> transactions@[k - 1].balances_date
                    <= #[trigger] transactions@[k].balances_date,
        decreases transactions@.len() - i,
    {
        if transactions[i - 1].balances_date > transactions[i].balances_date {
            return false;
        }
        i = i + 1;
    }
    true
}

} // verus!
