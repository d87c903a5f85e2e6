//! Tables held as lists of rows, read as maps from primary key to content.

use vstd::prelude::*;

verus! {

/// Whether some row of `rows` has the key `k`.
pub open spec fn has_key<K, V>(rows: Seq<(K, V)>, k: K) -> bool {
    exists|i: int| 0 <= i < rows.len() && (#[trigger] rows[i]).0 == k
}

/// The position of a row with the key `k`, where there is one.
pub open spec fn position<K, V>(rows: Seq<(K, V)>, k: K) -> int {
    choose|i: int| 0 <= i < rows.len() && (#[trigger] rows[i]).0 == k
}

/// No two rows share a key.
pub open spec fn distinct_keys<K, V>(rows: Seq<(K, V)>) -> bool {
    forall|i: int, j: int|
        0 <= i < j < rows.len() ==> (#[trigger] rows[i]).0 != (#[trigger] rows[j]).0
}

/// The table as a map from key to content.
pub open spec fn as_map<K, V>(rows: Seq<(K, V)>) -> Map<K, V> {
    Map::new(|k: K| has_key(rows, k), |k: K| rows[position(rows, k)].1)
}

/// The row at position `i` is what the map holds under its key.
pub proof fn lemma_row<K, V>(rows: Seq<(K, V)>, i: int)
    requires
        distinct_keys(rows),
        0 <= i < rows.len(),
    ensures
        as_map(rows).contains_key(rows[i].0),
        as_map(rows)[rows[i].0] == rows[i].1,
        position(rows, rows[i].0) == i,
{
    let k = rows[i].0;
    assert(has_key(rows, k));
    let p = position(rows, k);
    assert(0 <= p < rows.len() && rows[p].0 == k);
    if p < i {
        assert(rows[p].0 != rows[i].0);
    } else if i < p {
        assert(rows[i].0 != rows[p].0);
    }
}

/// A key that no row has is absent from the map.
pub proof fn lemma_missing<K, V>(rows: Seq<(K, V)>, k: K)
    requires
        forall|i: int| 0 <= i < rows.len() ==> (#[trigger] rows[i]).0 != k,
    ensures
        !as_map(rows).contains_key(k),
{
}

/// Appending a row with a fresh key inserts it into the map.
pub proof fn lemma_push<K, V>(rows: Seq<(K, V)>, k: K, v: V)
    requires
        distinct_keys(rows),
        !as_map(rows).contains_key(k),
    ensures
        distinct_keys(rows.push((k, v))),
        as_map(rows.push((k, v))) == as_map(rows).insert(k, v),
{
    let after = rows.push((k, v));
    assert forall|i: int, j: int| 0 <= i < j < after.len() implies (#[trigger] after[i]).0 != (
    #[trigger] after[j]).0 by {
        if j == rows.len() {
            assert(after[i] == rows[i]);
            if rows[i].0 == k {
                assert(has_key(rows, k));
            }
        } else {
            assert(after[i] == rows[i] && after[j] == rows[j]);
        }
    }
    assert forall|q: K| as_map(after).contains_key(q) <==> #[trigger] as_map(rows).insert(
        k,
        v,
    ).contains_key(q) by {
        if has_key(after, q) {
            let p = position(after, q);
            if p < rows.len() {
                assert(rows[p] == after[p]);
                assert(has_key(rows, q));
            }
        }
        if has_key(rows, q) {
            let p = position(rows, q);
            assert(after[p] == rows[p]);
            assert(has_key(after, q));
        }
        if q == k {
            assert(after[rows.len() as int].0 == k);
            assert(has_key(after, q));
        }
    }
    assert forall|q: K| as_map(after).contains_key(q) implies #[trigger] as_map(after)[q]
        == as_map(rows).insert(k, v)[q] by {
        let p = position(after, q);
        lemma_row(after, p);
        if p < rows.len() {
            assert(after[p] == rows[p]);
            lemma_row(rows, p);
        }
    }
    assert(as_map(after) =~= as_map(rows).insert(k, v));
}

/// Replacing the content of row `i` replaces what the map holds under its key.
pub proof fn lemma_update<K, V>(rows: Seq<(K, V)>, i: int, v: V)
    requires
        distinct_keys(rows),
        0 <= i < rows.len(),
    ensures
        distinct_keys(rows.update(i, (rows[i].0, v))),
        as_map(rows.update(i, (rows[i].0, v))) == as_map(rows).insert(rows[i].0, v),
{
    let k = rows[i].0;
    let after = rows.update(i, (k, v));
    assert forall|a: int, b: int| 0 <= a < b < after.len() implies (#[trigger] after[a]).0 != (
    #[trigger] after[b]).0 by {
        assert(after[a].0 == rows[a].0 && after[b].0 == rows[b].0);
    }
    assert forall|q: K| as_map(after).contains_key(q) <==> #[trigger] as_map(rows).insert(
        k,
        v,
    ).contains_key(q) by {
        if has_key(after, q) {
            let p = position(after, q);
            assert(rows[p].0 == q);
            assert(has_key(rows, q));
        }
        if has_key(rows, q) {
            let p = position(rows, q);
            assert(after[p].0 == q);
            assert(has_key(after, q));
        }
        if q == k {
            assert(after[i].0 == k);
            assert(has_key(after, q));
        }
    }
    assert forall|q: K| as_map(after).contains_key(q) implies #[trigger] as_map(after)[q]
        == as_map(rows).insert(k, v)[q] by {
        let p = position(after, q);
        lemma_row(after, p);
        if p != i {
            assert(after[p] == rows[p]);
            lemma_row(rows, p);
        }
    }
    assert(as_map(after) =~= as_map(rows).insert(k, v));
}

/// Taking row `i` out removes its key from the map.
pub proof fn lemma_remove<K, V>(rows: Seq<(K, V)>, i: int)
    requires
        distinct_keys(rows),
        0 <= i < rows.len(),
    ensures
        distinct_keys(rows.remove(i)),
        as_map(rows.remove(i)) == as_map(rows).remove(rows[i].0),
{
    let k = rows[i].0;
    let after = rows.remove(i);
    assert forall|a: int| 0 <= a < after.len() implies #[trigger] after[a] == rows[if a < i {
        a
    } else {
        a + 1
    }] by {}
    assert forall|a: int, b: int| 0 <= a < b < after.len() implies (#[trigger] after[a]).0 != (
    #[trigger] after[b]).0 by {
        let a0 = if a < i { a } else { a + 1 };
        let b0 = if b < i { b } else { b + 1 };
        assert(after[a] == rows[a0] && after[b] == rows[b0]);
        assert(rows[a0].0 != rows[b0].0);
    }
    assert forall|q: K| as_map(after).contains_key(q) <==> #[trigger] as_map(rows).remove(
        k,
    ).contains_key(q) by {
        if has_key(after, q) {
            let p = position(after, q);
            let p0 = if p < i { p } else { p + 1 };
            assert(after[p] == rows[p0]);
            assert(has_key(rows, q));
            if q == k {
                if p0 < i {
                    assert(rows[p0].0 != rows[i].0);
                } else {
                    assert(rows[i].0 != rows[p0].0);
                }
            }
        }
        if has_key(rows, q) && q != k {
            let p = position(rows, q);
            let p1 = if p < i { p } else { p - 1 };
            assert(after[p1] == rows[p]);
            assert(has_key(after, q));
        }
    }
    assert forall|q: K| as_map(after).contains_key(q) implies #[trigger] as_map(after)[q]
        == as_map(rows).remove(k)[q] by {
        let p = position(after, q);
        lemma_row(after, p);
        let p0 = if p < i { p } else { p + 1 };
        assert(after[p] == rows[p0]);
        lemma_row(rows, p0);
    }
    assert(as_map(after) =~= as_map(rows).remove(k));
}

/// A table with distinct keys has as many entries as rows.
pub proof fn lemma_len<K, V>(rows: Seq<(K, V)>)
    requires
        distinct_keys(rows),
    ensures
        as_map(rows).dom().finite(),
        as_map(rows).len() == rows.len(),
    decreases rows.len(),
{
    if rows.len() == 0 {
        assert(as_map(rows).dom() =~= Set::empty());
    } else {
        let front = rows.drop_last();
        let (k, v) = rows.last();
        assert(distinct_keys(front)) by {
            assert forall|i: int, j: int| 0 <= i < j < front.len() implies (#[trigger] front[i]).0
                != (#[trigger] front[j]).0 by {
                assert(front[i] == rows[i] && front[j] == rows[j]);
            }
        }
        lemma_len(front);
        assert(!as_map(front).contains_key(k)) by {
            if has_key(front, k) {
                let p = position(front, k);
                assert(front[p] == rows[p]);
                assert(rows[p].0 != rows[rows.len() - 1].0);
            }
        }
        lemma_push(front, k, v);
        assert(front.push((k, v)) =~= rows);
        assert(as_map(rows).dom() =~= as_map(front).dom().insert(k));
    }
}

} // verus!
