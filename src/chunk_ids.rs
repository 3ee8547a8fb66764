use vstd::prelude::*;
use crate::decimal::{decimal, decimal_string};

verus! {

pub open spec fn strictly_increasing(s: Seq<u64>) -> bool {
    forall|a: int, b: int| 0 <= a < b < s.len() ==> s[a] < s[b]
}

/// `o` lists the distinct ids of `ids` in increasing order.
pub open spec fn is_sorted_ids(o: Seq<u64>, ids: Seq<u64>) -> bool {
    strictly_increasing(o) && forall|x: u64| #[trigger] o.contains(x) <==> ids.contains(x)
}

/// The distinct ids of `ids` in increasing order.
pub open spec fn sorted_ids(ids: Seq<u64>) -> Seq<u64> {
    choose|o: Seq<u64>| is_sorted_ids(o, ids)
}

/// There is exactly one increasing listing of a set of ids.
pub proof fn lemma_sorted_ids_unique(o1: Seq<u64>, o2: Seq<u64>, ids: Seq<u64>)
    requires
        is_sorted_ids(o1, ids),
        is_sorted_ids(o2, ids),
    ensures
        o1 == o2,
{
    assert forall|k: int| 0 <= k < o1.len() && 0 <= k < o2.len() implies o1[k] == o2[k] by {
        lemma_agree_at(o1, o2, ids, k);
    }
    if o1.len() < o2.len() {
        lemma_no_longer(o1, o2, ids);
    } else if o2.len() < o1.len() {
        lemma_no_longer(o2, o1, ids);
    }
    assert(o1 =~= o2);
}

proof fn lemma_no_longer(o1: Seq<u64>, o2: Seq<u64>, ids: Seq<u64>)
    requires
        is_sorted_ids(o1, ids),
        is_sorted_ids(o2, ids),
        forall|k: int| 0 <= k < o1.len() && 0 <= k < o2.len() ==> o1[k] == o2[k],
    ensures
        o2.len() <= o1.len(),
{
    if o1.len() < o2.len() {
        let x = o2[o1.len() as int];
        assert(o2.contains(x));
        assert(o1.contains(x));
        let p = choose|p: int| 0 <= p < o1.len() && o1[p] == x;
        assert(o2[p] == x);
    }
}

proof fn lemma_agree_at(o1: Seq<u64>, o2: Seq<u64>, ids: Seq<u64>, k: int)
    requires
        is_sorted_ids(o1, ids),
        is_sorted_ids(o2, ids),
        0 <= k < o1.len(),
        0 <= k < o2.len(),
    ensures
        o1[k] == o2[k],
    decreases k,
{
    assert forall|j: int| 0 <= j < k implies o1[j] == o2[j] by {
        lemma_agree_at(o1, o2, ids, j);
    }
    let a = o1[k];
    let b = o2[k];
    if a < b {
        assert(o1.contains(a));
        assert(o2.contains(a));
        let p = choose|p: int| 0 <= p < o2.len() && o2[p] == a;
        if p < k {
            assert(o1[p] == a);
        }
    } else if b < a {
        assert(o2.contains(b));
        assert(o1.contains(b));
        let p = choose|p: int| 0 <= p < o1.len() && o1[p] == b;
        if p < k {
            assert(o2[p] == b);
        }
    }
}

/// The distinct chunk ids in increasing order.
pub fn sort_chunk_ids(ids: &Vec<u64>) -> (r: Vec<u64>)
    ensures
        is_sorted_ids(r@, ids@),
        r@ == sorted_ids(ids@),
{
    let mut out: Vec<u64> = Vec::new();
    let mut i: usize = 0;
    while i < ids.len()
        invariant
            i <= ids@.len(),
            is_sorted_ids(out@, ids@.take(i as int)),
        decreases ids@.len() - i,
    {
        let x = ids[i];
        let mut p: usize = 0;
        let mut scanning = true;
        while scanning
            invariant
                p <= out@.len(),
                forall|k: int| 0 <= k < p ==> out@[k] < x,
                !scanning ==> (p < out@.len() ==> out@[p as int] >= x),
            decreases out@.len() - p + if scanning { 1int } else { 0int },
        {
            if p < out.len() && out[p] < x {
                p = p + 1;
            } else {
                scanning = false;
            }
        }
        let ghost prev = out@;
        let ghost pre = ids@.take(i as int);
        let ghost nxt = ids@.take(i + 1);
        assert(nxt =~= pre.push(x));
        if p < out.len() && out[p] == x {
            assert forall|y: u64| #[trigger] out@.contains(y) <==> nxt.contains(y) by {
                if y == x {
                    assert(out@[p as int] == x);
                    assert(nxt[i as int] == x);
                } else if nxt.contains(y) {
                    let k = choose|k: int| 0 <= k < i + 1 && nxt[k] == y;
                    assert(pre[k] == y);
                } else if out@.contains(y) {
                    assert(pre.contains(y));
                    let k = choose|k: int| 0 <= k < i && pre[k] == y;
                    assert(nxt[k] == y);
                }
            }
        } else {
            out.insert(p, x);
            assert forall|a: int, b: int| 0 <= a < b < out@.len() implies out@[a] < out@[b] by {
                if b < p {
                } else if b == p {
                } else if a < p {
                    assert(out@[b] == prev[b - 1]);
                    if p < b - 1 {
                        assert(prev[p as int] < prev[b - 1]);
                    }
                } else if a == p {
                    assert(out@[b] == prev[b - 1]);
                    if p < b - 1 {
                        assert(prev[p as int] < prev[b - 1]);
                    }
                } else {
                    assert(out@[a] == prev[a - 1]);
                    assert(out@[b] == prev[b - 1]);
                }
            }
            assert forall|y: u64| #[trigger] out@.contains(y) <==> nxt.contains(y) by {
                if y == x {
                    assert(out@[p as int] == x);
                    assert(nxt[i as int] == x);
                } else {
                    if nxt.contains(y) {
                        let k = choose|k: int| 0 <= k < i + 1 && nxt[k] == y;
                        assert(pre[k] == y);
                        assert(prev.contains(y));
                        let q = choose|q: int| 0 <= q < prev.len() && prev[q] == y;
                        if q < p {
                            assert(out@[q] == y);
                        } else {
                            assert(out@[q + 1] == y);
                        }
                    }
                    if out@.contains(y) {
                        let q = choose|q: int| 0 <= q < out@.len() && out@[q] == y;
                        if q < p {
                            assert(prev[q] == y);
                        } else {
                            assert(prev[q - 1] == y);
                        }
                        assert(prev.contains(y));
                        assert(pre.contains(y));
                        let k = choose|k: int| 0 <= k < i && pre[k] == y;
                        assert(nxt[k] == y);
                    }
                }
            }
        }
        i = i + 1;
    }
    assert(ids@.take(ids@.len() as int) =~= ids@);
    proof {
        lemma_sorted_ids_unique(out@, sorted_ids(ids@), ids@);
    }
    out
}

/// Entries `id:0` for each id, separated by commas.
pub open spec fn loaded_entries(ids: Seq<u64>) -> Seq<char>
    decreases ids.len(),
{
    if ids.len() == 0 {
        Seq::empty()
    } else if ids.len() == 1 {
        decimal(ids[0] as nat) + ":0"@
    } else {
        loaded_entries(ids.drop_last()) + ","@ + decimal(ids.last() as nat) + ":0"@
    }
}

/// Object literal marking each id as loaded, such as `{1:0,2:0}`.
pub open spec fn loaded_literal(ids: Seq<u64>) -> Seq<char> {
    "{"@ + loaded_entries(ids) + "}"@
}

/// Writes the object literal that marks each listed chunk id as loaded.
pub fn stringify_chunks(ids: &Vec<u64>) -> (r: String)
    ensures
        r@ == loaded_literal(ids@),
{
    let mut s = String::new();
    let mut i: usize = 0;
    while i < ids.len()
        invariant
            i <= ids@.len(),
            s@ == loaded_entries(ids@.take(i as int)),
        decreases ids@.len() - i,
    {
        assert(ids@.take(i + 1).drop_last() =~= ids@.take(i as int));
        if i > 0 {
            s.append(",");
        }
        let d = decimal_string(ids[i]);
        s.append(d.as_str());
        s.append(":0");
        i = i + 1;
    }
    assert(ids@.take(ids@.len() as int) =~= ids@);
    let mut r = String::from_str("{");
    r.append(s.as_str());
    r.append("}");
    r
}

} // verus!
