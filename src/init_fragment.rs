use vstd::prelude::*;

verus! {

/// Coarse ordering buckets for fragments around a module body, in emission order.
#[derive(Clone, Copy, Debug, PartialEq, Eq, Structural)]
pub enum InitFragmentStage {
    StageConstants,
    StageAsyncBoundary,
    StageESMExports,
    StageESMImports,
    StageProvides,
    StageAsyncDependencies,
    StageAsyncESMImports,
}

impl InitFragmentStage {
    pub open spec fn spec_rank(self) -> u8 {
        match self {
            InitFragmentStage::StageConstants => 0,
            InitFragmentStage::StageAsyncBoundary => 1,
            InitFragmentStage::StageESMExports => 2,
            InitFragmentStage::StageESMImports => 3,
            InitFragmentStage::StageProvides => 4,
            InitFragmentStage::StageAsyncDependencies => 5,
            InitFragmentStage::StageAsyncESMImports => 6,
        }
    }

    #[verifier::when_used_as_spec(spec_rank)]
    pub fn rank(self) -> (r: u8)
        ensures
            r == self.spec_rank(),
    {
        match self {
            InitFragmentStage::StageConstants => 0,
            InitFragmentStage::StageAsyncBoundary => 1,
            InitFragmentStage::StageESMExports => 2,
            InitFragmentStage::StageESMImports => 3,
            InitFragmentStage::StageProvides => 4,
            InitFragmentStage::StageAsyncDependencies => 5,
            InitFragmentStage::StageAsyncESMImports => 6,
        }
    }
}

/// Dedupe identity of a fragment; `Unique` keys are handed out once per request.
#[derive(Clone, Copy, Debug, PartialEq, Eq, Structural)]
pub enum InitFragmentKey {
    ESMCompatibility,
    Unique(u64),
}

/// A snippet of generated code placed around a module body, with optional
/// closing text.
#[derive(Debug)]
pub struct InitFragment {
    pub content: String,
    pub stage: InitFragmentStage,
    pub order: i32,
    pub key: InitFragmentKey,
    pub end_content: Option<String>,
}

impl InitFragment {
    pub fn new(
        content: String,
        stage: InitFragmentStage,
        order: i32,
        key: InitFragmentKey,
        end_content: Option<String>,
    ) -> (r: InitFragment)
        ensures
            r.content == content,
            r.stage == stage,
            r.order == order,
            r.key == key,
            r.end_content == end_content,
    {
        InitFragment { content, stage, order, key, end_content }
    }
}

/// Fragment `a` precedes fragment `b`: by stage, then order, then insertion position.
pub open spec fn precedes(f: Seq<InitFragment>, a: int, b: int) -> bool {
    let fa = f[a];
    let fb = f[b];
    fa.stage.spec_rank() < fb.stage.spec_rank() || (fa.stage.spec_rank() == fb.stage.spec_rank()
        && fa.order < fb.order) || (fa.stage.spec_rank() == fb.stage.spec_rank() && fa.order
        == fb.order && a < b)
}

/// `o` lists every fragment position exactly once, stably sorted by (stage, order).
pub open spec fn is_merge_order(f: Seq<InitFragment>, o: Seq<usize>) -> bool {
    &&& o.len() == f.len()
    &&& forall|k: int| 0 <= k < o.len() ==> #[trigger] o[k] < f.len()
    &&& forall|i: usize| i < f.len() ==> #[trigger] o.contains(i)
    &&& forall|a: int, b: int|
        0 <= a < b < o.len() ==> precedes(f, #[trigger] o[a] as int, #[trigger] o[b] as int)
}

/// Fragments with equal (stage, order) keep their insertion order in a merge order.
pub proof fn lemma_merge_is_stable(f: Seq<InitFragment>, o: Seq<usize>, a: int, b: int)
    requires
        is_merge_order(f, o),
        0 <= a < b < o.len(),
        f[o[a] as int].stage == f[o[b] as int].stage,
        f[o[a] as int].order == f[o[b] as int].order,
    ensures
        o[a] < o[b],
{
    assert(precedes(f, o[a] as int, o[b] as int));
}

proof fn lemma_merge_prefix_agree(f: Seq<InitFragment>, o1: Seq<usize>, o2: Seq<usize>, k: int)
    requires
        is_merge_order(f, o1),
        is_merge_order(f, o2),
        0 <= k <= o1.len(),
    ensures
        forall|j: int| 0 <= j < k ==> o1[j] == o2[j],
    decreases k,
{
    if k > 0 {
        lemma_merge_prefix_agree(f, o1, o2, k - 1);
        let j = k - 1;
        let a = o1[j];
        let b = o2[j];
        if a != b {
            assert(o1[j] < o1.len());
            assert(o2[j] < o1.len());
            assert(o2.contains(a));
            let p = choose|p: int| 0 <= p < o2.len() && o2[p] == a;
            if p < j {
                assert(o1[p] == a);
                assert(precedes(f, o1[p] as int, o1[j] as int));
            }
            assert(p > j);
            assert(precedes(f, b as int, a as int));
            assert(o1.contains(b));
            let q = choose|q: int| 0 <= q < o1.len() && o1[q] == b;
            if q < j {
                assert(o2[q] == b);
                assert(precedes(f, o2[q] as int, o2[j] as int));
            }
            assert(q > j);
            assert(precedes(f, a as int, b as int));
        }
    }
}

/// There is at most one merge order of a fragment list.
pub proof fn lemma_merge_order_unique(f: Seq<InitFragment>, o1: Seq<usize>, o2: Seq<usize>)
    requires
        is_merge_order(f, o1),
        is_merge_order(f, o2),
    ensures
        o1 == o2,
{
    lemma_merge_prefix_agree(f, o1, o2, o1.len() as int);
    assert(o1 =~= o2);
}

/// Computes the merge order of a fragment list: a stable sort by (stage, order).
pub fn merge_order(fragments: &Vec<InitFragment>) -> (r: Vec<usize>)
    ensures
        is_merge_order(fragments@, r@),
{
    let ghost f = fragments@;
    let mut out: Vec<usize> = Vec::new();
    let mut i: usize = 0;
    while i < fragments.len()
        invariant
            i <= f.len(),
            f == fragments@,
            out@.len() == i,
            forall|k: int| 0 <= k < out@.len() ==> #[trigger] out@[k] < i,
            forall|x: usize| x < i ==> #[trigger] out@.contains(x),
            forall|a: int, b: int|
                0 <= a < b < out@.len() ==> precedes(f, #[trigger] out@[a] as int, #[trigger] out@[b] as int),
        decreases f.len() - i,
    {
        let rank = fragments[i].stage.rank();
        let order = fragments[i].order;
        let mut p: usize = 0;
        let mut scanning = true;
        while scanning
            invariant
                p <= out@.len(),
                forall|k: int| 0 <= k < p ==> precedes(f, #[trigger] out@[k] as int, i as int),
                !scanning ==> (p < out@.len() ==> !precedes(f, out@[p as int] as int, i as int)),
                forall|k: int| 0 <= k < out@.len() ==> #[trigger] out@[k] < i,
                i < f.len(),
                f == fragments@,
                rank == f[i as int].stage.spec_rank(),
                order == f[i as int].order,
            decreases out@.len() - p + if scanning { 1int } else { 0int },
        {
            if p < out.len() {
                let c = &fragments[out[p]];
                let cr = c.stage.rank();
                if cr < rank || (cr == rank && c.order <= order) {
                    p = p + 1;
                } else {
                    scanning = false;
                }
            } else {
                scanning = false;
            }
        }
        let ghost prev = out@;
        assert(p < prev.len() ==> precedes(f, i as int, prev[p as int] as int));
        out.insert(p, i);
        assert forall|a: int, b: int|
            0 <= a < b < out@.len() implies precedes(f, #[trigger] out@[a] as int, #[trigger] out@[b] as int) by {
            if b < p {
            } else if b == p {
            } else if a < p {
                assert(out@[b] == prev[b - 1]);
                assert(precedes(f, prev[a] as int, i as int));
                if p < prev.len() {
                    assert(p <= b - 1);
                    if p < b - 1 {
                        assert(precedes(f, prev[p as int] as int, prev[b - 1] as int));
                    }
                }
            } else if a == p {
                assert(out@[b] == prev[b - 1]);
                if p < b - 1 {
                    assert(precedes(f, prev[p as int] as int, prev[b - 1] as int));
                }
            } else {
                assert(out@[a] == prev[a - 1]);
                assert(out@[b] == prev[b - 1]);
            }
        }
        assert forall|x: usize| x < i + 1 implies #[trigger] out@.contains(x) by {
            if x == i {
                assert(out@[p as int] == i);
            } else {
                assert(prev.contains(x));
                let k = choose|k: int| 0 <= k < prev.len() && prev[k] == x;
                if k < p {
                    assert(out@[k] == x);
                } else {
                    assert(out@[k + 1] == x);
                }
            }
        }
        i = i + 1;
    }
    out
}

/// The fragment at merge position `k` is the first of its key in merge order.
pub open spec fn kept(f: Seq<InitFragment>, o: Seq<usize>, k: int) -> bool {
    forall|j: int| 0 <= j < k ==> f[o[j] as int].key != f[o[k] as int].key
}

/// Opening texts of the kept fragments among the first `n` merge positions, in order.
pub open spec fn opened(f: Seq<InitFragment>, o: Seq<usize>, n: int) -> Seq<char>
    decreases n,
{
    if n <= 0 {
        Seq::empty()
    } else {
        opened(f, o, n - 1) + if kept(f, o, n - 1) {
            f[o[n - 1] as int].content@
        } else {
            Seq::empty()
        }
    }
}

/// Closing texts of the kept fragments among the first `n` merge positions, in
/// reverse order, so that each pair nests around the body.
pub open spec fn closed(f: Seq<InitFragment>, o: Seq<usize>, n: int) -> Seq<char>
    decreases n,
{
    if n <= 0 {
        Seq::empty()
    } else {
        (if kept(f, o, n - 1) && f[o[n - 1] as int].end_content is Some {
            f[o[n - 1] as int].end_content->Some_0@
        } else {
            Seq::empty()
        }) + closed(f, o, n - 1)
    }
}

/// The module body with the fragments placed around it, by the merge order `o`.
pub open spec fn wrapped(f: Seq<InitFragment>, o: Seq<usize>, body: Seq<char>) -> Seq<char> {
    opened(f, o, o.len() as int) + body + closed(f, o, o.len() as int)
}

/// The module body with the fragments placed around it, by their merge order.
pub open spec fn assembled(f: Seq<InitFragment>, body: Seq<char>) -> Seq<char> {
    wrapped(f, choose|o: Seq<usize>| is_merge_order(f, o), body)
}

/// Places the fragments around a module body: opening texts in merge order,
/// then the body, then closing texts in reverse; of fragments sharing a key,
/// only the first in merge order is emitted.
pub fn render_init_fragments(fragments: &Vec<InitFragment>, body: &str) -> (r: String)
    ensures
        r@ == assembled(fragments@, body@),
        forall|o: Seq<usize>| is_merge_order(fragments@, o) ==> r@ == wrapped(fragments@, o, body@),
{
    let ghost f = fragments@;
    let order = merge_order(fragments);
    let mut head = String::new();
    let mut tail = String::new();
    let mut k: usize = 0;
    while k < order.len()
        invariant
            f == fragments@,
            is_merge_order(f, order@),
            k <= order@.len(),
            head@ == opened(f, order@, k as int),
            tail@ == closed(f, order@, k as int),
        decreases order@.len() - k,
    {
        let cur = &fragments[order[k]];
        let mut first = true;
        let mut j: usize = 0;
        while j < k
            invariant
                j <= k,
                k < order@.len(),
                f == fragments@,
                is_merge_order(f, order@),
                cur == f[order@[k as int] as int],
                first == forall|x: int| 0 <= x < j ==> f[order@[x] as int].key != cur.key,
            decreases k - j,
        {
            if fragments[order[j]].key == cur.key {
                first = false;
            }
            j = j + 1;
        }
        if first {
            head.append(cur.content.as_str());
            match &cur.end_content {
                Some(end) => {
                    let e = end.clone();
                    tail = e.concat(tail.as_str());
                },
                None => {},
            }
        }
        k = k + 1;
    }
    let mut r = head;
    r.append(body);
    r.append(tail.as_str());
    proof {
        let c = choose|o: Seq<usize>| is_merge_order(f, o);
        lemma_merge_order_unique(f, order@, c);
        assert forall|o: Seq<usize>| is_merge_order(f, o) implies r@ == wrapped(f, o, body@) by {
            lemma_merge_order_unique(f, order@, o);
        }
    }
    r
}

} // verus!
