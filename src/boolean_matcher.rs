use vstd::prelude::*;
use crate::decimal::{decimal, decimal_string};

verus! {

/// Ids, in map order, of the entries of a condition map whose value is `v`.
pub open spec fn ids_with(m: Seq<(u64, bool)>, v: bool) -> Seq<u64>
    decreases m.len(),
{
    if m.len() == 0 {
        Seq::empty()
    } else {
        let rest = ids_with(m.drop_last(), v);
        if m.last().1 == v {
            rest.push(m.last().0)
        } else {
            rest
        }
    }
}

/// A condition map names each chunk id at most once.
pub open spec fn keys_distinct(m: Seq<(u64, bool)>) -> bool {
    forall|i: int, j: int| 0 <= i < m.len() && 0 <= j < m.len() && i != j ==> m[i].0 != m[j].0
}

/// A compiled test over chunk ids: a constant, or membership in a list of ids,
/// possibly negated.
#[derive(Debug)]
pub enum BooleanMatcher {
    Condition(bool),
    Membership { ids: Vec<u64>, negated: bool },
}

impl BooleanMatcher {
    /// The value the compiled test gives for a chunk id.
    pub open spec fn eval(&self, id: u64) -> bool {
        match self {
            BooleanMatcher::Condition(b) => *b,
            BooleanMatcher::Membership { ids, negated } => ids@.contains(id) != *negated,
        }
    }

    /// The compiled form of a condition map: constant when the map is uniform
    /// (an empty map is constant false), otherwise membership in the smaller
    /// side, the true side on a tie.
    pub open spec fn compiled_from(&self, m: Seq<(u64, bool)>) -> bool {
        let t = ids_with(m, true);
        let f = ids_with(m, false);
        if t.len() == 0 {
            *self == BooleanMatcher::Condition(false)
        } else if f.len() == 0 {
            *self == BooleanMatcher::Condition(true)
        } else {
            match self {
                BooleanMatcher::Condition(_) => false,
                BooleanMatcher::Membership { ids, negated } => if t.len() <= f.len() {
                    ids@ == t && !*negated
                } else {
                    ids@ == f && *negated
                },
            }
        }
    }

    /// Evaluates the compiled test on a chunk id.
    pub fn matches(&self, id: u64) -> (r: bool)
        ensures
            r == self.eval(id),
    {
        match self {
            BooleanMatcher::Condition(b) => *b,
            BooleanMatcher::Membership { ids, negated } => {
                let mut found = false;
                let mut i: usize = 0;
                while i < ids.len()
                    invariant
                        i <= ids@.len(),
                        found == exists|k: int| 0 <= k < i && ids@[k] == id,
                    decreases ids@.len() - i,
                {
                    if ids[i] == id {
                        found = true;
                    }
                    i = i + 1;
                }
                found != *negated
            },
        }
    }

    /// The expression text of the test, over the variable named `var`.
    pub open spec fn rendered(&self, var: Seq<char>) -> Seq<char> {
        match self {
            BooleanMatcher::Condition(b) => if *b {
                "true"@
            } else {
                "false"@
            },
            BooleanMatcher::Membership { ids, negated } => (if *negated {
                "!"@
            } else {
                Seq::empty()
            }) + "/^("@ + joined_ids(ids@) + ")$/.test("@ + var + ")"@,
        }
    }

    /// Renders the test as an expression over the variable named `var`.
    pub fn render(&self, var: &str) -> (r: String)
        ensures
            r@ == self.rendered(var@),
    {
        match self {
            BooleanMatcher::Condition(b) => if *b {
                String::from_str("true")
            } else {
                String::from_str("false")
            },
            BooleanMatcher::Membership { ids, negated } => {
                let mut s = if *negated {
                    String::from_str("!")
                } else {
                    String::new()
                };
                s.append("/^(");
                let alternatives = join_ids(ids);
                s.append(alternatives.as_str());
                s.append(")$/.test(");
                s.append(var);
                s.append(")");
                s
            },
        }
    }
}

/// The ids in decimal, separated by `|`.
pub open spec fn joined_ids(ids: Seq<u64>) -> Seq<char>
    decreases ids.len(),
{
    if ids.len() == 0 {
        Seq::empty()
    } else if ids.len() == 1 {
        decimal(ids[0] as nat)
    } else {
        joined_ids(ids.drop_last()) + "|"@ + decimal(ids.last() as nat)
    }
}

/// Expression text of the matcher compiled from a condition map.
pub open spec fn compiled_text(m: Seq<(u64, bool)>, var: Seq<char>) -> Seq<char> {
    let t = ids_with(m, true);
    let f = ids_with(m, false);
    if t.len() == 0 {
        "false"@
    } else if f.len() == 0 {
        "true"@
    } else if t.len() <= f.len() {
        Seq::<char>::empty() + "/^("@ + joined_ids(t) + ")$/.test("@ + var + ")"@
    } else {
        "!"@ + "/^("@ + joined_ids(f) + ")$/.test("@ + var + ")"@
    }
}

/// The text and constant form of a compiled matcher follow from its map alone.
pub proof fn lemma_compiled_text(m: Seq<(u64, bool)>, r: BooleanMatcher, var: Seq<char>)
    requires
        r.compiled_from(m),
    ensures
        r.rendered(var) == compiled_text(m, var),
        (r == BooleanMatcher::Condition(false)) == (ids_with(m, true).len() == 0),
        (r == BooleanMatcher::Condition(true)) == (ids_with(m, true).len() > 0 && ids_with(m, false).len() == 0),
{
}

fn join_ids(ids: &Vec<u64>) -> (r: String)
    ensures
        r@ == joined_ids(ids@),
{
    let mut s = String::new();
    let mut i: usize = 0;
    while i < ids.len()
        invariant
            i <= ids@.len(),
            s@ == joined_ids(ids@.take(i as int)),
        decreases ids@.len() - i,
    {
        assert(ids@.take(i + 1).drop_last() =~= ids@.take(i as int));
        if i > 0 {
            s.append("|");
        }
        let d = decimal_string(ids[i]);
        s.append(d.as_str());
        i = i + 1;
    }
    assert(ids@.take(ids@.len() as int) =~= ids@);
    s
}

/// Compiles a condition map from chunk id to boolean into a test that gives
/// every listed id its mapped value.
pub fn compile_boolean_matcher(map: &Vec<(u64, bool)>) -> (r: BooleanMatcher)
    ensures
        r.compiled_from(map@),
        keys_distinct(map@) ==> forall|k: int| 0 <= k < map@.len() ==> r.eval(#[trigger] map@[k].0) == map@[k].1,
{
    let mut positive: Vec<u64> = Vec::new();
    let mut negative: Vec<u64> = Vec::new();
    let mut i: usize = 0;
    while i < map.len()
        invariant
            i <= map@.len(),
            positive@ == ids_with(map@.take(i as int), true),
            negative@ == ids_with(map@.take(i as int), false),
        decreases map@.len() - i,
    {
        assert(map@.take(i + 1).drop_last() =~= map@.take(i as int));
        let (id, v) = map[i];
        if v {
            positive.push(id);
        } else {
            negative.push(id);
        }
        i = i + 1;
    }
    assert(map@.take(map@.len() as int) =~= map@);
    let r = if positive.len() == 0 {
        BooleanMatcher::Condition(false)
    } else if negative.len() == 0 {
        BooleanMatcher::Condition(true)
    } else if positive.len() <= negative.len() {
        BooleanMatcher::Membership { ids: positive, negated: false }
    } else {
        BooleanMatcher::Membership { ids: negative, negated: true }
    };
    proof {
        lemma_compiled_matches(map@, r);
    }
    r
}

proof fn lemma_ids_with_contains(m: Seq<(u64, bool)>, v: bool, id: u64)
    requires
        keys_distinct(m),
    ensures
        ids_with(m, v).contains(id) <==> exists|k: int| 0 <= k < m.len() && m[k].0 == id && m[k].1 == v,
        ids_with(m, v).len() == 0 ==> forall|k: int| 0 <= k < m.len() ==> m[k].1 != v,
    decreases m.len(),
{
    if m.len() > 0 {
        let p = m.drop_last();
        assert(keys_distinct(p));
        lemma_ids_with_contains(p, v, id);
        let rest = ids_with(p, v);
        if exists|k: int| 0 <= k < m.len() && m[k].0 == id && m[k].1 == v {
            let k = choose|k: int| 0 <= k < m.len() && m[k].0 == id && m[k].1 == v;
            if k < m.len() - 1 {
                assert(p[k] == m[k]);
                if m.last().1 == v {
                    assert(rest.push(m.last().0).contains(id)) by {
                        let j = choose|j: int| 0 <= j < rest.len() && rest[j] == id;
                        assert(rest.push(m.last().0)[j] == id);
                    }
                }
            } else {
                assert(rest.push(m.last().0)[rest.len() as int] == id);
            }
        }
        if ids_with(m, v).contains(id) {
            if m.last().1 == v && rest.push(m.last().0).contains(id) && !rest.contains(id) {
                let j = choose|j: int| 0 <= j < rest.len() + 1 && rest.push(m.last().0)[j] == id;
                assert(m[m.len() - 1].0 == id);
            } else {
                let k = choose|k: int| 0 <= k < p.len() && p[k].0 == id && p[k].1 == v;
                assert(m[k] == p[k]);
            }
        }
        if ids_with(m, v).len() == 0 {
            assert forall|k: int| 0 <= k < m.len() implies m[k].1 != v by {
                if k < m.len() - 1 {
                    assert(m[k] == p[k]);
                }
            }
        }
    }
}

/// A compiled matcher gives every id of a condition map with distinct keys its
/// mapped value.
pub proof fn lemma_compiled_matches(m: Seq<(u64, bool)>, r: BooleanMatcher)
    requires
        r.compiled_from(m),
    ensures
        keys_distinct(m) ==> forall|k: int| 0 <= k < m.len() ==> r.eval(#[trigger] m[k].0) == m[k].1,
{
    if keys_distinct(m) {
        assert forall|k: int| 0 <= k < m.len() implies r.eval(#[trigger] m[k].0) == m[k].1 by {
            let id = m[k].0;
            lemma_ids_with_contains(m, true, id);
            lemma_ids_with_contains(m, false, id);
            if ids_with(m, true).contains(id) {
                let j = choose|j: int| 0 <= j < m.len() && m[j].0 == id && m[j].1 == true;
                assert(j == k);
            }
            if ids_with(m, false).contains(id) {
                let j = choose|j: int| 0 <= j < m.len() && m[j].0 == id && m[j].1 == false;
                assert(j == k);
            }
        }
    }
}

} // verus!
