use vstd::prelude::*;

verus! {

/// Named substitution points of the runtime-module templates.
#[derive(Clone, Copy, Debug, PartialEq, Eq, Structural)]
pub enum Slot {
    WithOnChunkLoad,
    JsMatcher,
    ImportFunctionName,
    OutputDir,
    MatchFallback,
}

/// A piece of template text: literal text or a placeholder.
#[derive(Clone, Copy, Debug)]
pub enum Segment {
    Text(&'static str),
    Placeholder(Slot),
}

/// The value bound to a slot by the first binding that names it; an unbound
/// slot renders as empty text.
pub open spec fn bound_value(vars: Seq<(Slot, Seq<char>)>, s: Slot) -> Seq<char>
    decreases vars.len(),
{
    if vars.len() == 0 {
        Seq::empty()
    } else if vars[0].0 == s {
        vars[0].1
    } else {
        bound_value(vars.subrange(1, vars.len() as int), s)
    }
}

/// Text of a template with its placeholders substituted.
pub open spec fn filled(segs: Seq<Segment>, vars: Seq<(Slot, Seq<char>)>) -> Seq<char>
    decreases segs.len(),
{
    if segs.len() == 0 {
        Seq::empty()
    } else {
        filled(segs.drop_last(), vars) + match segs.last() {
            Segment::Text(t) => t@,
            Segment::Placeholder(s) => bound_value(vars, s),
        }
    }
}

/// Views of the bindings.
pub open spec fn bindings_view(vars: Seq<(Slot, String)>) -> Seq<(Slot, Seq<char>)> {
    vars.map_values(|p: (Slot, String)| (p.0, p.1@))
}

fn lookup_binding(vars: &Vec<(Slot, String)>, s: Slot) -> (r: &str)
    ensures
        r@ == bound_value(bindings_view(vars@), s),
{
    let ghost b = bindings_view(vars@);
    let mut i: usize = 0;
    assert(b.subrange(0, b.len() as int) =~= b);
    while i < vars.len()
        invariant
            i <= vars@.len(),
            b == bindings_view(vars@),
            b.len() == vars@.len(),
            bound_value(b, s) == bound_value(b.subrange(i as int, b.len() as int), s),
        decreases vars@.len() - i,
    {
        assert(b.subrange(i as int, b.len() as int).subrange(1, b.len() - i) =~= b.subrange(
            i + 1,
            b.len() as int,
        ));
        if vars[i].0 == s {
            return vars[i].1.as_str();
        }
        i = i + 1;
    }
    proof {
        reveal_strlit("");
    }
    ""
}

/// Substitutes the bindings into the template's placeholders.
pub fn render_template(segs: &Vec<Segment>, vars: &Vec<(Slot, String)>) -> (r: String)
    ensures
        r@ == filled(segs@, bindings_view(vars@)),
{
    let mut out = String::new();
    let mut i: usize = 0;
    while i < segs.len()
        invariant
            i <= segs@.len(),
            out@ == filled(segs@.take(i as int), bindings_view(vars@)),
        decreases segs@.len() - i,
    {
        assert(segs@.take(i + 1).drop_last() =~= segs@.take(i as int));
        match segs[i] {
            Segment::Text(t) => out.append(t),
            Segment::Placeholder(s) => {
                let v = lookup_binding(vars, s);
                out.append(v);
            },
        }
        i = i + 1;
    }
    assert(segs@.take(segs@.len() as int) =~= segs@);
    out
}

} // verus!
