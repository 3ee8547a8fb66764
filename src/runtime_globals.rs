use vstd::prelude::*;

verus! {

/// The closed catalogue of runtime-support symbols that generated code may need.
#[derive(Clone, Copy, Debug, PartialEq, Eq, Structural)]
pub enum RuntimeGlobal {
    Require,
    Exports,
    Module,
    MakeNamespaceObject,
    AsyncModule,
    BaseUri,
    EnsureChunk,
    EnsureChunkHandlers,
    ExternalInstallChunk,
    OnChunksLoaded,
    HmrDownloadUpdateHandlers,
    HmrRuntimeStatePrefix,
}

/// Number of symbols in the catalogue.
pub const GLOBAL_COUNT: usize = 12;

impl RuntimeGlobal {
    /// Position of the symbol in the catalogue.
    pub open spec fn spec_index(self) -> usize {
        match self {
            RuntimeGlobal::Require => 0,
            RuntimeGlobal::Exports => 1,
            RuntimeGlobal::Module => 2,
            RuntimeGlobal::MakeNamespaceObject => 3,
            RuntimeGlobal::AsyncModule => 4,
            RuntimeGlobal::BaseUri => 5,
            RuntimeGlobal::EnsureChunk => 6,
            RuntimeGlobal::EnsureChunkHandlers => 7,
            RuntimeGlobal::ExternalInstallChunk => 8,
            RuntimeGlobal::OnChunksLoaded => 9,
            RuntimeGlobal::HmrDownloadUpdateHandlers => 10,
            RuntimeGlobal::HmrRuntimeStatePrefix => 11,
        }
    }

    #[verifier::when_used_as_spec(spec_index)]
    pub fn index(self) -> (r: usize)
        ensures
            r == self.spec_index(),
            r < GLOBAL_COUNT,
    {
        match self {
            RuntimeGlobal::Require => 0,
            RuntimeGlobal::Exports => 1,
            RuntimeGlobal::Module => 2,
            RuntimeGlobal::MakeNamespaceObject => 3,
            RuntimeGlobal::AsyncModule => 4,
            RuntimeGlobal::BaseUri => 5,
            RuntimeGlobal::EnsureChunk => 6,
            RuntimeGlobal::EnsureChunkHandlers => 7,
            RuntimeGlobal::ExternalInstallChunk => 8,
            RuntimeGlobal::OnChunksLoaded => 9,
            RuntimeGlobal::HmrDownloadUpdateHandlers => 10,
            RuntimeGlobal::HmrRuntimeStatePrefix => 11,
        }
    }

    /// The symbol at a position of the catalogue.
    pub fn from_index(i: usize) -> (r: RuntimeGlobal)
        requires
            i < GLOBAL_COUNT,
        ensures
            r.spec_index() == i,
    {
        if i == 0 {
            RuntimeGlobal::Require
        } else if i == 1 {
            RuntimeGlobal::Exports
        } else if i == 2 {
            RuntimeGlobal::Module
        } else if i == 3 {
            RuntimeGlobal::MakeNamespaceObject
        } else if i == 4 {
            RuntimeGlobal::AsyncModule
        } else if i == 5 {
            RuntimeGlobal::BaseUri
        } else if i == 6 {
            RuntimeGlobal::EnsureChunk
        } else if i == 7 {
            RuntimeGlobal::EnsureChunkHandlers
        } else if i == 8 {
            RuntimeGlobal::ExternalInstallChunk
        } else if i == 9 {
            RuntimeGlobal::OnChunksLoaded
        } else if i == 10 {
            RuntimeGlobal::HmrDownloadUpdateHandlers
        } else {
            RuntimeGlobal::HmrRuntimeStatePrefix
        }
    }

    /// The stable spelling of the symbol in emitted code.
    pub open spec fn spec_name(self) -> Seq<char> {
        match self {
            RuntimeGlobal::Require => "__webpack_require__"@,
            RuntimeGlobal::Exports => "__webpack_exports__"@,
            RuntimeGlobal::Module => "module"@,
            RuntimeGlobal::MakeNamespaceObject => "__webpack_require__.r"@,
            RuntimeGlobal::AsyncModule => "__webpack_require__.a"@,
            RuntimeGlobal::BaseUri => "__webpack_require__.b"@,
            RuntimeGlobal::EnsureChunk => "__webpack_require__.e"@,
            RuntimeGlobal::EnsureChunkHandlers => "__webpack_require__.f"@,
            RuntimeGlobal::ExternalInstallChunk => "__webpack_require__.C"@,
            RuntimeGlobal::OnChunksLoaded => "__webpack_require__.O"@,
            RuntimeGlobal::HmrDownloadUpdateHandlers => "__webpack_require__.hmrC"@,
            RuntimeGlobal::HmrRuntimeStatePrefix => "__webpack_require__.hmrS"@,
        }
    }

    pub fn name(self) -> (r: &'static str)
        ensures
            r@ == self.spec_name(),
    {
        match self {
            RuntimeGlobal::Require => "__webpack_require__",
            RuntimeGlobal::Exports => "__webpack_exports__",
            RuntimeGlobal::Module => "module",
            RuntimeGlobal::MakeNamespaceObject => "__webpack_require__.r",
            RuntimeGlobal::AsyncModule => "__webpack_require__.a",
            RuntimeGlobal::BaseUri => "__webpack_require__.b",
            RuntimeGlobal::EnsureChunk => "__webpack_require__.e",
            RuntimeGlobal::EnsureChunkHandlers => "__webpack_require__.f",
            RuntimeGlobal::ExternalInstallChunk => "__webpack_require__.C",
            RuntimeGlobal::OnChunksLoaded => "__webpack_require__.O",
            RuntimeGlobal::HmrDownloadUpdateHandlers => "__webpack_require__.hmrC",
            RuntimeGlobal::HmrRuntimeStatePrefix => "__webpack_require__.hmrS",
        }
    }

    /// The implication pairs of the catalogue: requiring `self` also requires
    /// the returned symbol. Implied symbols imply nothing further.
    pub open spec fn spec_implied(self) -> Option<RuntimeGlobal> {
        match self {
            RuntimeGlobal::MakeNamespaceObject => Some(RuntimeGlobal::Exports),
            RuntimeGlobal::AsyncModule => Some(RuntimeGlobal::Module),
            RuntimeGlobal::EnsureChunk => Some(RuntimeGlobal::EnsureChunkHandlers),
            RuntimeGlobal::HmrDownloadUpdateHandlers => Some(RuntimeGlobal::HmrRuntimeStatePrefix),
            _ => None,
        }
    }

    /// The symbol whose requirement implies `self`, if any.
    pub open spec fn implier(self) -> Option<RuntimeGlobal> {
        match self {
            RuntimeGlobal::Exports => Some(RuntimeGlobal::MakeNamespaceObject),
            RuntimeGlobal::Module => Some(RuntimeGlobal::AsyncModule),
            RuntimeGlobal::EnsureChunkHandlers => Some(RuntimeGlobal::EnsureChunk),
            RuntimeGlobal::HmrRuntimeStatePrefix => Some(RuntimeGlobal::HmrDownloadUpdateHandlers),
            _ => None,
        }
    }

    #[verifier::when_used_as_spec(spec_implied)]
    pub fn implied(self) -> (r: Option<RuntimeGlobal>)
        ensures
            r == self.spec_implied(),
    {
        match self {
            RuntimeGlobal::MakeNamespaceObject => Some(RuntimeGlobal::Exports),
            RuntimeGlobal::AsyncModule => Some(RuntimeGlobal::Module),
            RuntimeGlobal::EnsureChunk => Some(RuntimeGlobal::EnsureChunkHandlers),
            RuntimeGlobal::HmrDownloadUpdateHandlers => Some(RuntimeGlobal::HmrRuntimeStatePrefix),
            _ => None,
        }
    }
}

/// A set is closed when it holds every symbol implied by one of its members.
pub open spec fn is_closed(s: Set<RuntimeGlobal>) -> bool {
    forall|a: RuntimeGlobal, b: RuntimeGlobal|
        #![trigger s.contains(a), a.spec_implied(), s.contains(b)]
        s.contains(a) && a.spec_implied() == Some(b) ==> s.contains(b)
}

/// The smallest closed superset of `s`.
pub open spec fn closure(s: Set<RuntimeGlobal>) -> Set<RuntimeGlobal> {
    Set::new(
        |g: RuntimeGlobal|
            s.contains(g) || exists|a: RuntimeGlobal| #[trigger] s.contains(a) && a.spec_implied() == Some(g),
    )
}

proof fn lemma_index_injective(a: RuntimeGlobal, b: RuntimeGlobal)
    ensures
        a.spec_index() == b.spec_index() ==> a == b,
{
}

proof fn lemma_implier(a: RuntimeGlobal, b: RuntimeGlobal)
    ensures
        a.spec_implied() == Some(b) <==> b.implier() == Some(a),
        a.spec_implied() is Some ==> a.implier() is None,
{
}

/// Closing a set yields a closed set that contains the original, and closing
/// again changes nothing.
pub proof fn lemma_closure_is_closed(s: Set<RuntimeGlobal>)
    ensures
        is_closed(closure(s)),
        s.subset_of(closure(s)),
        closure(closure(s)) == closure(s),
{
    assert forall|a: RuntimeGlobal, b: RuntimeGlobal|
        closure(s).contains(a) && a.spec_implied() == Some(b) implies closure(s).contains(b) by {
        lemma_implier(a, b);
        if !s.contains(a) {
            let w = choose|w: RuntimeGlobal| #[trigger] s.contains(w) && w.spec_implied() == Some(a);
            lemma_implier(w, a);
        }
        assert(s.contains(a));
    }
    assert forall|g: RuntimeGlobal| closure(closure(s)).contains(g) implies closure(s).contains(g) by {
        if !closure(s).contains(g) {
            let w = choose|w: RuntimeGlobal| #[trigger] closure(s).contains(w) && w.spec_implied() == Some(g);
            assert(closure(s).contains(g));
        }
    }
    assert(closure(closure(s)) =~= closure(s));
}

/// An accumulating set of runtime requirements, one flag per catalogue symbol.
#[derive(Debug)]
pub struct RuntimeRequirements {
    flags: Vec<bool>,
}

impl View for RuntimeRequirements {
    type V = Set<RuntimeGlobal>;

    open spec fn view(&self) -> Set<RuntimeGlobal> {
        Set::new(|g: RuntimeGlobal| self.flag(g))
    }
}

impl RuntimeRequirements {
    pub closed spec fn flag(&self, g: RuntimeGlobal) -> bool {
        self.flags@[g.spec_index() as int]
    }

    pub closed spec fn wf(&self) -> bool {
        self.flags@.len() == GLOBAL_COUNT
    }

    pub fn new() -> (r: RuntimeRequirements)
        ensures
            r.wf(),
            r@ == Set::<RuntimeGlobal>::empty(),
    {
        let mut flags: Vec<bool> = Vec::new();
        let mut i: usize = 0;
        while i < GLOBAL_COUNT
            invariant
                i <= GLOBAL_COUNT,
                flags@.len() == i,
                forall|k: int| 0 <= k < i ==> !flags@[k],
            decreases GLOBAL_COUNT - i,
        {
            flags.push(false);
            i = i + 1;
        }
        let r = RuntimeRequirements { flags };
        assert(r@ =~= Set::<RuntimeGlobal>::empty());
        r
    }

    pub fn contains(&self, g: RuntimeGlobal) -> (r: bool)
        requires
            self.wf(),
        ensures
            r == self@.contains(g),
    {
        self.flags[g.index()]
    }

    /// Declares a symbol as required; requirements are only ever added.
    pub fn insert(&mut self, g: RuntimeGlobal)
        requires
            old(self).wf(),
        ensures
            final(self).wf(),
            final(self)@ == old(self)@.insert(g),
    {
        let i = g.index();
        self.flags.set(i, true);
        assert(self@ =~= old(self)@.insert(g));
    }

    /// Adds every symbol implied by a declared one.
    pub fn close(&mut self)
        requires
            old(self).wf(),
        ensures
            final(self).wf(),
            final(self)@ == closure(old(self)@),
            is_closed(final(self)@),
    {
        let ghost s = old(self)@;
        let mut i: usize = 0;
        while i < GLOBAL_COUNT
            invariant
                i <= GLOBAL_COUNT,
                self.wf(),
                s == old(self)@,
                forall|g: RuntimeGlobal| #[trigger]
                    self.flag(g) == (s.contains(g) || (g.implier() is Some
                        && g.implier()->Some_0.spec_index() < i && s.contains(g.implier()->Some_0))),
            decreases GLOBAL_COUNT - i,
        {
            let g = RuntimeGlobal::from_index(i);
            let ghost prev = *self;
            if self.flags[i] {
                match g.implied() {
                    Some(b) => {
                        proof {
                            lemma_implier(g, b);
                            lemma_implier(g, g);
                            assert(prev.flag(g));
                            assert(s.contains(g));
                        }
                        self.flags.set(b.index(), true);
                        assert(self.flag(b));
                        assert forall|h: RuntimeGlobal| h != b implies #[trigger] self.flag(h) == prev.flag(h) by {
                            lemma_index_injective(h, b);
                        }
                    },
                    None => {},
                }
            }
            proof {
                assert forall|h: RuntimeGlobal| #[trigger]
                    self.flag(h) == (s.contains(h) || (h.implier() is Some
                        && h.implier()->Some_0.spec_index() < i + 1 && s.contains(h.implier()->Some_0))) by {
                    assert(prev.flag(h) == (s.contains(h) || (h.implier() is Some
                        && h.implier()->Some_0.spec_index() < i && s.contains(h.implier()->Some_0))));
                    lemma_implier(g, h);
                    if h.implier() is Some {
                        lemma_implier(h.implier()->Some_0, h);
                        lemma_index_injective(h.implier()->Some_0, g);
                    }
                    lemma_implier(g, g);
                    assert(g.spec_implied() is Some ==> (prev.flag(g) == s.contains(g)));
                }
            }
            i = i + 1;
        }
        proof {
            assert forall|g: RuntimeGlobal| self@.contains(g) == closure(s).contains(g) by {
                if g.implier() is Some {
                    lemma_implier(g.implier()->Some_0, g);
                }
                if !s.contains(g) && closure(s).contains(g) {
                    let w = choose|w: RuntimeGlobal| #[trigger] s.contains(w) && w.spec_implied() == Some(g);
                    lemma_implier(w, g);
                }
            }
            assert(self@ =~= closure(s));
            lemma_closure_is_closed(s);
        }
    }
}

} // verus!
