use vstd::prelude::*;
use crate::init_fragment::InitFragment;
use crate::runtime_globals::RuntimeRequirements;

verus! {

/// How a dependency is matched to its renderer.
#[derive(Debug)]
pub enum DependencyTemplateType {
    Custom(String),
}

/// Per-render mutable state of one module under one runtime.
#[derive(Debug)]
pub struct TemplateContext {
    pub runtime_requirements: RuntimeRequirements,
    pub init_fragments: Vec<InitFragment>,
    /// Identifier of the module being rendered.
    pub module: usize,
    /// Key of the active runtime.
    pub runtime: u64,
    /// Set while the module is inlined into a concatenated scope.
    pub concatenation_scope: bool,
    /// Next value handed out for a fragment without a natural identity.
    pub next_unique_key: u64,
}

impl TemplateContext {
    pub fn new(module: usize, runtime: u64, concatenation_scope: bool) -> (r: TemplateContext)
        ensures
            r.runtime_requirements.wf(),
            r.runtime_requirements@ == Set::<crate::runtime_globals::RuntimeGlobal>::empty(),
            r.init_fragments@.len() == 0,
            r.module == module,
            r.runtime == runtime,
            r.concatenation_scope == concatenation_scope,
            r.next_unique_key == 0,
    {
        TemplateContext {
            runtime_requirements: RuntimeRequirements::new(),
            init_fragments: Vec::new(),
            module,
            runtime,
            concatenation_scope,
            next_unique_key: 0,
        }
    }
}

} // verus!
