use vstd::prelude::*;
use crate::init_fragment::{InitFragment, InitFragmentKey, InitFragmentStage};
use crate::module_graph::{Module, ModuleGraph, UsageState, usage_under};
use crate::runtime_globals::RuntimeGlobal;
use crate::template_context::{DependencyTemplateType, TemplateContext};

verus! {

/// Marks a module as an ES module (`__esModule`) and wraps async modules in
/// an async boundary.
#[derive(Debug, Clone, Copy)]
pub struct ESMCompatibilityDependency;

impl ESMCompatibilityDependency {
    pub fn dependency_template(&self) -> (r: Option<DependencyTemplateType>)
        ensures
            r is Some,
            r->Some_0 matches DependencyTemplateType::Custom(s) && s@ == template_type_name(),
    {
        Some(ESMCompatibilityDependencyTemplate::template_type())
    }
}

pub open spec fn template_type_name() -> Seq<char> {
    "ESMCompatibilityDependency"@
}

/// Renderer of [`ESMCompatibilityDependency`].
#[derive(Debug, Default)]
pub struct ESMCompatibilityDependencyTemplate;

/// The module's `__esModule` export is used under the context's runtime and
/// the module is not inlined into a concatenated scope.
pub open spec fn marks_namespace(graph: &ModuleGraph, ctx: &TemplateContext) -> bool {
    &&& !ctx.concatenation_scope
    &&& usage_under(
        graph.modules@[ctx.module as int].exports_info.entries_of("__esModule"@),
        ctx.runtime,
    ) != UsageState::Unused
}

/// The module is async and not inlined into a concatenated scope.
pub open spec fn wraps_async(graph: &ModuleGraph, ctx: &TemplateContext) -> bool {
    !ctx.concatenation_scope && graph.modules@[ctx.module as int].is_async
}

/// The fragment that marks the module's exports object as an ES module namespace.
pub open spec fn is_namespace_fragment(f: InitFragment, m: Module) -> bool {
    &&& f.content@ == RuntimeGlobal::MakeNamespaceObject.spec_name() + "("@ + m.exports_argument@
        + ");\n"@
    &&& f.stage == InitFragmentStage::StageESMExports
    &&& f.order == 0
    &&& f.key == InitFragmentKey::ESMCompatibility
    &&& f.end_content is None
}

/// Opening text of the async boundary.
pub open spec fn async_open_text(m: Module) -> Seq<char> {
    RuntimeGlobal::AsyncModule.spec_name() + "("@ + m.module_argument@
        + ", async function (__webpack_handle_async_dependencies__, __webpack_async_result__) { try {\n"@
}

/// Closing text of the async boundary; top-level await adds an arity marker.
pub open spec fn async_close_text(m: Module) -> Seq<char> {
    "\n__webpack_async_result__();\n} catch(e) { __webpack_async_result__(e); } }"@ + (if m.has_top_level_await {
        ", 1"@
    } else {
        Seq::empty()
    }) + ");"@
}

/// The matched opening/closing pair of the async boundary.
pub open spec fn is_async_boundary_fragment(f: InitFragment, m: Module, key: u64) -> bool {
    &&& f.content@ == async_open_text(m)
    &&& f.stage == InitFragmentStage::StageAsyncBoundary
    &&& f.order == 0
    &&& f.key == InitFragmentKey::Unique(key)
    &&& f.end_content is Some
    &&& f.end_content->Some_0@ == async_close_text(m)
}

/// The fragment is not the namespace marking.
pub open spec fn is_not_marking_fragment(f: InitFragment) -> bool {
    f.key != InitFragmentKey::ESMCompatibility && f.stage != InitFragmentStage::StageESMExports
}

impl ESMCompatibilityDependencyTemplate {
    pub fn template_type() -> (r: DependencyTemplateType)
        ensures
            r matches DependencyTemplateType::Custom(s) && s@ == template_type_name(),
    {
        DependencyTemplateType::Custom(String::from_str("ESMCompatibilityDependency"))
    }

    /// Emits the namespace marking when `__esModule` is used under the active
    /// runtime, and the async boundary when the module is async; emits nothing
    /// inside a concatenated scope.
    pub fn render(&self, _dep: &ESMCompatibilityDependency, graph: &ModuleGraph, ctx: &mut TemplateContext)
        requires
            old(ctx).runtime_requirements.wf(),
            old(ctx).concatenation_scope || old(ctx).module < graph.modules@.len(),
            wraps_async(graph, old(ctx)) ==> old(ctx).next_unique_key < u64::MAX,
        ensures
            final(ctx).module == old(ctx).module,
            final(ctx).runtime == old(ctx).runtime,
            final(ctx).concatenation_scope == old(ctx).concatenation_scope,
            final(ctx).runtime_requirements.wf(),
            final(ctx).runtime_requirements@ == old(ctx).runtime_requirements@.union(
                if marks_namespace(graph, old(ctx)) {
                    set![RuntimeGlobal::MakeNamespaceObject, RuntimeGlobal::Exports]
                } else {
                    Set::empty()
                },
            ).union(
                if wraps_async(graph, old(ctx)) {
                    set![RuntimeGlobal::Module, RuntimeGlobal::AsyncModule]
                } else {
                    Set::empty()
                },
            ),
            final(ctx).init_fragments@.len() == old(ctx).init_fragments@.len() + (if marks_namespace(
                graph,
                old(ctx),
            ) {
                1int
            } else {
                0int
            }) + (if wraps_async(graph, old(ctx)) {
                1int
            } else {
                0int
            }),
            forall|k: int|
                0 <= k < old(ctx).init_fragments@.len() ==> final(ctx).init_fragments@[k]
                    == old(ctx).init_fragments@[k],
            marks_namespace(graph, old(ctx)) ==> is_namespace_fragment(
                final(ctx).init_fragments@[old(ctx).init_fragments@.len() as int],
                graph.modules@[old(ctx).module as int],
            ),
            wraps_async(graph, old(ctx)) ==> is_async_boundary_fragment(
                final(ctx).init_fragments@.last(),
                graph.modules@[old(ctx).module as int],
                old(ctx).next_unique_key,
            ),
            old(ctx).concatenation_scope ==> final(ctx).runtime_requirements@ == old(ctx).runtime_requirements@,
            old(ctx).concatenation_scope ==> final(ctx).init_fragments@ == old(ctx).init_fragments@,
            !marks_namespace(graph, old(ctx)) ==> final(ctx).runtime_requirements@.contains(RuntimeGlobal::MakeNamespaceObject)
                == old(ctx).runtime_requirements@.contains(RuntimeGlobal::MakeNamespaceObject),
            !marks_namespace(graph, old(ctx)) ==> final(ctx).runtime_requirements@.contains(RuntimeGlobal::Exports)
                == old(ctx).runtime_requirements@.contains(RuntimeGlobal::Exports),
            !marks_namespace(graph, old(ctx)) ==> forall|k: int|
                old(ctx).init_fragments@.len() <= k < final(ctx).init_fragments@.len()
                    ==> is_not_marking_fragment(#[trigger] final(ctx).init_fragments@[k]),
            final(ctx).next_unique_key == old(ctx).next_unique_key + if wraps_async(graph, old(ctx)) {
                1int
            } else {
                0int
            },
    {
        if ctx.concatenation_scope {
            assert(ctx.runtime_requirements@ =~= old(ctx).runtime_requirements@.union(Set::empty()).union(
                Set::empty(),
            ));
            assert(ctx.init_fragments@ =~= old(ctx).init_fragments@);
            return ;
        }
        let module = &graph.modules[ctx.module];
        let name = String::from_str("__esModule");
        let used = module.exports_info.get_read_only_export_info(&name).get_used(ctx.runtime);
        if used != UsageState::Unused {
            ctx.runtime_requirements.insert(RuntimeGlobal::MakeNamespaceObject);
            ctx.runtime_requirements.insert(RuntimeGlobal::Exports);
            let mut content = String::from_str(RuntimeGlobal::MakeNamespaceObject.name());
            content.append("(");
            content.append(module.exports_argument.as_str());
            content.append(");\n");
            ctx.init_fragments.push(
                InitFragment::new(
                    content,
                    InitFragmentStage::StageESMExports,
                    0,
                    InitFragmentKey::ESMCompatibility,
                    None,
                ),
            );
        }
        let ghost mid = ctx.runtime_requirements@;
        if graph.is_async(ctx.module) {
            ctx.runtime_requirements.insert(RuntimeGlobal::Module);
            ctx.runtime_requirements.insert(RuntimeGlobal::AsyncModule);
            let mut content = String::from_str(RuntimeGlobal::AsyncModule.name());
            content.append("(");
            content.append(module.module_argument.as_str());
            content.append(
                ", async function (__webpack_handle_async_dependencies__, __webpack_async_result__) { try {\n",
            );
            let mut end = String::from_str(
                "\n__webpack_async_result__();\n} catch(e) { __webpack_async_result__(e); } }",
            );
            if module.has_top_level_await {
                end.append(", 1");
            }
            end.append(");");
            let key = InitFragmentKey::Unique(ctx.next_unique_key);
            ctx.next_unique_key = ctx.next_unique_key + 1;
            ctx.init_fragments.push(
                InitFragment::new(content, InitFragmentStage::StageAsyncBoundary, 0, key, Some(end)),
            );
        }
        assert(ctx.runtime_requirements@ =~= old(ctx).runtime_requirements@.union(
            if marks_namespace(graph, old(ctx)) {
                set![RuntimeGlobal::MakeNamespaceObject, RuntimeGlobal::Exports]
            } else {
                Set::empty()
            },
        ).union(
            if wraps_async(graph, old(ctx)) {
                set![RuntimeGlobal::Module, RuntimeGlobal::AsyncModule]
            } else {
                Set::empty()
            },
        ));
    }
}

} // verus!
