use rspack_codegen::boolean_matcher::{compile_boolean_matcher, BooleanMatcher};
use rspack_codegen::chunk_ids::{sort_chunk_ids, stringify_chunks};
use rspack_codegen::decimal::decimal_string;
use rspack_codegen::esm_compatibility_dependency::{
    ESMCompatibilityDependency, ESMCompatibilityDependencyTemplate,
};
use rspack_codegen::init_fragment::{
    merge_order, render_init_fragments, InitFragment, InitFragmentKey, InitFragmentStage,
};
use rspack_codegen::module_chunk_loading::{
    base_uri_assignment, render_chunk_loading, ChunkLoadingError, ChunkLoadingInput,
    ModuleChunkLoadingRuntimeModule, RuntimeModuleStage, TemplateId,
};
use rspack_codegen::module_graph::{ExportInfo, ExportsInfo, Module, ModuleGraph, UsageState};
use rspack_codegen::runtime_globals::{RuntimeGlobal, RuntimeRequirements};
use rspack_codegen::runtime_template::{render_template, Segment, Slot};
use rspack_codegen::template_context::{DependencyTemplateType, TemplateContext};

fn export(name: &str, usage: Vec<(u64, UsageState)>) -> ExportInfo {
    ExportInfo { name: name.to_string(), usage }
}

fn module(es_usage: Vec<(u64, UsageState)>, is_async: bool, tla: bool) -> Module {
    Module {
        exports_argument: "__webpack_exports__".to_string(),
        module_argument: "module".to_string(),
        is_async,
        has_top_level_await: tla,
        exports_info: ExportsInfo {
            exports: vec![export("default", vec![(1, UsageState::Used)]), export("__esModule", es_usage)],
            other: export("", vec![]),
        },
    }
}

fn render(m: Module, runtime: u64, concatenated: bool) -> TemplateContext {
    let graph = ModuleGraph { modules: vec![m] };
    let mut ctx = TemplateContext::new(0, runtime, concatenated);
    ESMCompatibilityDependencyTemplate.render(&ESMCompatibilityDependency, &graph, &mut ctx);
    ctx
}

fn requirements(globals: &[RuntimeGlobal]) -> RuntimeRequirements {
    let mut r = RuntimeRequirements::new();
    for g in globals {
        r.insert(*g);
    }
    r
}

fn input(globals: &[RuntimeGlobal], map: Vec<(u64, bool)>, initial: Vec<u64>) -> ChunkLoadingInput {
    ChunkLoadingInput {
        runtime_requirements: requirements(globals),
        condition_map: map,
        initial_chunks: initial,
        root_output_dir: "../".to_string(),
        base_uri: None,
        import_meta_name: "import.meta".to_string(),
        import_function_name: "import".to_string(),
    }
}

fn attached() -> ModuleChunkLoadingRuntimeModule {
    let mut m = ModuleChunkLoadingRuntimeModule::default();
    m.attach(7);
    m
}

fn fragment(content: &str, stage: InitFragmentStage, order: i32, key: InitFragmentKey, end: Option<&str>) -> InitFragment {
    InitFragment::new(content.to_string(), stage, order, key, end.map(|e| e.to_string()))
}

// ES-module compatibility renderer

#[test]
fn unused_es_module_export_emits_nothing() {
    let ctx = render(module(vec![(1, UsageState::Unused), (2, UsageState::Unused)], false, false), 1, false);
    assert!(ctx.init_fragments.is_empty());
    assert!(!ctx.runtime_requirements.contains(RuntimeGlobal::MakeNamespaceObject));
    assert!(!ctx.runtime_requirements.contains(RuntimeGlobal::Exports));
}

#[test]
fn export_absent_for_runtime_counts_as_unused() {
    let ctx = render(module(vec![(2, UsageState::Used)], false, false), 1, false);
    assert!(ctx.init_fragments.is_empty());
    assert!(!ctx.runtime_requirements.contains(RuntimeGlobal::MakeNamespaceObject));
}

#[test]
fn used_es_module_export_marks_namespace() {
    let ctx = render(module(vec![(1, UsageState::Unused), (2, UsageState::Used)], false, false), 2, false);
    assert_eq!(ctx.init_fragments.len(), 1);
    let f = &ctx.init_fragments[0];
    assert_eq!(f.content, "__webpack_require__.r(__webpack_exports__);\n");
    assert_eq!(f.stage, InitFragmentStage::StageESMExports);
    assert_eq!(f.order, 0);
    assert_eq!(f.key, InitFragmentKey::ESMCompatibility);
    assert!(f.end_content.is_none());
    assert!(ctx.runtime_requirements.contains(RuntimeGlobal::MakeNamespaceObject));
    assert!(ctx.runtime_requirements.contains(RuntimeGlobal::Exports));
    assert!(!ctx.runtime_requirements.contains(RuntimeGlobal::AsyncModule));
}

#[test]
fn usage_is_looked_up_under_the_active_runtime() {
    let used = render(module(vec![(1, UsageState::OnlyPropertiesUsed)], false, false), 1, false);
    let other = render(module(vec![(1, UsageState::OnlyPropertiesUsed)], false, false), 3, false);
    assert_eq!(used.init_fragments.len(), 1);
    assert_eq!(other.init_fragments.len(), 0);
}

#[test]
fn unlisted_export_falls_back_to_other_exports() {
    let mut m = module(vec![], false, false);
    m.exports_info.exports.truncate(1);
    m.exports_info.other = export("", vec![(1, UsageState::Unknown)]);
    let ctx = render(m, 1, false);
    assert_eq!(ctx.init_fragments.len(), 1);
}

#[test]
fn async_module_gets_one_boundary_pair() {
    let ctx = render(module(vec![(1, UsageState::Unused)], true, false), 1, false);
    assert_eq!(ctx.init_fragments.len(), 1);
    let f = &ctx.init_fragments[0];
    assert_eq!(
        f.content,
        "__webpack_require__.a(module, async function (__webpack_handle_async_dependencies__, __webpack_async_result__) { try {\n"
    );
    assert_eq!(
        f.end_content.as_deref(),
        Some("\n__webpack_async_result__();\n} catch(e) { __webpack_async_result__(e); } });")
    );
    assert_eq!(f.stage, InitFragmentStage::StageAsyncBoundary);
    assert_eq!(f.key, InitFragmentKey::Unique(0));
    assert_eq!(ctx.next_unique_key, 1);
    assert!(ctx.runtime_requirements.contains(RuntimeGlobal::Module));
    assert!(ctx.runtime_requirements.contains(RuntimeGlobal::AsyncModule));
}

#[test]
fn top_level_await_adds_arity_marker() {
    let with = render(module(vec![(1, UsageState::Used)], true, true), 1, false);
    let without = render(module(vec![(1, UsageState::Used)], true, false), 1, false);
    assert_eq!(with.init_fragments.len(), 2);
    assert_eq!(without.init_fragments.len(), 2);
    let end_with = with.init_fragments[1].end_content.clone().unwrap();
    let end_without = without.init_fragments[1].end_content.clone().unwrap();
    assert!(end_with.ends_with("} }, 1);"));
    assert!(end_without.ends_with("} });"));
    assert!(!end_without.contains(", 1"));
    assert_eq!(with.init_fragments[1].content, without.init_fragments[1].content);
}

#[test]
fn concatenation_scope_suppresses_everything() {
    let ctx = render(module(vec![(1, UsageState::Used)], true, true), 1, true);
    assert!(ctx.init_fragments.is_empty());
    assert!(!ctx.runtime_requirements.contains(RuntimeGlobal::MakeNamespaceObject));
    assert!(!ctx.runtime_requirements.contains(RuntimeGlobal::AsyncModule));
    assert_eq!(ctx.next_unique_key, 0);
}

#[test]
fn template_type_is_custom() {
    let DependencyTemplateType::Custom(name) = ESMCompatibilityDependencyTemplate::template_type();
    assert_eq!(name, "ESMCompatibilityDependency");
    let DependencyTemplateType::Custom(from_dep) = ESMCompatibilityDependency.dependency_template().unwrap();
    assert_eq!(from_dep, "ESMCompatibilityDependency");
}

// Runtime requirements

#[test]
fn close_adds_implied_globals() {
    let mut r = requirements(&[RuntimeGlobal::MakeNamespaceObject, RuntimeGlobal::EnsureChunk]);
    r.close();
    assert!(r.contains(RuntimeGlobal::Exports));
    assert!(r.contains(RuntimeGlobal::EnsureChunkHandlers));
    assert!(!r.contains(RuntimeGlobal::Module));
    assert!(!r.contains(RuntimeGlobal::HmrRuntimeStatePrefix));
    r.close();
    assert!(r.contains(RuntimeGlobal::MakeNamespaceObject));
}

#[test]
fn global_spellings() {
    assert_eq!(RuntimeGlobal::MakeNamespaceObject.name(), "__webpack_require__.r");
    assert_eq!(RuntimeGlobal::AsyncModule.name(), "__webpack_require__.a");
    assert_eq!(RuntimeGlobal::EnsureChunkHandlers.name(), "__webpack_require__.f");
    assert_eq!(RuntimeGlobal::OnChunksLoaded.name(), "__webpack_require__.O");
    assert_eq!(RuntimeGlobal::from_index(RuntimeGlobal::BaseUri.index()), RuntimeGlobal::BaseUri);
}

// Boolean matcher

#[test]
fn uniform_maps_compile_to_constants() {
    assert!(matches!(compile_boolean_matcher(&vec![(1, true), (2, true)]), BooleanMatcher::Condition(true)));
    assert!(matches!(compile_boolean_matcher(&vec![(1, false), (2, false)]), BooleanMatcher::Condition(false)));
    assert!(matches!(compile_boolean_matcher(&vec![]), BooleanMatcher::Condition(false)));
    assert_eq!(compile_boolean_matcher(&vec![(4, true)]).render("chunkId"), "true");
    assert_eq!(compile_boolean_matcher(&vec![(4, false)]).render("chunkId"), "false");
}

#[test]
fn mixed_map_matches_every_listed_id() {
    let map = vec![(1, true), (2, false), (3, true), (10, false), (11, false)];
    let m = compile_boolean_matcher(&map);
    for (id, v) in &map {
        assert_eq!(m.matches(*id), *v);
    }
    assert_eq!(m.render("chunkId"), "/^(1|3)$/.test(chunkId)");
}

#[test]
fn mixed_map_tests_the_smaller_side() {
    let map = vec![(1, true), (2, false), (3, true)];
    let m = compile_boolean_matcher(&map);
    assert_eq!(m.render("id"), "!/^(2)$/.test(id)");
    assert!(m.matches(1));
    assert!(!m.matches(2));
    assert!(m.matches(3));
    let tie = compile_boolean_matcher(&vec![(5, false), (6, true)]);
    assert_eq!(tie.render("x"), "/^(6)$/.test(x)");
}

// Init fragments

#[test]
fn fragments_merge_by_stage_then_order_then_insertion() {
    let frags = vec![
        fragment("c", InitFragmentStage::StageESMImports, 0, InitFragmentKey::Unique(1), None),
        fragment("a", InitFragmentStage::StageConstants, 5, InitFragmentKey::Unique(2), None),
        fragment("b1", InitFragmentStage::StageESMExports, 0, InitFragmentKey::Unique(3), None),
        fragment("a0", InitFragmentStage::StageConstants, -1, InitFragmentKey::Unique(4), None),
        fragment("b2", InitFragmentStage::StageESMExports, 0, InitFragmentKey::Unique(5), None),
    ];
    assert_eq!(merge_order(&frags), vec![3, 1, 2, 4, 0]);
    assert_eq!(render_init_fragments(&frags, "|"), "a0ab1b2c|");
}

#[test]
fn equal_stage_and_order_keep_insertion_order() {
    let make = |names: [&str; 3]| {
        names
            .iter()
            .enumerate()
            .map(|(i, n)| fragment(n, InitFragmentStage::StageProvides, 2, InitFragmentKey::Unique(i as u64), None))
            .collect::<Vec<_>>()
    };
    assert_eq!(render_init_fragments(&make(["x", "y", "z"]), ""), "xyz");
    assert_eq!(render_init_fragments(&make(["z", "x", "y"]), ""), "zxy");
}

#[test]
fn closing_texts_nest_around_body() {
    let frags = vec![
        fragment("<inner>", InitFragmentStage::StageESMExports, 0, InitFragmentKey::Unique(1), Some("</inner>")),
        fragment("<outer>", InitFragmentStage::StageAsyncBoundary, 0, InitFragmentKey::Unique(2), Some("</outer>")),
    ];
    assert_eq!(render_init_fragments(&frags, "body"), "<outer><inner>body</inner></outer>");
}

#[test]
fn first_fragment_of_a_key_wins() {
    let frags = vec![
        fragment("late", InitFragmentStage::StageESMExports, 1, InitFragmentKey::ESMCompatibility, None),
        fragment("early", InitFragmentStage::StageESMExports, 0, InitFragmentKey::ESMCompatibility, None),
    ];
    assert_eq!(render_init_fragments(&frags, "!"), "early!");
    assert_eq!(render_init_fragments(&vec![], "only"), "only");
}

// Templates, ids and numbers

#[test]
fn unbound_placeholder_renders_empty() {
    let segs = vec![Segment::Text("a"), Segment::Placeholder(Slot::OutputDir), Segment::Placeholder(Slot::JsMatcher), Segment::Text("b")];
    let vars = vec![(Slot::JsMatcher, "M".to_string()), (Slot::JsMatcher, "N".to_string())];
    assert_eq!(render_template(&segs, &vars), "aMb");
}

#[test]
fn decimal_and_ids() {
    assert_eq!(decimal_string(0), "0");
    assert_eq!(decimal_string(907), "907");
    assert_eq!(decimal_string(u64::MAX), "18446744073709551615");
    assert_eq!(sort_chunk_ids(&vec![3, 1, 3, 2, 1]), vec![1, 2, 3]);
    assert_eq!(stringify_chunks(&vec![]), "{}");
    assert_eq!(stringify_chunks(&vec![1, 22]), "{1:0,22:0}");
}

// Chunk-loading runtime module

#[test]
fn installed_state_for_initial_chunks_without_loading() {
    let src = attached().generate(&input(&[], vec![(1, true), (2, true)], vec![2, 1])).unwrap();
    assert!(src.contains("var installedChunks = {1:0,2:0};"));
    assert!(!src.contains("__webpack_require__.f.j"));
    assert!(!src.contains("installChunk"));
}

#[test]
fn loading_routes_script_chunks_through_loader() {
    let map = vec![(1, true), (2, false), (3, true)];
    let src = attached()
        .generate(&input(&[RuntimeGlobal::EnsureChunkHandlers], map.clone(), vec![1]))
        .unwrap();
    assert!(src.contains("__webpack_require__.f.j = function (chunkId, promises) {"));
    assert!(src.contains("if (!/^(2)$/.test(chunkId)) {"));
    assert!(src.contains("} else installedChunks[chunkId] = 0;\n"));
    assert!(src.contains("var promise = import(\"../\" + __webpack_require__.u(chunkId))"));
    assert!(src.contains("var installChunk = function (data) {"));
    let m = compile_boolean_matcher(&map);
    assert!(!m.matches(2));
    assert!(m.matches(1) && m.matches(3));
}

#[test]
fn loading_without_script_chunks_is_a_stub() {
    let src = attached()
        .generate(&input(&[RuntimeGlobal::EnsureChunkHandlers], vec![(1, false)], vec![]))
        .unwrap();
    assert!(src.contains(".j = function (chunkId, promises) {\ninstalledChunks[chunkId] = 0;\n}"));
    assert!(!src.contains("import("));
}

#[test]
fn loading_with_only_script_chunks_has_no_fallback() {
    let src = attached()
        .generate(&input(&[RuntimeGlobal::EnsureChunkHandlers], vec![(1, true), (2, true)], vec![]))
        .unwrap();
    assert!(src.contains("if (true) {"));
    assert!(!src.contains("else installedChunks[chunkId] = 0;"));
}

#[test]
fn optional_sections_follow_requirements() {
    let src = attached()
        .generate(&input(
            &[RuntimeGlobal::ExternalInstallChunk, RuntimeGlobal::OnChunksLoaded, RuntimeGlobal::HmrDownloadUpdateHandlers],
            vec![(1, true)],
            vec![1],
        ))
        .unwrap();
    assert!(src.contains("__webpack_require__.C = installChunk;"));
    assert!(src.contains("__webpack_require__.O.j = function(chunkId) {"));
    assert!(src.contains("__webpack_require__.O();"));
    assert!(src.contains(
        "var installedChunks = __webpack_require__.hmrS_module = __webpack_require__.hmrS_module || {1:0};"
    ));
    assert!(!src.contains("__webpack_require__.f.j"));
}

#[test]
fn base_uri_from_entry_option_or_output_dir() {
    let mut i = input(&[RuntimeGlobal::BaseUri], vec![], vec![]);
    let derived = attached().generate(&i).unwrap();
    assert!(derived.starts_with("__webpack_require__.b = new URL(\"../\", import.meta.url);;\n"));
    i.base_uri = Some("https://cdn/\"x\"/".to_string());
    let literal = attached().generate(&i).unwrap();
    assert!(literal.starts_with("__webpack_require__.b = \"https://cdn/\\\"x\\\"/\";\n"));
    assert_eq!(base_uri_assignment("v"), "__webpack_require__.b = v;\n");
}

#[test]
fn output_dir_is_escaped_as_a_literal() {
    let mut i = input(&[RuntimeGlobal::EnsureChunkHandlers], vec![(1, true), (2, false)], vec![]);
    i.root_output_dir = "a\"b\\".to_string();
    let src = attached().generate(&i).unwrap();
    assert!(src.contains("import(\"a\\\"b\\\\\" + __webpack_require__.u(chunkId))"));
    let direct = render_chunk_loading(&i, "", "DIR");
    assert!(direct.contains("import(DIR + __webpack_require__.u(chunkId))"));
}

#[test]
fn detached_module_fails() {
    let r = ModuleChunkLoadingRuntimeModule::default().generate(&input(&[], vec![], vec![]));
    assert_eq!(r, Err(ChunkLoadingError::NotAttached));
}

#[test]
fn runtime_module_identity() {
    let m = attached();
    assert_eq!(m.name(), "webpack/runtime/module_chunk_loading");
    assert_eq!(m.template(TemplateId::Raw), "webpack/runtime/module_chunk_loading");
    assert_eq!(m.template(TemplateId::WithLoading), "webpack/runtime/module_chunk_loading_with_loading");
    assert_eq!(m.stage(), RuntimeModuleStage::Attach);
    let t = m.templates();
    assert_eq!(t.len(), 2);
    assert_eq!(t[1].0, "webpack/runtime/module_chunk_loading_with_loading");
}

#[test]
fn control_and_non_ascii_characters_in_literals() {
    let mut i = input(&[RuntimeGlobal::BaseUri], vec![], vec![]);
    i.base_uri = Some("é\u{1}\t\u{1f}/".to_string());
    let src = attached().generate(&i).unwrap();
    assert!(src.starts_with("__webpack_require__.b = \"é\\u0001\\t\\u001f/\";\n"));
}

#[test]
fn concatenated_render_does_not_read_the_graph() {
    let graph = ModuleGraph { modules: vec![] };
    let mut ctx = TemplateContext::new(5, 1, true);
    ESMCompatibilityDependencyTemplate.render(&ESMCompatibilityDependency, &graph, &mut ctx);
    assert!(ctx.init_fragments.is_empty());
    assert!(!ctx.runtime_requirements.contains(RuntimeGlobal::Exports));
}
