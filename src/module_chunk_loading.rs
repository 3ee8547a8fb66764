use vstd::prelude::*;
use crate::boolean_matcher::{compile_boolean_matcher, compiled_text, ids_with, lemma_compiled_text, BooleanMatcher};
use crate::chunk_ids::{loaded_literal, sort_chunk_ids, sorted_ids, stringify_chunks};
use crate::json::{json_string_literal, to_json_string};
use crate::runtime_globals::{RuntimeGlobal, RuntimeRequirements};
use crate::runtime_template::{bindings_view, filled, render_template, Segment, Slot};

verus! {

/// When a runtime module is attached relative to the others.
#[derive(Clone, Copy, Debug, PartialEq, Eq, Structural)]
pub enum RuntimeModuleStage {
    Normal,
    Attach,
    Trigger,
}

/// The two templates of the chunk-loading runtime module.
#[derive(Clone, Copy, Debug, PartialEq, Eq, Structural)]
pub enum TemplateId {
    Raw,
    WithLoading,
}

/// Failures of chunk-loading synthesis; each is fatal for the chunk.
#[derive(Clone, Copy, Debug, PartialEq, Eq, Structural)]
pub enum ChunkLoadingError {
    /// The runtime module was never attached to a chunk.
    NotAttached,
    /// The chunk's entry-option base URI has no JSON string literal.
    BaseUriNotSerializable,
    /// The output directory has no JSON string literal.
    OutputDirNotSerializable,
}

/// What chunk-loading synthesis reads about the attached chunk and the build.
#[derive(Debug)]
pub struct ChunkLoadingInput {
    /// The chunk's closed runtime-requirement set.
    pub runtime_requirements: RuntimeRequirements,
    /// For each chunk id, whether the chunk holds executable script.
    pub condition_map: Vec<(u64, bool)>,
    /// Ids of the initial chunks that hold executable script.
    pub initial_chunks: Vec<u64>,
    /// Output directory, relative to the chunk.
    pub root_output_dir: String,
    /// Base URI given in the chunk's entry options.
    pub base_uri: Option<String>,
    pub import_meta_name: String,
    pub import_function_name: String,
}

pub const RAW_HEAD: &'static str = "
var installChunk = function (data) {
  var ids = data.__webpack_ids__;
  var modules = data.__webpack_modules__;
  var runtime = data.__webpack_runtime__;
  // add \"modules\" to the modules object,
  // then flag all \"ids\" as loaded and fire callback
  var moduleId, chunkId, i = 0;
  for (moduleId in modules) {
    if (__webpack_require__.o(modules, moduleId)) {
      __webpack_require__.m[moduleId] = modules[moduleId];
    }
  }
  if (runtime) runtime(__webpack_require__);
  for (; i < ids.length; i++) {
    chunkId = ids[i];
    if (__webpack_require__.o(installedChunks, chunkId) && installedChunks[chunkId]) {
      installedChunks[chunkId][0]();
    }
    installedChunks[ids[i]] = 0;
  }
  ";

pub const RAW_TAIL: &'static str = "
};
";

pub const LOADING_HEAD: &'static str = "// import() chunk loading for javascript
var installedChunkData = __webpack_require__.o(installedChunks, chunkId) ? installedChunks[chunkId] : undefined;
if (installedChunkData !== 0) { // 0 means \"already installed\".
  // a Promise means \"currently loading\".
  if (installedChunkData) {
    promises.push(installedChunkData[1]);
  } else {
    if (";

pub const LOADING_IMPORT: &'static str = ") {
      // setup Promise in chunk cache
      var promise = ";

pub const LOADING_OPEN: &'static str = "(";

pub const LOADING_AFTER_DIR: &'static str = " + __webpack_require__.u(chunkId)).then(installChunk, function (e) {
        if (installedChunks[chunkId] !== 0) installedChunks[chunkId] = undefined;
        throw e;
      });
      var promise = Promise.race([promise, new Promise(function (resolve) {
        installedChunkData = installedChunks[chunkId] = [resolve];
      })]);
      promises.push(installedChunkData[1] = promise);
    } ";

pub const LOADING_TAIL: &'static str = "
  }
}";

pub const INSTALLED_HEAD: &'static str = "
// object to store loaded and loading chunks
// undefined = chunk not loaded, null = chunk preloaded/prefetched
// [resolve, reject, Promise] = chunk loading, 0 = chunk loaded
var installedChunks = ";

pub const STUB_BODY: &'static str = "installedChunks[chunkId] = 0;";

pub const FALLBACK: &'static str = "else installedChunks[chunkId] = 0;\n";

/// Template that installs a loaded chunk's modules and marks its ids loaded.
pub open spec fn raw_segments() -> Seq<Segment> {
    seq![Segment::Text(RAW_HEAD), Segment::Placeholder(Slot::WithOnChunkLoad), Segment::Text(RAW_TAIL)]
}

/// Template of the loader body of the ensure-chunk handler.
pub open spec fn loading_segments() -> Seq<Segment> {
    seq![
        Segment::Text(LOADING_HEAD),
        Segment::Placeholder(Slot::JsMatcher),
        Segment::Text(LOADING_IMPORT),
        Segment::Placeholder(Slot::ImportFunctionName),
        Segment::Text(LOADING_OPEN),
        Segment::Placeholder(Slot::OutputDir),
        Segment::Text(LOADING_AFTER_DIR),
        Segment::Placeholder(Slot::MatchFallback),
        Segment::Text(LOADING_TAIL),
    ]
}

fn raw_template() -> (r: Vec<Segment>)
    ensures
        r@ == raw_segments(),
{
    let r = vec![Segment::Text(RAW_HEAD), Segment::Placeholder(Slot::WithOnChunkLoad), Segment::Text(RAW_TAIL)];
    assert(r@ =~= raw_segments());
    r
}

fn loading_template() -> (r: Vec<Segment>)
    ensures
        r@ == loading_segments(),
{
    let r = vec![
        Segment::Text(LOADING_HEAD),
        Segment::Placeholder(Slot::JsMatcher),
        Segment::Text(LOADING_IMPORT),
        Segment::Placeholder(Slot::ImportFunctionName),
        Segment::Text(LOADING_OPEN),
        Segment::Placeholder(Slot::OutputDir),
        Segment::Text(LOADING_AFTER_DIR),
        Segment::Placeholder(Slot::MatchFallback),
        Segment::Text(LOADING_TAIL),
    ];
    assert(r@ =~= loading_segments());
    r
}

/// `<base-uri global> = <value>;`
pub open spec fn base_uri_text(value: Seq<char>) -> Seq<char> {
    RuntimeGlobal::BaseUri.spec_name() + " = "@ + value + ";\n"@
}

/// Base URI derived from the output directory literal and the import-context global.
pub open spec fn base_uri_fallback(dir_literal: Seq<char>, import_meta_name: Seq<char>) -> Seq<char> {
    "new URL("@ + dir_literal + ", "@ + import_meta_name + ".url);"@
}

/// Name of the persisted installed-state map under hot update.
pub open spec fn hmr_state_name() -> Seq<char> {
    RuntimeGlobal::HmrRuntimeStatePrefix.spec_name() + "_module"@
}

/// Declaration of the installed-state map with every listed initial chunk loaded.
pub open spec fn installed_state_text(with_hmr: bool, initial: Seq<u64>) -> Seq<char> {
    INSTALLED_HEAD@ + (if with_hmr {
        hmr_state_name() + " = "@ + hmr_state_name() + " || "@
    } else {
        Seq::empty()
    }) + loaded_literal(sorted_ids(initial)) + ";\n"@
}

/// The install-chunk function.
pub open spec fn install_text(with_on_chunk_load: bool) -> Seq<char> {
    filled(
        raw_segments(),
        seq![
            (Slot::WithOnChunkLoad, if with_on_chunk_load {
                RuntimeGlobal::OnChunksLoaded.spec_name() + "();"@
            } else {
                Seq::empty()
            }),
        ],
    )
}

/// Body of the ensure-chunk handler: a stub when no chunk holds script,
/// otherwise the loader, without the already-loaded fallback when every chunk does.
pub open spec fn loader_body(map: Seq<(u64, bool)>, import_function_name: Seq<char>, dir_literal: Seq<char>) -> Seq<char> {
    if ids_with(map, true).len() == 0 {
        STUB_BODY@
    } else {
        filled(
            loading_segments(),
            seq![
                (Slot::JsMatcher, compiled_text(map, "chunkId"@)),
                (Slot::ImportFunctionName, import_function_name),
                (Slot::OutputDir, dir_literal),
                (Slot::MatchFallback, if ids_with(map, false).len() == 0 {
                    Seq::empty()
                } else {
                    FALLBACK@
                }),
            ],
        )
    }
}

pub open spec fn ensure_chunk_text(body: Seq<char>) -> Seq<char> {
    "\n"@ + RuntimeGlobal::EnsureChunkHandlers.spec_name() + ".j = function (chunkId, promises) {\n"@ + body
        + "\n}\n"@
}

pub open spec fn external_install_text() -> Seq<char> {
    "\n"@ + RuntimeGlobal::ExternalInstallChunk.spec_name() + " = installChunk;\n"@
}

pub open spec fn on_chunks_loaded_text() -> Seq<char> {
    "\n"@ + RuntimeGlobal::OnChunksLoaded.spec_name()
        + ".j = function(chunkId) {\n  return installedChunks[chunkId] === 0;\n}\n"@
}

pub open spec fn when(b: bool, s: Seq<char>) -> Seq<char> {
    if b {
        s
    } else {
        Seq::empty()
    }
}

/// Source of the chunk-loading runtime module, given the base-URI assignment
/// and the output directory as a literal.
pub open spec fn chunk_loading_source(
    input: &ChunkLoadingInput,
    base_uri_assignment: Seq<char>,
    dir_literal: Seq<char>,
) -> Seq<char> {
    let req = input.runtime_requirements@;
    let with_base_uri = req.contains(RuntimeGlobal::BaseUri);
    let with_external = req.contains(RuntimeGlobal::ExternalInstallChunk);
    let with_loading = req.contains(RuntimeGlobal::EnsureChunkHandlers);
    let with_on_chunk_load = req.contains(RuntimeGlobal::OnChunksLoaded);
    let with_hmr = req.contains(RuntimeGlobal::HmrDownloadUpdateHandlers);
    when(with_base_uri, base_uri_assignment) + installed_state_text(with_hmr, input.initial_chunks@)
        + when(with_loading || with_external, install_text(with_on_chunk_load)) + when(
        with_loading,
        ensure_chunk_text(
            loader_body(input.condition_map@, input.import_function_name@, dir_literal),
        ),
    ) + when(with_external, external_install_text()) + when(with_on_chunk_load, on_chunks_loaded_text())
}

/// Writes the base-URI assignment for a given value expression.
pub fn base_uri_assignment(value: &str) -> (r: String)
    ensures
        r@ == base_uri_text(value@),
{
    let mut s = String::from_str(RuntimeGlobal::BaseUri.name());
    s.append(" = ");
    s.append(value);
    s.append(";\n");
    s
}

fn ensure_chunk_body(input: &ChunkLoadingInput, dir_literal: &str) -> (r: String)
    ensures
        r@ == loader_body(input.condition_map@, input.import_function_name@, dir_literal@),
{
    let matcher = compile_boolean_matcher(&input.condition_map);
    proof {
        lemma_compiled_text(input.condition_map@, matcher, "chunkId"@);
    }
    match matcher {
        BooleanMatcher::Condition(false) => String::from_str(STUB_BODY),
        _ => {
            let mut vars: Vec<(Slot, String)> = Vec::new();
            vars.push((Slot::JsMatcher, matcher.render("chunkId")));
            vars.push((Slot::ImportFunctionName, input.import_function_name.clone()));
            vars.push((Slot::OutputDir, String::from_str(dir_literal)));
            let fallback = match matcher {
                BooleanMatcher::Condition(true) => String::new(),
                _ => String::from_str(FALLBACK),
            };
            vars.push((Slot::MatchFallback, fallback));
            let segs = loading_template();
            let r = render_template(&segs, &vars);
            assert(bindings_view(vars@) =~= seq![
                (Slot::JsMatcher, compiled_text(input.condition_map@, "chunkId"@)),
                (Slot::ImportFunctionName, input.import_function_name@),
                (Slot::OutputDir, dir_literal@),
                (Slot::MatchFallback, if ids_with(input.condition_map@, false).len() == 0 {
                    Seq::empty()
                } else {
                    FALLBACK@
                }),
            ]);
            r
        },
    }
}

/// Writes the chunk-loading runtime source from the chunk's requirement set,
/// condition map and initial chunks, a ready base-URI assignment and the output
/// directory as a literal.
pub fn render_chunk_loading(input: &ChunkLoadingInput, base_uri_assignment: &str, dir_literal: &str) -> (r: String)
    requires
        input.runtime_requirements.wf(),
    ensures
        r@ == chunk_loading_source(input, base_uri_assignment@, dir_literal@),
{
    let req = &input.runtime_requirements;
    let with_base_uri = req.contains(RuntimeGlobal::BaseUri);
    let with_external = req.contains(RuntimeGlobal::ExternalInstallChunk);
    let with_loading = req.contains(RuntimeGlobal::EnsureChunkHandlers);
    let with_on_chunk_load = req.contains(RuntimeGlobal::OnChunksLoaded);
    let with_hmr = req.contains(RuntimeGlobal::HmrDownloadUpdateHandlers);

    let mut source = String::new();
    if with_base_uri {
        source.append(base_uri_assignment);
    }
    let ghost s1 = source@;
    assert(s1 =~= when(with_base_uri, base_uri_assignment@));

    let mut installed = String::from_str(INSTALLED_HEAD);
    if with_hmr {
        let mut state = String::from_str(RuntimeGlobal::HmrRuntimeStatePrefix.name());
        state.append("_module");
        installed.append(state.as_str());
        installed.append(" = ");
        installed.append(state.as_str());
        installed.append(" || ");
    }
    let initial = sort_chunk_ids(&input.initial_chunks);
    let literal = stringify_chunks(&initial);
    installed.append(literal.as_str());
    installed.append(";\n");
    assert(installed@ =~= installed_state_text(with_hmr, input.initial_chunks@));
    source.append(installed.as_str());

    if with_loading || with_external {
        let mut vars: Vec<(Slot, String)> = Vec::new();
        if with_on_chunk_load {
            let mut call = String::from_str(RuntimeGlobal::OnChunksLoaded.name());
            call.append("();");
            vars.push((Slot::WithOnChunkLoad, call));
        } else {
            vars.push((Slot::WithOnChunkLoad, String::new()));
        }
        let segs = raw_template();
        let raw = render_template(&segs, &vars);
        assert(bindings_view(vars@) =~= seq![
            (Slot::WithOnChunkLoad, if with_on_chunk_load {
                RuntimeGlobal::OnChunksLoaded.spec_name() + "();"@
            } else {
                Seq::empty()
            }),
        ]);
        source.append(raw.as_str());
    }
    let ghost s3 = source@;
    assert(s3 =~= when(with_base_uri, base_uri_assignment@) + installed_state_text(with_hmr, input.initial_chunks@)
        + when(with_loading || with_external, install_text(with_on_chunk_load)));

    if with_loading {
        let body = ensure_chunk_body(input, dir_literal);
        let mut handler = String::from_str("\n");
        handler.append(RuntimeGlobal::EnsureChunkHandlers.name());
        handler.append(".j = function (chunkId, promises) {\n");
        handler.append(body.as_str());
        handler.append("\n}\n");
        source.append(handler.as_str());
    }
    if with_external {
        let mut assign = String::from_str("\n");
        assign.append(RuntimeGlobal::ExternalInstallChunk.name());
        assign.append(" = installChunk;\n");
        source.append(assign.as_str());
    }
    if with_on_chunk_load {
        let mut check = String::from_str("\n");
        check.append(RuntimeGlobal::OnChunksLoaded.name());
        check.append(".j = function(chunkId) {\n  return installedChunks[chunkId] === 0;\n}\n");
        source.append(check.as_str());
    }
    assert(source@ =~= chunk_loading_source(input, base_uri_assignment@, dir_literal@));
    source
}

/// Runtime module that loads chunks through dynamic `import()`.
#[derive(Debug)]
pub struct ModuleChunkLoadingRuntimeModule {
    id: String,
    chunk: Option<u64>,
}

pub open spec fn module_chunk_loading_id() -> Seq<char> {
    "webpack/runtime/module_chunk_loading"@
}

impl ModuleChunkLoadingRuntimeModule {
    pub closed spec fn spec_id(&self) -> Seq<char> {
        self.id@
    }

    pub closed spec fn spec_chunk(&self) -> Option<u64> {
        self.chunk
    }

    pub fn default() -> (r: ModuleChunkLoadingRuntimeModule)
        ensures
            r.spec_id() == module_chunk_loading_id(),
            r.spec_chunk() is None,
    {
        ModuleChunkLoadingRuntimeModule {
            id: String::from_str("webpack/runtime/module_chunk_loading"),
            chunk: None,
        }
    }

    pub fn name(&self) -> (r: String)
        ensures
            r@ == self.spec_id(),
    {
        self.id.clone()
    }

    /// Registered name of one of the module's templates.
    pub fn template(&self, template_id: TemplateId) -> (r: String)
        ensures
            template_id == TemplateId::Raw ==> r@ == self.spec_id(),
            template_id == TemplateId::WithLoading ==> r@ == self.spec_id() + "_with_loading"@,
    {
        match template_id {
            TemplateId::Raw => self.id.clone(),
            TemplateId::WithLoading => {
                let mut s = self.id.clone();
                s.append("_with_loading");
                s
            },
        }
    }

    /// The module's templates under their registered names.
    pub fn templates(&self) -> (r: Vec<(String, Vec<Segment>)>)
        ensures
            r@.len() == 2,
            r@[0].0@ == self.spec_id(),
            r@[0].1@ == raw_segments(),
            r@[1].0@ == self.spec_id() + "_with_loading"@,
            r@[1].1@ == loading_segments(),
    {
        let mut r: Vec<(String, Vec<Segment>)> = Vec::new();
        r.push((self.template(TemplateId::Raw), raw_template()));
        r.push((self.template(TemplateId::WithLoading), loading_template()));
        r
    }

    pub fn attach(&mut self, chunk: u64)
        ensures
            final(self).spec_id() == old(self).spec_id(),
            final(self).spec_chunk() == Some(chunk),
    {
        self.chunk = Some(chunk);
    }

    pub fn stage(&self) -> (r: RuntimeModuleStage)
        ensures
            r == RuntimeModuleStage::Attach,
    {
        RuntimeModuleStage::Attach
    }

    /// The base-URI assignment: the entry option's base URI as a literal, or
    /// one derived from the output directory literal.
    pub fn generate_base_uri(&self, input: &ChunkLoadingInput, dir_literal: &str) -> (r: Result<
        String,
        ChunkLoadingError,
    >)
        ensures
            input.base_uri is None ==> r is Ok && r->Ok_0@ == base_uri_text(
                base_uri_fallback(dir_literal@, input.import_meta_name@),
            ),
            input.base_uri is Some ==> r is Ok && r->Ok_0@ == base_uri_text(
                json_string_literal(input.base_uri->Some_0@),
            ),
    {
        match &input.base_uri {
            Some(base_uri) => match to_json_string(base_uri.as_str()) {
                Ok(literal) => Ok(base_uri_assignment(literal.as_str())),
                Err(_) => Err(ChunkLoadingError::BaseUriNotSerializable),
            },
            None => {
                let mut value = String::from_str("new URL(");
                value.append(dir_literal);
                value.append(", ");
                value.append(input.import_meta_name.as_str());
                value.append(".url);");
                Ok(base_uri_assignment(value.as_str()))
            },
        }
    }

    /// Synthesises the chunk-loading runtime source for the attached chunk.
    pub fn generate(&self, input: &ChunkLoadingInput) -> (r: Result<String, ChunkLoadingError>)
        requires
            input.runtime_requirements.wf(),
        ensures
            self.spec_chunk() is None ==> r == Err::<String, ChunkLoadingError>(ChunkLoadingError::NotAttached),
            self.spec_chunk() is Some ==> r is Ok,
            r is Ok ==> r->Ok_0@ == chunk_loading_source(
                input,
                if input.base_uri is Some {
                    base_uri_text(json_string_literal(input.base_uri->Some_0@))
                } else {
                    base_uri_text(base_uri_fallback(json_string_literal(input.root_output_dir@), input.import_meta_name@))
                },
                json_string_literal(input.root_output_dir@),
            ),
    {
        if self.chunk.is_none() {
            return Err(ChunkLoadingError::NotAttached);
        }
        let dir_literal = match to_json_string(input.root_output_dir.as_str()) {
            Ok(s) => s,
            Err(_) => {
                return Err(ChunkLoadingError::OutputDirNotSerializable);
            },
        };
        let with_base_uri = input.runtime_requirements.contains(RuntimeGlobal::BaseUri);
        let base = if with_base_uri {
            match self.generate_base_uri(input, dir_literal.as_str()) {
                Ok(s) => s,
                Err(e) => {
                    return Err(e);
                },
            }
        } else {
            String::new()
        };
        let ghost expected_base = if input.base_uri is Some {
            base_uri_text(json_string_literal(input.base_uri->Some_0@))
        } else {
            base_uri_text(base_uri_fallback(json_string_literal(input.root_output_dir@), input.import_meta_name@))
        };
        let source = render_chunk_loading(input, base.as_str(), dir_literal.as_str());
        assert(when(with_base_uri, base@) == when(with_base_uri, expected_base));
        Ok(source)
    }
}

} // verus!
