//! Code generation for module rendering and chunk-loading bootstrap synthesis:
//! runtime-global requirements, ordered init fragments, boolean matchers over
//! chunk ids, the ES-module compatibility renderer and the chunk-loading
//! runtime module.

pub mod runtime_globals;
pub mod decimal;
pub mod boolean_matcher;
pub mod init_fragment;
pub mod module_graph;
pub mod template_context;
pub mod esm_compatibility_dependency;
pub mod runtime_template;
pub mod json;
pub mod chunk_ids;
pub mod module_chunk_loading;
