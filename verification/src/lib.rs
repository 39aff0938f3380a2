//! Backend logic of a language-editing service: document storage, parse
//! caching, and the diagnostics, completion and hover pipelines, with the
//! position translation between 1-based front-end spans and 0-based
//! protocol ranges.

pub mod ast;
pub mod backend;
pub mod cache;
pub mod completion;
pub mod diagnostics;
pub mod frontend;
pub mod hover;
pub mod laws;
pub mod render;
pub mod scope;
pub mod store;
pub mod table;
pub mod text;
