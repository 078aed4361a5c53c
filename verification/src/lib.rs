//! Markdown to syntax-highlighted HTML, the text buffer of a two-pane
//! terminal editor with a live preview, and the decisions of a file watcher
//! that re-renders on change.
//!
//! `markdown` and `syntaxes` are the boundary to the Markdown parser and to
//! the highlighter: what is assumed of them is stated there and nowhere
//! else. `text` holds the few string operations that the standard library
//! supplies. Everything in `highlight`, `render`, `editor` and `watch` is
//! proved against those statements.

pub mod editor;
pub mod error;
pub mod highlight;
pub mod markdown;
pub mod render;
pub mod syntaxes;
pub mod text;
pub mod watch;
