//! Renders a Markdown document into a markup tree.
//!
//! Parsing is delegated to the `markdown` crate; everything after the parse
//! is a pure, recursive mapping from AST nodes to markup fragments, with an
//! escape hatch letting the embedding application substitute its own markup
//! for raw embedded HTML.

pub mod ast;
pub mod markup;
pub mod memo;
pub mod parse;
pub mod render;
