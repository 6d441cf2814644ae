//! The Markdown abstract syntax tree that the renderer walks.
//!
//! The tree is a closed tagged union over the node kinds the renderer knows,
//! each holding its ordered children and leaf payload as plain values. A node
//! kind the parser produced but the renderer does not know is carried as
//! [`Md::Unknown`], holding the node's debug text, so that rendering stays
//! total and the rest of the document still renders.

use vstd::prelude::*;

verus! {

/// One Markdown AST node.
#[derive(Debug, PartialEq, Eq)]
pub enum Md {
    /// The document root.
    Root { children: Vec<Md> },
    /// A paragraph.
    Paragraph { children: Vec<Md> },
    /// A heading of a given depth (1 through 6 are renderable).
    Heading { depth: u8, children: Vec<Md> },
    /// Literal text.
    Text { value: String },
    /// Emphasised phrasing content.
    Emphasis { children: Vec<Md> },
    /// Strongly emphasised phrasing content.
    Strong { children: Vec<Md> },
    /// Struck-through phrasing content.
    Delete { children: Vec<Md> },
    /// An inline code span.
    InlineCode { value: String },
    /// A fenced or indented code block; language metadata is not kept.
    CodeBlock { value: String },
    /// A link to a URL, wrapping its label.
    Link { url: String, children: Vec<Md> },
    /// An ordered or unordered list of items.
    List { ordered: bool, children: Vec<Md> },
    /// One item of a list.
    ListItem { children: Vec<Md> },
    /// A block quote.
    BlockQuote { children: Vec<Md> },
    /// A thematic break (horizontal rule).
    ThematicBreak,
    /// A hard line break.
    HardBreak,
    /// Raw embedded HTML, kept verbatim for the embedding application.
    RawHtml { value: String },
    /// A node kind with no mapping entry; holds the node's debug text.
    Unknown { detail: String },
}

/// The one failure the render path knows: the source string is not valid
/// Markdown per the parser's grammar. It is always fatal for the render pass
/// that hit it and carries no further detail.
#[derive(Debug, Clone, Copy, PartialEq, Eq, Structural)]
pub struct ParseError;

} // verus!
