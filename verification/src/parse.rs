//! The trusted boundary around the Markdown parser.
//!
//! Parsing is delegated entirely to the `markdown` crate. Its parse outcome
//! for a source string is a function of that string alone, so it is given the
//! name [`md_parse`]; the one wrapper that invokes the parser promises to
//! return exactly that, and everything after the parse is verified against
//! the name. The converters below carry the parser's tree over into this
//! crate's AST, arm by arm, moving fields; they are part of the same trust
//! boundary and promise nothing on their own.

use vstd::prelude::*;

use markdown::mdast::Node;

use crate::ast::Md;
use crate::ast::ParseError;
use crate::markup::Markup;
use crate::render::HtmlRender;
use crate::render::render_document;
use crate::render::spec_document;

verus! {

#[verifier::external_type_specification]
#[verifier::external_body]
pub struct ExNode(Node);

/// What the Markdown parser, run with the GFM profile plus tables and carried
/// into this crate's AST, returns for a source string: `Err` exactly on the
/// sources the parser rejects. The outcome depends on the source alone.
pub uninterp spec fn md_parse(source: Seq<char>) -> Result<Md, ParseError>;

/// Relies on `markdown::to_mdast` with `markdown::ParseOptions::gfm()` and
/// tables enabled: a pure parse whose outcome depends on the source string
/// alone, carried over by the converters below.
#[verifier::external_body]
pub(crate) fn parse_gfm(source: &str) -> (r: Result<Md, ParseError>)
    ensures
        r == md_parse(source@),
{
    let options = markdown::ParseOptions {
        constructs: markdown::Constructs { gfm_table: true, ..markdown::Constructs::gfm() },
        ..markdown::ParseOptions::gfm()
    };
    match markdown::to_mdast(source, &options) {
        Ok(node) => Ok(conv_node(&node)),
        Err(_) => Err(ParseError),
    }
}

/// Carries one `markdown::mdast` leaf node over, moving its fields; a node
/// kind with no arm here is handed on to the container converter.
#[verifier::external_body]
fn conv_node(n: &Node) -> Md {
    match n {
        Node::Text(x) => Md::Text { value: x.value.clone() },
        Node::InlineCode(x) => Md::InlineCode { value: x.value.clone() },
        Node::Code(x) => Md::CodeBlock { value: x.value.clone() },
        Node::Html(x) => Md::RawHtml { value: x.value.clone() },
        Node::ThematicBreak(_) => Md::ThematicBreak,
        Node::Break(_) => Md::HardBreak,
        other => conv_block(other),
    }
}

/// Carries one `markdown::mdast` block container over, moving its fields; a
/// node kind with no arm here is handed on to the phrasing converter.
#[verifier::external_body]
fn conv_block(n: &Node) -> Md {
    match n {
        Node::Root(x) => Md::Root { children: conv_all(&x.children) },
        Node::Paragraph(x) => Md::Paragraph { children: conv_all(&x.children) },
        Node::Heading(x) => Md::Heading { depth: x.depth, children: conv_all(&x.children) },
        Node::Blockquote(x) => Md::BlockQuote { children: conv_all(&x.children) },
        Node::ListItem(x) => Md::ListItem { children: conv_all(&x.children) },
        other => conv_phrasing(other),
    }
}

/// Carries one `markdown::mdast` phrasing container or list over, moving its
/// fields; any node kind with no arm in any converter becomes [`Md::Unknown`]
/// holding the node's debug text.
#[verifier::external_body]
fn conv_phrasing(n: &Node) -> Md {
    match n {
        Node::Emphasis(x) => Md::Emphasis { children: conv_all(&x.children) },
        Node::Strong(x) => Md::Strong { children: conv_all(&x.children) },
        Node::Delete(x) => Md::Delete { children: conv_all(&x.children) },
        Node::Link(x) => Md::Link { url: x.url.clone(), children: conv_all(&x.children) },
        Node::List(x) => Md::List { ordered: x.ordered, children: conv_all(&x.children) },
        other => Md::Unknown { detail: format!("{:?}", other) },
    }
}

/// Carries an ordered list of `markdown::mdast` nodes over, one by one, in
/// order.
#[verifier::external_body]
fn conv_all(nodes: &Vec<Node>) -> Vec<Md> {
    nodes.iter().map(conv_node).collect()
}

/// Parses a Markdown source string with the GFM profile plus tables and
/// renders the document: an unparseable source yields exactly the static
/// error placeholder, with no partial tree.
pub fn markdown<R: HtmlRender>(source: &str, render: &R) -> (m: Markup)
    ensures
        m@ == spec_document(*render, md_parse(source@)),
{
    let parsed = parse_gfm(source);
    render_document(&parsed, render)
}

} // verus!
