//! The node-to-markup dispatcher and the child-list mapper.
//!
//! Dispatch is a total function over the node kind: every known kind maps to
//! exactly one fixed markup shape, raw embedded HTML is delegated to the
//! caller-supplied [`HtmlRender`], and anything unrecognised yields a visible
//! diagnostic fragment rather than being dropped or panicking.

use vstd::prelude::*;

use crate::ast::Md;
use crate::ast::ParseError;
use crate::markup::Markup;
use crate::markup::MarkupView;
use crate::markup::Tag;
use crate::markup::heading_tag;
use crate::markup::lemma_view_markups_singleton;
use crate::markup::spec_heading_tag;
use crate::markup::valid_heading_depth;
use crate::markup::view_markups;

verus! {

/// What stands in place of a raw embedded HTML node: the embedding
/// application supplies an implementation to substitute its own markup
/// (such as a custom component placeholder) for the raw string.
pub trait HtmlRender {
    /// The model of the markup this renderer produces for a raw HTML string.
    spec fn html_spec(&self, raw: Seq<char>) -> MarkupView;

    /// Produces the markup that stands in place of one raw HTML string.
    fn render_html(&self, raw: &str) -> (m: Markup)
        ensures
            m@ == self.html_spec(raw@),
    ;
}

/// The diagnostic text shown for a heading whose depth the markup language
/// cannot express.
pub open spec fn heading_diagnostic() -> Seq<char> {
    "Unsupported heading"@
}

/// The static placeholder shown when the source string could not be parsed.
pub open spec fn error_placeholder() -> MarkupView {
    MarkupView::Diagnostic { detail: "Error"@ }
}

/// The markup shape of one node: the fixed dispatch table over node kinds.
pub open spec fn spec_node<R: HtmlRender>(r: R, n: Md) -> MarkupView
    decreases n,
{
    match n {
        Md::Root { children } => MarkupView::Fragment { children: spec_nodes(r, children@) },
        Md::Paragraph { children } => MarkupView::Element {
            tag: Tag::Paragraph,
            children: spec_nodes(r, children@),
        },
        Md::Heading { depth, children } => if valid_heading_depth(depth) {
            MarkupView::Element {
                tag: spec_heading_tag(depth),
                children: spec_nodes(r, children@),
            }
        } else {
            MarkupView::Diagnostic { detail: heading_diagnostic() }
        },
        Md::Text { value } => MarkupView::Text { value: value@ },
        Md::Emphasis { children } => MarkupView::Element {
            tag: Tag::Emphasis,
            children: spec_nodes(r, children@),
        },
        Md::Strong { children } => MarkupView::Element {
            tag: Tag::Strong,
            children: spec_nodes(r, children@),
        },
        Md::Delete { children } => MarkupView::Element {
            tag: Tag::Strike,
            children: spec_nodes(r, children@),
        },
        Md::InlineCode { value } => MarkupView::Element {
            tag: Tag::Code,
            children: seq![MarkupView::Text { value: value@ }],
        },
        Md::CodeBlock { value } => MarkupView::Element {
            tag: Tag::Pre,
            children: seq![
                MarkupView::Element {
                    tag: Tag::Code,
                    children: seq![MarkupView::Text { value: value@ }],
                },
            ],
        },
        Md::Link { url, children } => MarkupView::Anchor {
            href: url@,
            children: spec_nodes(r, children@),
        },
        Md::List { ordered, children } => MarkupView::Element {
            tag: if ordered {
                Tag::OrderedList
            } else {
                Tag::UnorderedList
            },
            children: spec_nodes(r, children@),
        },
        Md::ListItem { children } => MarkupView::Element {
            tag: Tag::ListItem,
            children: spec_nodes(r, children@),
        },
        Md::BlockQuote { children } => MarkupView::Element {
            tag: Tag::BlockQuote,
            children: spec_nodes(r, children@),
        },
        Md::ThematicBreak => MarkupView::Element {
            tag: Tag::HorizontalRule,
            children: Seq::empty(),
        },
        Md::HardBreak => MarkupView::Element { tag: Tag::LineBreak, children: Seq::empty() },
        Md::RawHtml { value } => r.html_spec(value@),
        Md::Unknown { detail } => MarkupView::Diagnostic { detail: detail@ },
    }
}

/// The markup shapes of an ordered sequence of nodes, in document order.
pub open spec fn spec_nodes<R: HtmlRender>(r: R, s: Seq<Md>) -> Seq<MarkupView>
    decreases s,
{
    if s.len() == 0 {
        Seq::empty()
    } else {
        spec_nodes(r, s.subrange(0, s.len() - 1)).push(spec_node(r, s[s.len() - 1]))
    }
}

/// The markup of a whole render pass, given the parse outcome: the parsed
/// document's markup, or the static error placeholder with no partial tree.
pub open spec fn spec_document<R: HtmlRender>(r: R, parsed: Result<Md, ParseError>) -> MarkupView {
    match parsed {
        Ok(n) => spec_node(r, n),
        Err(_) => error_placeholder(),
    }
}

/// Maps one AST node to its markup fragment.
pub fn markdown_node<R: HtmlRender>(node: &Md, render: &R) -> (m: Markup)
    ensures
        m@ == spec_node(*render, *node),
    decreases *node,
{
    match node {
        Md::Root { children } => Markup::Fragment { children: render_children(children, render) },
        Md::Paragraph { children } => Markup::Element {
            tag: Tag::Paragraph,
            children: render_children(children, render),
        },
        Md::Heading { depth, children } => {
            if 1 <= *depth && *depth <= 6 {
                Markup::Element {
                    tag: heading_tag(*depth),
                    children: render_children(children, render),
                }
            } else {
                Markup::Diagnostic { detail: "Unsupported heading".to_owned() }
            }
        },
        Md::Text { value } => Markup::Text { value: value.clone() },
        Md::Emphasis { children } => Markup::Element {
            tag: Tag::Emphasis,
            children: render_children(children, render),
        },
        Md::Strong { children } => Markup::Element {
            tag: Tag::Strong,
            children: render_children(children, render),
        },
        Md::Delete { children } => Markup::Element {
            tag: Tag::Strike,
            children: render_children(children, render),
        },
        Md::InlineCode { value } => {
            let span = Markup::Text { value: value.clone() };
            let children = vec![span];
            proof {
                assert(children@ =~= seq![span]);
                lemma_view_markups_singleton(span);
            }
            Markup::Element { tag: Tag::Code, children }
        },
        Md::CodeBlock { value } => {
            let span = Markup::Text { value: value.clone() };
            let inner_children = vec![span];
            proof {
                assert(inner_children@ =~= seq![span]);
                lemma_view_markups_singleton(span);
            }
            let inner = Markup::Element { tag: Tag::Code, children: inner_children };
            let children = vec![inner];
            proof {
                assert(children@ =~= seq![inner]);
                lemma_view_markups_singleton(inner);
            }
            Markup::Element { tag: Tag::Pre, children }
        },
        Md::Link { url, children } => Markup::Anchor {
            href: url.clone(),
            children: render_children(children, render),
        },
        Md::List { ordered, children } => Markup::Element {
            tag: if *ordered {
                Tag::OrderedList
            } else {
                Tag::UnorderedList
            },
            children: render_children(children, render),
        },
        Md::ListItem { children } => Markup::Element {
            tag: Tag::ListItem,
            children: render_children(children, render),
        },
        Md::BlockQuote { children } => Markup::Element {
            tag: Tag::BlockQuote,
            children: render_children(children, render),
        },
        Md::ThematicBreak => Markup::Element { tag: Tag::HorizontalRule, children: Vec::new() },
        Md::HardBreak => Markup::Element { tag: Tag::LineBreak, children: Vec::new() },
        Md::RawHtml { value } => render.render_html(value.as_str()),
        Md::Unknown { detail } => Markup::Diagnostic { detail: detail.clone() },
    }
}

/// Maps the dispatcher across an ordered sequence of nodes, preserving
/// document order: no reordering, no filtering, no deduplication.
fn render_children<R: HtmlRender>(nodes: &Vec<Md>, render: &R) -> (ms: Vec<Markup>)
    ensures
        view_markups(ms@) == spec_nodes(*render, nodes@),
    decreases nodes@,
{
    let mut out: Vec<Markup> = Vec::new();
    let mut i: usize = 0;
    proof {
        assert(nodes@.subrange(0, 0) =~= Seq::<Md>::empty());
    }
    while i < nodes.len()
        invariant
            i <= nodes.len(),
            view_markups(out@) == spec_nodes(*render, nodes@.subrange(0, i as int)),
        decreases nodes.len() - i,
    {
        let ghost prev = out@;
        let m = markdown_node(&nodes[i], render);
        out.push(m);
        proof {
            assert(out@.subrange(0, prev.len() as int) =~= prev);
            assert(nodes@.subrange(0, i + 1).subrange(0, i as int) =~= nodes@.subrange(0, i as int));
            assert(nodes@.subrange(0, i + 1)[i as int] == nodes@[i as int]);
        }
        i += 1;
    }
    proof {
        assert(nodes@.subrange(0, nodes@.len() as int) =~= nodes@);
    }
    out
}

/// Maps the dispatcher across a list of nodes and groups the fragments, in
/// document order, under one containing fragment.
pub fn markdown_nodes<R: HtmlRender>(nodes: &Vec<Md>, render: &R) -> (m: Markup)
    ensures
        m@ == (MarkupView::Fragment { children: spec_nodes(*render, nodes@) }),
{
    Markup::Fragment { children: render_children(nodes, render) }
}

/// Renders a whole parse outcome: the document's markup on success, and on
/// failure exactly the static error placeholder, with no partial tree.
pub fn render_document<R: HtmlRender>(parsed: &Result<Md, ParseError>, render: &R) -> (m: Markup)
    ensures
        m@ == spec_document(*render, *parsed),
{
    match parsed {
        Ok(node) => markdown_node(node, render),
        Err(_) => Markup::Diagnostic { detail: "Error".to_owned() },
    }
}

/// Law: rendering is deterministic. Two renderers that behave alike on every
/// raw HTML string produce structurally identical markup for every node; in
/// particular one renderer, given one node twice, produces identical markup.
pub proof fn lemma_render_deterministic<R1: HtmlRender, R2: HtmlRender>(r1: R1, r2: R2, n: Md)
    requires
        forall|raw: Seq<char>| #[trigger] r1.html_spec(raw) == r2.html_spec(raw),
    ensures
        spec_node(r1, n) == spec_node(r2, n),
    decreases n,
{
    match n {
        Md::Root { children } => lemma_render_deterministic_seq(r1, r2, children@),
        Md::Paragraph { children } => lemma_render_deterministic_seq(r1, r2, children@),
        Md::Heading { depth, children } => lemma_render_deterministic_seq(r1, r2, children@),
        Md::Emphasis { children } => lemma_render_deterministic_seq(r1, r2, children@),
        Md::Strong { children } => lemma_render_deterministic_seq(r1, r2, children@),
        Md::Delete { children } => lemma_render_deterministic_seq(r1, r2, children@),
        Md::Link { url, children } => lemma_render_deterministic_seq(r1, r2, children@),
        Md::List { ordered, children } => lemma_render_deterministic_seq(r1, r2, children@),
        Md::ListItem { children } => lemma_render_deterministic_seq(r1, r2, children@),
        Md::BlockQuote { children } => lemma_render_deterministic_seq(r1, r2, children@),
        _ => {},
    }
}

/// Law: the child-list mapping is deterministic, sequence by sequence, for
/// renderers that behave alike on every raw HTML string.
pub proof fn lemma_render_deterministic_seq<R1: HtmlRender, R2: HtmlRender>(
    r1: R1,
    r2: R2,
    s: Seq<Md>,
)
    requires
        forall|raw: Seq<char>| #[trigger] r1.html_spec(raw) == r2.html_spec(raw),
    ensures
        spec_nodes(r1, s) == spec_nodes(r2, s),
    decreases s,
{
    if s.len() > 0 {
        lemma_render_deterministic_seq(r1, r2, s.subrange(0, s.len() - 1));
        lemma_render_deterministic(r1, r2, s[s.len() - 1]);
    }
}

/// Law: the child-list mapping preserves document order. It yields exactly
/// one fragment per node, the dispatch of that node, in the same position:
/// no reordering, no filtering, no deduplication.
pub proof fn lemma_child_list_order<R: HtmlRender>(r: R, s: Seq<Md>)
    ensures
        spec_nodes(r, s).len() == s.len(),
        forall|i: int| 0 <= i < s.len() ==> spec_nodes(r, s)[i] == spec_node(r, s[i]),
    decreases s,
{
    if s.len() > 0 {
        lemma_child_list_order(r, s.subrange(0, s.len() - 1));
    }
}

/// Law: a whole render pass is deterministic. For one parse outcome, two
/// renderers that behave alike on every raw HTML string produce structurally
/// identical markup, whether the parse succeeded or failed.
pub proof fn lemma_document_deterministic<R1: HtmlRender, R2: HtmlRender>(
    r1: R1,
    r2: R2,
    parsed: Result<Md, ParseError>,
)
    requires
        forall|raw: Seq<char>| #[trigger] r1.html_spec(raw) == r2.html_spec(raw),
    ensures
        spec_document(r1, parsed) == spec_document(r2, parsed),
{
    if let Ok(n) = parsed {
        lemma_render_deterministic(r1, r2, n);
    }
}

/// Law: a heading of depth 1 through 6 maps to the correspondingly numbered
/// heading element wrapping its rendered children; any other depth yields
/// the diagnostic fragment, never a crash.
pub proof fn lemma_heading_shape<R: HtmlRender>(r: R, depth: u8, children: Vec<Md>)
    ensures
        valid_heading_depth(depth) ==> spec_node(r, (Md::Heading { depth, children }))
            == (MarkupView::Element {
            tag: spec_heading_tag(depth),
            children: spec_nodes(r, children@),
        }),
        !valid_heading_depth(depth) ==> spec_node(r, (Md::Heading { depth, children }))
            == (MarkupView::Diagnostic { detail: heading_diagnostic() }),
{
}

/// Law: a raw embedded HTML node renders as exactly what the supplied
/// renderer says for the raw string, in place of the raw HTML.
pub proof fn lemma_raw_html_shape<R: HtmlRender>(r: R, value: String)
    ensures
        spec_node(r, (Md::RawHtml { value })) == r.html_spec(value@),
{
}

/// The renderer used when the embedding application supplies none: raw
/// embedded HTML has no mapping of its own and falls to the diagnostic
/// default, carrying the raw string.
pub struct DiagnosticHtml;

impl HtmlRender for DiagnosticHtml {
    open spec fn html_spec(&self, raw: Seq<char>) -> MarkupView {
        MarkupView::Diagnostic { detail: raw }
    }

    fn render_html(&self, raw: &str) -> (m: Markup) {
        Markup::Diagnostic { detail: raw.to_owned() }
    }
}

/// A renderer that hands each raw embedded HTML string through verbatim as
/// a raw markup fragment, leaving its interpretation to the embedding
/// application or the host framework.
pub struct PassThroughHtml;

impl HtmlRender for PassThroughHtml {
    open spec fn html_spec(&self, raw: Seq<char>) -> MarkupView {
        MarkupView::Raw { value: raw }
    }

    fn render_html(&self, raw: &str) -> (m: Markup) {
        Markup::Raw { value: raw.to_owned() }
    }
}

/// A renderer that substitutes one fixed text fragment for every raw
/// embedded HTML node, whatever the raw string holds.
pub struct FixedTextHtml {
    pub text: String,
}

impl HtmlRender for FixedTextHtml {
    open spec fn html_spec(&self, raw: Seq<char>) -> MarkupView {
        MarkupView::Text { value: self.text@ }
    }

    fn render_html(&self, raw: &str) -> (m: Markup) {
        Markup::Text { value: self.text.clone() }
    }
}

} // verus!
