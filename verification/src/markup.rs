//! The markup tree that rendering produces.
//!
//! [`Markup`] is the executable tree handed to the embedding application;
//! [`MarkupView`] is its mathematical model, with sequences in place of
//! vectors and character sequences in place of strings, which the contracts
//! speak of.

use vstd::prelude::*;

verus! {

/// The tag of a markup element.
#[derive(Debug, Clone, Copy, PartialEq, Eq, Structural)]
pub enum Tag {
    Paragraph,
    Heading1,
    Heading2,
    Heading3,
    Heading4,
    Heading5,
    Heading6,
    Emphasis,
    Strong,
    Strike,
    Code,
    Pre,
    UnorderedList,
    OrderedList,
    ListItem,
    BlockQuote,
    HorizontalRule,
    LineBreak,
}

/// Whether a heading depth is one the markup language can express.
pub open spec fn valid_heading_depth(depth: u8) -> bool {
    1 <= depth <= 6
}

/// The heading tag that corresponds to a depth between 1 and 6.
pub open spec fn spec_heading_tag(depth: u8) -> Tag {
    if depth == 1 {
        Tag::Heading1
    } else if depth == 2 {
        Tag::Heading2
    } else if depth == 3 {
        Tag::Heading3
    } else if depth == 4 {
        Tag::Heading4
    } else if depth == 5 {
        Tag::Heading5
    } else {
        Tag::Heading6
    }
}

/// Maps a heading depth between 1 and 6 to its heading tag.
pub fn heading_tag(depth: u8) -> (t: Tag)
    requires
        valid_heading_depth(depth),
    ensures
        t == spec_heading_tag(depth),
{
    if depth == 1 {
        Tag::Heading1
    } else if depth == 2 {
        Tag::Heading2
    } else if depth == 3 {
        Tag::Heading3
    } else if depth == 4 {
        Tag::Heading4
    } else if depth == 5 {
        Tag::Heading5
    } else {
        Tag::Heading6
    }
}

/// One markup fragment, as the embedding application receives it.
#[derive(Debug, PartialEq, Eq)]
pub enum Markup {
    /// Literal text, with no wrapping element.
    Text { value: String },
    /// An element with a tag and ordered children; an element whose tag
    /// stands for a void element (a rule or a line break) has no children.
    Element { tag: Tag, children: Vec<Markup> },
    /// An anchor element with its target, wrapping its label.
    Anchor { href: String, children: Vec<Markup> },
    /// An ordered group of fragments with no wrapping element of its own.
    Fragment { children: Vec<Markup> },
    /// Raw markup handed through verbatim, left to the embedding
    /// application or the host framework to interpret.
    Raw { value: String },
    /// A visible placeholder emitted in place of unsupported or malformed
    /// content, instead of silent loss or a panic.
    Diagnostic { detail: String },
}

/// The mathematical model of a markup fragment.
#[verifier::ext_equal]
pub enum MarkupView {
    Text { value: Seq<char> },
    Element { tag: Tag, children: Seq<MarkupView> },
    Anchor { href: Seq<char>, children: Seq<MarkupView> },
    Fragment { children: Seq<MarkupView> },
    Raw { value: Seq<char> },
    Diagnostic { detail: Seq<char> },
}

/// The model of one markup fragment.
pub open spec fn view_markup(m: Markup) -> MarkupView
    decreases m,
{
    match m {
        Markup::Text { value } => MarkupView::Text { value: value@ },
        Markup::Element { tag, children } => MarkupView::Element {
            tag,
            children: view_markups(children@),
        },
        Markup::Anchor { href, children } => MarkupView::Anchor {
            href: href@,
            children: view_markups(children@),
        },
        Markup::Fragment { children } => MarkupView::Fragment {
            children: view_markups(children@),
        },
        Markup::Raw { value } => MarkupView::Raw { value: value@ },
        Markup::Diagnostic { detail } => MarkupView::Diagnostic { detail: detail@ },
    }
}

/// The model of an ordered sequence of markup fragments.
pub open spec fn view_markups(s: Seq<Markup>) -> Seq<MarkupView>
    decreases s,
{
    if s.len() == 0 {
        Seq::empty()
    } else {
        view_markups(s.subrange(0, s.len() - 1)).push(view_markup(s[s.len() - 1]))
    }
}

impl View for Markup {
    type V = MarkupView;

    open spec fn view(&self) -> MarkupView {
        view_markup(*self)
    }
}

/// The model of a fragment sequence is the fragments' models, in order.
pub proof fn lemma_view_markups(s: Seq<Markup>)
    ensures
        view_markups(s).len() == s.len(),
        forall|i: int| 0 <= i < s.len() ==> view_markups(s)[i] == view_markup(s[i]),
    decreases s,
{
    if s.len() > 0 {
        lemma_view_markups(s.subrange(0, s.len() - 1));
    }
}

/// The model of a one-fragment sequence is the one fragment's model.
pub proof fn lemma_view_markups_singleton(m: Markup)
    ensures
        view_markups(seq![m]) == seq![view_markup(m)],
{
    lemma_view_markups(seq![m]);
    assert(view_markups(seq![m]) =~= seq![view_markup(m)]);
}

} // verus!
