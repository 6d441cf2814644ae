//! The parse-and-memoize wrapper.
//!
//! A [`ParseMemo`] keeps the last source string together with its parse
//! outcome and re-invokes the parser only when the source changes; the cache
//! is keyed on string equality. A parse failure is cached like a success:
//! it is not a transient condition, so the same source is never retried.

use vstd::prelude::*;

use crate::ast::Md;
use crate::ast::ParseError;
use crate::markup::Markup;
use crate::parse::md_parse;
use crate::parse::parse_gfm;
use crate::render::HtmlRender;
use crate::render::render_document;
use crate::render::spec_document;

verus! {

/// Memoizes the parse outcome of the most recently rendered source string.
pub struct ParseMemo {
    cache: Option<(String, Result<Md, ParseError>)>,
    parses: u64,
}

impl ParseMemo {
    /// The cached outcome, if any, is the parse of the cached source.
    #[verifier::type_invariant]
    spec fn consistent(&self) -> bool {
        match self.cache {
            Some((s, p)) => p == md_parse(s@),
            None => true,
        }
    }

    /// The source string whose parse outcome is cached, if any.
    pub closed spec fn cached_source(&self) -> Option<Seq<char>> {
        match self.cache {
            Some((s, _)) => Some(s@),
            None => None,
        }
    }

    /// How many times this memo has invoked the parser.
    pub closed spec fn parse_count(&self) -> u64 {
        self.parses
    }

    /// A memo with an empty cache that has never invoked the parser.
    pub fn new() -> (memo: ParseMemo)
        ensures
            memo.cached_source() is None,
            memo.parse_count() == 0,
    {
        ParseMemo { cache: None, parses: 0 }
    }

    /// How many times this memo has invoked the parser.
    pub fn parses(&self) -> (n: u64)
        ensures
            n == self.parse_count(),
    {
        self.parses
    }

    /// Renders a source string, parsing it only if it differs from the cached
    /// one: an unchanged source re-uses the cached outcome, so re-rendering
    /// it never re-invokes the parser and returns identical markup.
    pub fn render<R: HtmlRender>(&mut self, source: &String, render: &R) -> (m: Markup)
        requires
            old(self).parse_count() < u64::MAX,
        ensures
            m@ == spec_document(*render, md_parse(source@)),
            final(self).cached_source() == Some(source@),
            old(self).cached_source() == Some(source@) ==> final(self).parse_count() == old(
                self,
            ).parse_count(),
            old(self).cached_source() != Some(source@) ==> final(self).parse_count() == old(
                self,
            ).parse_count() + 1,
    {
        proof {
            use_type_invariant(&*self);
        }
        let hit = match &self.cache {
            Some((s, _)) => *s == *source,
            None => false,
        };
        if !hit {
            let parsed = parse_gfm(source.as_str());
            self.parses = self.parses + 1;
            self.cache = Some((source.clone(), parsed));
        }
        match &self.cache {
            Some((_, p)) => render_document(p, render),
            None => unreached(),
        }
    }
}

} // verus!
