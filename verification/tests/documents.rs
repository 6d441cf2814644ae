//! End-to-end tests: whole source strings through the real parser, the
//! memoization contract, and the error placeholder.

use yew_mdx::ast::ParseError;
use yew_mdx::markup::Markup;
use yew_mdx::markup::Tag;
use yew_mdx::memo::ParseMemo;
use yew_mdx::parse::markdown;
use yew_mdx::render::render_document;
use yew_mdx::render::DiagnosticHtml;
use yew_mdx::render::FixedTextHtml;
use yew_mdx::render::PassThroughHtml;

fn markup_text(value: &str) -> Markup {
    Markup::Text {
        value: value.to_string(),
    }
}

#[test]
fn heading_and_bold_paragraph_scenario() {
    let m = markdown("# Title\n\nSome **bold** text.", &DiagnosticHtml);
    assert_eq!(
        m,
        Markup::Fragment {
            children: vec![
                Markup::Element {
                    tag: Tag::Heading1,
                    children: vec![markup_text("Title")],
                },
                Markup::Element {
                    tag: Tag::Paragraph,
                    children: vec![
                        markup_text("Some "),
                        Markup::Element {
                            tag: Tag::Strong,
                            children: vec![markup_text("bold")],
                        },
                        markup_text(" text."),
                    ],
                },
            ],
        }
    );
}

#[test]
fn two_item_unordered_list_scenario() {
    let m = markdown("- a\n- b", &DiagnosticHtml);
    let item = |value: &str| Markup::Element {
        tag: Tag::ListItem,
        children: vec![Markup::Element {
            tag: Tag::Paragraph,
            children: vec![markup_text(value)],
        }],
    };
    assert_eq!(
        m,
        Markup::Fragment {
            children: vec![Markup::Element {
                tag: Tag::UnorderedList,
                children: vec![item("a"), item("b")],
            }],
        }
    );
}

#[test]
fn rendering_is_deterministic_for_identical_sources() {
    let source = "> quoted *em* and `code`\n\n---\n\n1. one\n2. two";
    let first = markdown(source, &DiagnosticHtml);
    let second = markdown(source, &DiagnosticHtml);
    assert_eq!(first, second);
}

#[test]
fn parse_failure_renders_exactly_the_placeholder() {
    let m = render_document(&Err(ParseError), &DiagnosticHtml);
    assert_eq!(
        m,
        Markup::Diagnostic {
            detail: "Error".to_string(),
        }
    );
}

#[test]
fn raw_html_block_is_replaced_by_sentinel() {
    let sentinel = FixedTextHtml {
        text: "SENTINEL".to_string(),
    };
    let m = markdown("<div>hi</div>", &sentinel);
    assert_eq!(
        m,
        Markup::Fragment {
            children: vec![markup_text("SENTINEL")],
        }
    );
}

#[test]
fn raw_html_block_without_callback_is_diagnostic() {
    let m = markdown("<div>hi</div>", &DiagnosticHtml);
    assert_eq!(
        m,
        Markup::Fragment {
            children: vec![Markup::Diagnostic {
                detail: "<div>hi</div>".to_string(),
            }],
        }
    );
}

#[test]
fn table_parses_but_renders_as_diagnostic() {
    let m = markdown("| a |\n| - |\n| b |", &DiagnosticHtml);
    match m {
        Markup::Fragment { children } => {
            assert_eq!(children.len(), 1);
            match &children[0] {
                Markup::Diagnostic { detail } => assert!(detail.contains("Table")),
                other => panic!("expected a diagnostic, got {other:?}"),
            }
        }
        other => panic!("expected a fragment, got {other:?}"),
    }
}

#[test]
fn strikethrough_extension_is_parsed() {
    let m = markdown("~~gone~~", &DiagnosticHtml);
    assert_eq!(
        m,
        Markup::Fragment {
            children: vec![Markup::Element {
                tag: Tag::Paragraph,
                children: vec![Markup::Element {
                    tag: Tag::Strike,
                    children: vec![markup_text("gone")],
                }],
            }],
        }
    );
}

#[test]
fn memo_reuses_parse_for_unchanged_source() {
    let mut memo = ParseMemo::new();
    assert_eq!(memo.parses(), 0);
    let source = "# Title".to_string();
    let first = memo.render(&source, &DiagnosticHtml);
    assert_eq!(memo.parses(), 1);
    let second = memo.render(&source, &DiagnosticHtml);
    assert_eq!(memo.parses(), 1);
    assert_eq!(first, second);
}

#[test]
fn memo_reparses_when_source_changes() {
    let mut memo = ParseMemo::new();
    let first = "# One".to_string();
    let second = "# Two".to_string();
    memo.render(&first, &DiagnosticHtml);
    assert_eq!(memo.parses(), 1);
    memo.render(&second, &DiagnosticHtml);
    assert_eq!(memo.parses(), 2);
    memo.render(&second, &DiagnosticHtml);
    assert_eq!(memo.parses(), 2);
    memo.render(&first, &DiagnosticHtml);
    assert_eq!(memo.parses(), 3);
}

#[test]
fn memo_output_matches_direct_rendering() {
    let mut memo = ParseMemo::new();
    let source = "Some **bold** text.".to_string();
    let memoized = memo.render(&source, &DiagnosticHtml);
    let direct = markdown(&source, &DiagnosticHtml);
    assert_eq!(memoized, direct);
}

#[test]
fn hard_break_round_trips_through_parser() {
    let m = markdown("a  \nb", &DiagnosticHtml);
    assert_eq!(
        m,
        Markup::Fragment {
            children: vec![Markup::Element {
                tag: Tag::Paragraph,
                children: vec![
                    markup_text("a"),
                    Markup::Element {
                        tag: Tag::LineBreak,
                        children: vec![],
                    },
                    markup_text("b"),
                ],
            }],
        }
    );
}

#[test]
fn link_round_trips_through_parser() {
    let m = markdown("[here](https://example.org)", &DiagnosticHtml);
    assert_eq!(
        m,
        Markup::Fragment {
            children: vec![Markup::Element {
                tag: Tag::Paragraph,
                children: vec![Markup::Anchor {
                    href: "https://example.org".to_string(),
                    children: vec![markup_text("here")],
                }],
            }],
        }
    );
}

#[test]
fn code_block_round_trips_through_parser() {
    let m = markdown("```rust\nlet x;\n```", &DiagnosticHtml);
    assert_eq!(
        m,
        Markup::Fragment {
            children: vec![Markup::Element {
                tag: Tag::Pre,
                children: vec![Markup::Element {
                    tag: Tag::Code,
                    children: vec![markup_text("let x;")],
                }],
            }],
        }
    );
}

#[test]
fn raw_html_block_passes_through_verbatim() {
    let m = markdown("<div>hi</div>", &PassThroughHtml);
    assert_eq!(
        m,
        Markup::Fragment {
            children: vec![Markup::Raw {
                value: "<div>hi</div>".to_string(),
            }],
        }
    );
}
