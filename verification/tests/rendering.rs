use transcript_pdf::highlight::{
    highlight_region, literal_fallback, markup_of, markup_or_fallback, EngineAnswer,
};
use transcript_pdf::render::{
    highlight_scan, render_fences, render_markdown_with_highlighting, render_scan, scan_fences,
    substitute_regions, wrap_document, FenceCapture, FenceScan,
};

const HEAD: &str = "<!DOCTYPE html>\n<html>\n<head>\n<meta charset=\"utf-8\">\n<style>\nbody { font-family: Arial, sans-serif; padding: 40px; }\npre { overflow-x: auto; background-color: #2b303b; padding: 15px; border-radius: 5px; }\ncode { font-family: monospace; }\nh2 { border-bottom: 1px solid #ddd; padding-bottom: 4px; }\n</style>\n</head>\n<body>\n";
const TAIL: &str = "\n</body>\n</html>";

fn strings(items: &[&str]) -> Vec<String> {
    items.iter().map(|s| s.to_string()).collect()
}

fn scan(text: &str) -> FenceScan {
    scan_fences(text)
}

#[test]
fn region_spans_embedded_newlines() {
    let found = scan("```python\nline1\nline2\n```");
    assert_eq!(found.fences.len(), 1);
    assert_eq!(found.fences[0].lang.as_deref(), Some("python"));
    assert_eq!(found.fences[0].code.as_deref(), Some("line1\nline2\n"));
    assert_eq!(found.gaps, strings(&["", ""]));
}

#[test]
fn scan_takes_the_text_apart_without_loss() {
    let text = "a\n```x\n1\n```b```\n2\n```\nc ``` d";
    let found = scan(text);
    assert_eq!(found.gaps.len(), found.fences.len() + 1);
    assert_eq!(found.fences.len(), 2);
    assert_eq!(found.fences[0].whole, "```x\n1\n```");
    assert_eq!(found.fences[1].whole, "```\n2\n```");
    let wholes: Vec<String> = found.fences.iter().map(|f| f.whole.clone()).collect();
    assert_eq!(substitute_regions(&found.gaps, &wholes), text);
}

#[test]
fn text_around_a_region_is_kept() {
    let found = scan("before\n```rust\nfn f() {}\n```\nafter");
    assert_eq!(found.gaps, strings(&["before\n", "\nafter"]));
    assert_eq!(found.fences.len(), 1);
    assert_eq!(found.fences[0].lang.as_deref(), Some("rust"));
    assert_eq!(found.fences[0].code.as_deref(), Some("fn f() {}\n"));
}

#[test]
fn region_without_tag_has_no_language() {
    let found = scan("```\nplain\n```");
    assert_eq!(found.fences.len(), 1);
    assert_eq!(found.fences[0].lang, None);
    assert_eq!(found.fences[0].code.as_deref(), Some("plain\n"));
}

#[test]
fn first_closing_fence_ends_the_region() {
    let found = scan("```a\none\n```mid```b\ntwo\n```end");
    assert_eq!(found.fences.len(), 2);
    assert_eq!(found.fences[0].code.as_deref(), Some("one\n"));
    assert_eq!(found.fences[1].lang.as_deref(), Some("b"));
    assert_eq!(found.fences[1].code.as_deref(), Some("two\n"));
    assert_eq!(found.gaps, strings(&["", "mid", "end"]));
}

#[test]
fn unclosed_fence_is_no_region() {
    let found = scan("```python\nnever closed\n");
    assert_eq!(found.fences.len(), 0);
    assert_eq!(found.gaps, strings(&["```python\nnever closed\n"]));
}

#[test]
fn tag_must_be_word_characters_up_to_the_line_end() {
    let found = scan("```rust ignore\ncode\n```");
    assert_eq!(found.fences.len(), 0);
    let found = scan("```c_99\nx\n```");
    assert_eq!(found.fences[0].lang.as_deref(), Some("c_99"));
}

#[test]
fn text_without_fences_is_one_gap() {
    let found = scan("just text");
    assert_eq!(found.gaps, strings(&["just text"]));
    assert!(found.fences.is_empty());
}

#[test]
fn substitute_interleaves_gaps_and_inserts() {
    let out = substitute_regions(&strings(&["a", "b", "c"]), &strings(&["1", "2"]));
    assert_eq!(out, "a1b2c");
    assert_eq!(substitute_regions(&strings(&["only"]), &strings(&[])), "only");
    assert_eq!(substitute_regions(&strings(&[]), &strings(&[])), "");
    assert_eq!(substitute_regions(&strings(&["a", "b"]), &strings(&["1", "2", "3"])), "a1b2");
    assert_eq!(substitute_regions(&strings(&["a", "b", "c"]), &strings(&["1"])), "a1bc");
}

#[test]
fn literal_fallback_wraps_text_as_it_is() {
    assert_eq!(literal_fallback("a < b\n"), "<pre><code>a < b\n</code></pre>");
    assert_eq!(literal_fallback(""), "<pre><code></code></pre>");
}

#[test]
fn engine_failure_gives_literal_markup() {
    assert_eq!(markup_or_fallback(None, "x = 1\n"), "<pre><code>x = 1\n</code></pre>");
    assert_eq!(markup_or_fallback(Some("<pre>done</pre>".to_string()), "x = 1\n"), "<pre>done</pre>");
}

#[test]
fn only_a_markup_answer_holds_markup() {
    assert_eq!(markup_of(EngineAnswer::NoSyntax), None);
    assert_eq!(markup_of(EngineAnswer::Failed), None);
    assert_eq!(markup_of(EngineAnswer::Markup("<pre>x</pre>".to_string())), Some("<pre>x</pre>".to_string()));
    assert_eq!(
        markup_or_fallback(markup_of(EngineAnswer::Failed), "a\nb"),
        "<pre><code>a\nb</code></pre>"
    );
}

#[test]
fn known_language_is_coloured() {
    let code = "def f():\n    return 1\n";
    let markup = highlight_region(&Some("python".to_string()), code);
    assert!(markup.starts_with("<pre style=\"background-color:#2b303b;\">\n"));
    assert!(markup.ends_with("</pre>\n"));
    assert!(markup.contains("<span style=\"color:#"));
    assert_ne!(markup, code);
    let plain = highlight_region(&None, code);
    assert_ne!(markup, plain);
}

#[test]
fn unknown_language_falls_back_to_plain_text() {
    let code = "some <text> & more\n";
    let garbage = highlight_region(&Some("no_such_language_zz".to_string()), code);
    let plain = highlight_region(&None, code);
    let txt = highlight_region(&Some("txt".to_string()), code);
    assert_eq!(garbage, plain);
    assert_eq!(txt, plain);
    assert!(plain.starts_with("<pre style=\"background-color:#2b303b;\">\n"));
    assert!(plain.contains("some &lt;text&gt; &amp; more"));
}

#[test]
fn render_fences_keeps_order_and_count() {
    let fences = vec![
        FenceCapture {
            whole: "```rust\nfn a() {}\n```".to_string(),
            lang: Some("rust".to_string()),
            code: Some("fn a() {}\n".to_string()),
        },
        FenceCapture {
            whole: "```\nplain\n```".to_string(),
            lang: None,
            code: Some("plain\n".to_string()),
        },
        FenceCapture { whole: String::new(), lang: None, code: None },
    ];
    let rendered = render_fences(&fences);
    assert_eq!(rendered.len(), 3);
    assert_eq!(rendered[0], highlight_region(&Some("rust".to_string()), "fn a() {}\n"));
    assert_eq!(rendered[1], highlight_region(&None, "plain\n"));
    assert_eq!(rendered[2], highlight_region(&None, ""));
}

#[test]
fn highlight_scan_replaces_regions_only() {
    let found = scan("intro\n```python\nx = 1\n```\noutro");
    let text = highlight_scan(&found);
    let markup = highlight_region(&Some("python".to_string()), "x = 1\n");
    assert_eq!(text, format!("intro\n{}\noutro", markup));
}

#[test]
fn wrap_document_is_the_fixed_shell() {
    assert_eq!(wrap_document("<p>x</p>\n"), format!("{}<p>x</p>\n{}", HEAD, TAIL));
    assert_eq!(wrap_document(""), format!("{}{}", HEAD, TAIL));
}

#[test]
fn plain_document_is_transformed_and_wrapped() {
    let doc = render_markdown_with_highlighting("## user\n\nHello\n\n");
    assert_eq!(doc, format!("{}<h2>user</h2>\n<p>Hello</p>\n{}", HEAD, TAIL));
}

#[test]
fn extensions_are_enabled() {
    let doc = render_markdown_with_highlighting("~~gone~~\n\n| a | b |\n|---|---|\n| 1 | 2 |\n");
    assert!(doc.contains("<del>gone</del>"));
    assert!(doc.contains("<table>"));
}

#[test]
fn code_region_reaches_the_document_as_markup() {
    let md = "## assistant\n\nHere:\n\n```python\nline1\nline2\n```\n\nDone.\n\n";
    let doc = render_markdown_with_highlighting(md);
    assert!(doc.starts_with(HEAD));
    assert!(doc.ends_with(TAIL));
    assert!(doc.contains("<h2>assistant</h2>"));
    assert_eq!(doc.matches("<pre style=\"background-color:#2b303b;\">").count(), 1);
    assert!(!doc.contains("```"));
    assert!(!doc.contains("&lt;pre"));
    assert!(doc.contains("line1"));
    assert!(doc.contains("line2"));
    assert!(doc.contains("<p>Done.</p>"));
}

#[test]
fn garbage_language_tag_still_renders() {
    let doc = render_markdown_with_highlighting("```zzzzqq\n<b>\n```\n");
    assert!(doc.contains("<pre style=\"background-color:#2b303b;\">"));
    assert!(doc.contains("&lt;b&gt;"));
}

#[test]
fn render_scan_agrees_with_full_render() {
    let md = "a\n\n```rust\nfn main() {}\n```\n\nb\n";
    let found = scan(md);
    assert_eq!(render_scan(&found), render_markdown_with_highlighting(md));
}

#[test]
fn rendering_twice_gives_identical_output() {
    let md = "## user\n\nHi\n\n```rust\nlet x = 1;\n```\n\n## assistant\n\n- [ ] task\n\n";
    let first = render_markdown_with_highlighting(md);
    let second = render_markdown_with_highlighting(md);
    assert!(first.contains("<h2>user</h2>"));
    assert_eq!(first, second);
}
