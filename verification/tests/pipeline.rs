use mdview::render::error_markdown;
use mdview::render::render_document;
use mdview::render::render_markdown;
use mdview::render::render_markdown_with_restore;
use mdview::render::source_or_error;
use mdview::render::BODY_CLOSE;
use mdview::render::BOOTSTRAP_SCRIPT;
use mdview::render::DIAGRAM_SCRIPT;
use mdview::render::RESTORE_SCRIPT_BLOCK;
use mdview::render::SCROLL_CAPTURE_SCRIPT;
use mdview::render::STYLESHEET;

#[test]
fn render_is_deterministic_for_unchanged_contents() {
    let first = render_markdown("# Hi\n\nSome *text*.\n");
    let second = render_markdown("# Hi\n\nSome *text*.\n");
    assert_eq!(first, second);
}

#[test]
fn heading_becomes_h1_in_the_body() {
    let doc = render_markdown("# Hi");
    assert!(doc.contains("<h1>Hi</h1>"));
}

#[test]
fn document_inlines_stylesheet_and_diagram_script_verbatim() {
    let doc = render_markdown("# Hi");
    assert!(doc.contains(STYLESHEET));
    assert!(doc.contains(DIAGRAM_SCRIPT));
    assert!(doc.contains(BOOTSTRAP_SCRIPT));
    assert!(doc.ends_with(BODY_CLOSE));
}

#[test]
fn diagram_code_block_reaches_the_bootstrap_converter() {
    let doc = render_markdown("```mermaid\ngraph TD;\nA-->B;\n```\n");
    // The converted body carries the tagged code block with its raw text...
    assert!(doc.contains("<code class=\"language-mermaid\">graph TD;\nA--&gt;B;\n</code>"));
    // ...and the bootstrap script that rewrites exactly such blocks into
    // renderable containers is inlined after it.
    assert!(doc.contains("pre > code.language-mermaid"));
    assert!(doc.contains("div.className = 'mermaid'"));
}

#[test]
fn raw_html_passes_through() {
    let doc = render_markdown("Possibly <marquee>annoying</marquee>.\n");
    assert!(doc.contains("<marquee>annoying</marquee>"));
    assert!(!doc.contains("raw HTML omitted"));
}

#[test]
fn strikethrough_extension_is_enabled() {
    let doc = render_markdown("Hello ~world~ there.\n");
    assert!(doc.contains("<del>world</del>"));
}

#[test]
fn table_extension_is_enabled() {
    let doc = render_markdown("| a | b |\n|---|---|\n| c | d |\n");
    assert!(doc.contains("<table>"));
    assert!(doc.contains("<th>a</th>"));
}

#[test]
fn autolink_extension_is_enabled() {
    let doc = render_markdown("Hello www.github.com.\n");
    assert!(doc.contains("<a href=\"http://www.github.com\">www.github.com</a>"));
}

#[test]
fn error_markdown_names_path_and_message() {
    let text = error_markdown("/no/such/file.md", "permission denied");
    assert_eq!(
        text,
        "# Error\n\nFailed to read `/no/such/file.md`: permission denied"
    );
}

#[test]
fn failed_read_renders_error_document_with_literal_path() {
    let doc = render_document(
        "/no/such/file.md",
        Err(String::from("permission denied")),
    );
    assert!(doc.contains("<h1>Error</h1>"));
    assert!(doc.contains("/no/such/file.md"));
    assert!(doc.contains("permission denied"));
    assert!(doc.ends_with(BODY_CLOSE));
}

#[test]
fn successful_read_renders_the_contents() {
    let doc = render_document("/tmp/notes.md", Ok(String::from("# Notes")));
    assert!(doc.contains("<h1>Notes</h1>"));
    assert!(!doc.contains("Failed to read"));
}

#[test]
fn source_text_is_contents_on_success_and_error_document_on_failure() {
    let ok = source_or_error("/a.md", Ok(String::from("body")));
    assert_eq!(ok, "body");
    let err = source_or_error("/a.md", Err(String::from("gone")));
    assert_eq!(err, "# Error\n\nFailed to read `/a.md`: gone");
}

#[test]
fn plain_render_carries_no_restore_script() {
    let doc = render_markdown("# Hi");
    assert!(!doc.contains(RESTORE_SCRIPT_BLOCK));
}

#[test]
fn reload_render_injects_restore_script_before_body_close() {
    let doc = render_markdown_with_restore("# Hi");
    let expected_tail = format!("{}{}", RESTORE_SCRIPT_BLOCK, BODY_CLOSE);
    assert!(doc.ends_with(&expected_tail));
    let plain = render_markdown("# Hi");
    let plain_prefix = &plain[..plain.len() - BODY_CLOSE.len()];
    assert_eq!(doc, format!("{}{}{}", plain_prefix, RESTORE_SCRIPT_BLOCK, BODY_CLOSE));
}

#[test]
fn capture_and_restore_scripts_share_the_store_key() {
    assert!(SCROLL_CAPTURE_SCRIPT.contains("mdview_scrollY"));
    assert!(SCROLL_CAPTURE_SCRIPT.contains("window.scrollY"));
    assert!(RESTORE_SCRIPT_BLOCK.contains("mdview_scrollY"));
    assert!(RESTORE_SCRIPT_BLOCK.contains("removeItem"));
}
