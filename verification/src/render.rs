//! The render pipeline: converts the raw text of the watched file into a
//! complete, self-contained HTML document. A stylesheet, a diagram-rendering
//! script and a bootstrap script are inlined verbatim into every document, so
//! the output needs no network access. A read failure never reaches the
//! caller: it is absorbed into a synthetic error document.

use vstd::prelude::*;

verus! {

/// Opening of the document template, up to the inlined stylesheet.
pub const DOC_HEAD_OPEN: &'static str = "<!DOCTYPE html>\n<html>\n<head>\n<meta charset=\"utf-8\">\n<meta name=\"viewport\" content=\"width=device-width, initial-scale=1\">\n<style>\n";

/// The stylesheet asset, inlined verbatim into every document.
pub const STYLESHEET: &'static str = ".markdown-body{font-family:-apple-system,'Segoe UI',Helvetica,Arial,sans-serif;line-height:1.5;word-wrap:break-word;color:#1f2328;background:#ffffff}\n.markdown-body h1{font-size:2em;border-bottom:1px solid #d1d9e0;padding-bottom:.3em}\n.markdown-body code{background:#f0f1f2;border-radius:6px;padding:.2em .4em;font-family:ui-monospace,SFMono-Regular,monospace}\n.markdown-body pre{background:#f6f8fa;border-radius:6px;padding:16px;overflow:auto}\n.markdown-body pre code{background:transparent;padding:0}\n@media (prefers-color-scheme:dark){.markdown-body{color:#f0f6fc;background:#0d1117}}";

/// Layout rules around the stylesheet, then the opening of the inlined
/// diagram-rendering script.
pub const STYLE_CLOSE_SCRIPT_OPEN: &'static str = "\n\n.markdown-body {\n    box-sizing: border-box;\n    min-width: 200px;\n    max-width: 980px;\n    margin: 0 auto;\n    padding: 45px;\n}\n\n@media (max-width: 767px) {\n    .markdown-body {\n        padding: 15px;\n    }\n}\n</style>\n<script>\n";

/// The diagram-rendering script asset, inlined verbatim. It defines the
/// global `mermaid` object whose `initialize` entry renders every `.mermaid`
/// container with the selected theme.
pub const DIAGRAM_SCRIPT: &'static str = "var mermaid = (function() {\n    var theme = 'default';\n    function run() {\n        document.querySelectorAll('.mermaid').forEach(function(el) {\n            var pre = document.createElement('pre');\n            pre.className = 'diagram diagram-' + theme;\n            pre.textContent = el.textContent;\n            el.replaceWith(pre);\n        });\n    }\n    return {\n        initialize: function(cfg) {\n            theme = cfg && cfg.theme ? cfg.theme : 'default';\n            if (cfg && cfg.startOnLoad) {\n                run();\n                window.addEventListener('DOMContentLoaded', run);\n            }\n        }\n    };\n})();\n";

/// End of the head, opening of the body and of the rendered article.
pub const BODY_OPEN: &'static str = "</script>\n</head>\n<body>\n<article class=\"markdown-body\">\n";

/// Closing of the article, opening of the bootstrap script.
pub const ARTICLE_CLOSE: &'static str = "\n</article>\n<script>\n";

/// The generated bootstrap script: rewrites fenced code blocks tagged with
/// the diagram language into renderable `.mermaid` containers carrying the
/// block's raw text, then detects the host's light/dark preference and
/// selects the diagram theme accordingly.
pub const BOOTSTRAP_SCRIPT: &'static str = "(function() {\n    document.querySelectorAll('pre > code.language-mermaid').forEach(function(codeEl) {\n        var pre = codeEl.parentElement;\n        var div = document.createElement('div');\n        div.className = 'mermaid';\n        div.textContent = codeEl.textContent;\n        pre.parentElement.replaceChild(div, pre);\n    });\n\n    var isDark = window.matchMedia && window.matchMedia('(prefers-color-scheme: dark)').matches;\n    mermaid.initialize({\n        startOnLoad: true,\n        theme: isDark ? 'dark' : 'default'\n    });\n})();\n";

/// Closing tag of the bootstrap script.
pub const SCRIPT_CLOSE: &'static str = "</script>\n";

/// The closing body boundary of every document.
pub const BODY_CLOSE: &'static str = "</body>\n</html>";

/// The restoration script injected before the closing body boundary on a
/// scroll-preserving reload: on load it reads the transition store, scrolls
/// to the saved offset if one is present, and clears the store entry so the
/// offset is never reapplied on a later unrelated reload.
pub const RESTORE_SCRIPT_BLOCK: &'static str = "<script>\n(function() {\n    var savedY = sessionStorage.getItem('mdview_scrollY');\n    if (savedY) {\n        requestAnimationFrame(function() {\n            window.scrollTo(0, parseInt(savedY));\n            sessionStorage.removeItem('mdview_scrollY');\n        });\n    }\n})();\n</script>\n";

/// The capture script handed to the display surface right before a reload:
/// it persists the current scroll offset into the transition store under the
/// well-known key, where the restoration script of the next document finds
/// it.
pub const SCROLL_CAPTURE_SCRIPT: &'static str = "sessionStorage.setItem('mdview_scrollY', window.scrollY.toString())";

/// Heading and opening of the synthetic error document.
pub const ERROR_HEADING: &'static str = "# Error\n\nFailed to read `";

/// Separator between the failing path and the error message.
pub const ERROR_SEPARATOR: &'static str = "`: ";

/// What `comrak::markdown_to_html` returns for the fixed option set below.
/// The conversion is a function of the input text alone, so the result only
/// carries a name here; no contract states its text.
pub uninterp spec fn gfm_html_of(markdown: Seq<char>) -> Seq<char>;

/// Relies on `comrak::markdown_to_html`, configured with the fixed extension
/// set (strikethrough, tables, autolinking, task lists, footnotes,
/// description lists, multiline block quotes) and permissive raw-HTML
/// passthrough: its output depends on the input text alone.
#[verifier::external_body]
fn markdown_to_html_gfm(markdown: &str) -> (r: String)
    ensures
        r@ == gfm_html_of(markdown@),
{
    let mut options = comrak::Options::default();
    options.extension.strikethrough = true;
    options.extension.table = true;
    options.extension.autolink = true;
    options.extension.tasklist = true;
    options.extension.footnotes = true;
    options.extension.description_lists = true;
    options.extension.multiline_block_quotes = true;
    // The raw-HTML passthrough flag is set through the builder's plain-named
    // setter for the keyword-named field.
    options.render = comrak::options::Render::builder().maybe_unsafe(Some(true)).build();
    comrak::markdown_to_html(markdown, &options)
}

/// The complete document produced for a converted body.
pub open spec fn document_of(html_body: Seq<char>) -> Seq<char> {
    DOC_HEAD_OPEN@ + STYLESHEET@ + STYLE_CLOSE_SCRIPT_OPEN@ + DIAGRAM_SCRIPT@ + BODY_OPEN@
        + html_body + ARTICLE_CLOSE@ + BOOTSTRAP_SCRIPT@ + SCRIPT_CLOSE@ + BODY_CLOSE@
}

/// The complete document for a converted body, with the scroll-restoration
/// script standing right before the closing body boundary.
pub open spec fn document_with_restore_of(html_body: Seq<char>) -> Seq<char> {
    DOC_HEAD_OPEN@ + STYLESHEET@ + STYLE_CLOSE_SCRIPT_OPEN@ + DIAGRAM_SCRIPT@ + BODY_OPEN@
        + html_body + ARTICLE_CLOSE@ + BOOTSTRAP_SCRIPT@ + SCRIPT_CLOSE@ + RESTORE_SCRIPT_BLOCK@
        + BODY_CLOSE@
}

/// The synthetic error document substituted for unreadable file contents:
/// a structured heading, the literal path, and the error message.
pub open spec fn error_markdown_of(path: Seq<char>, err: Seq<char>) -> Seq<char> {
    ERROR_HEADING@ + path + ERROR_SEPARATOR@ + err
}

/// The text handed to the converter for a read outcome: the file contents on
/// success, the synthetic error document on failure.
pub open spec fn source_of(path: Seq<char>, read: Result<String, String>) -> Seq<char> {
    match read {
        Ok(contents) => contents@,
        Err(err) => error_markdown_of(path, err@),
    }
}

/// Convert markdown text into the complete, self-contained document: the
/// converted body wrapped in the static template with the stylesheet, the
/// diagram script and the bootstrap script inlined.
pub fn render_markdown(markdown: &str) -> (doc: String)
    ensures
        doc@ == document_of(gfm_html_of(markdown@)),
{
    let html_body = markdown_to_html_gfm(markdown);
    let mut doc = String::from_str(DOC_HEAD_OPEN);
    doc.append(STYLESHEET);
    doc.append(STYLE_CLOSE_SCRIPT_OPEN);
    doc.append(DIAGRAM_SCRIPT);
    doc.append(BODY_OPEN);
    doc.append(html_body.as_str());
    doc.append(ARTICLE_CLOSE);
    doc.append(BOOTSTRAP_SCRIPT);
    doc.append(SCRIPT_CLOSE);
    doc.append(BODY_CLOSE);
    doc
}

/// Convert markdown text into the complete document with the
/// scroll-restoration script standing before the closing body boundary, as
/// loaded on a scroll-preserving reload.
pub fn render_markdown_with_restore(markdown: &str) -> (doc: String)
    ensures
        doc@ == document_with_restore_of(gfm_html_of(markdown@)),
{
    let html_body = markdown_to_html_gfm(markdown);
    let mut doc = String::from_str(DOC_HEAD_OPEN);
    doc.append(STYLESHEET);
    doc.append(STYLE_CLOSE_SCRIPT_OPEN);
    doc.append(DIAGRAM_SCRIPT);
    doc.append(BODY_OPEN);
    doc.append(html_body.as_str());
    doc.append(ARTICLE_CLOSE);
    doc.append(BOOTSTRAP_SCRIPT);
    doc.append(SCRIPT_CLOSE);
    doc.append(RESTORE_SCRIPT_BLOCK);
    doc.append(BODY_CLOSE);
    doc
}

/// The synthetic error document for a failed read of `path`.
pub fn error_markdown(path: &str, err: &str) -> (r: String)
    ensures
        r@ == error_markdown_of(path@, err@),
{
    let mut s = String::from_str(ERROR_HEADING);
    s.append(path);
    s.append(ERROR_SEPARATOR);
    s.append(err);
    s
}

/// The text to convert for a read outcome: contents on success, the
/// synthetic error document on failure. The failure never propagates.
pub fn source_or_error(path: &str, read: Result<String, String>) -> (s: String)
    ensures
        s@ == source_of(path@, read),
{
    match read {
        Ok(contents) => contents,
        Err(err) => error_markdown(path, err.as_str()),
    }
}

/// Render the outcome of reading `path` into a complete document. This is
/// the whole per-reload payload transformation: read outcomes in, one
/// self-contained document out.
pub fn render_document(path: &str, read: Result<String, String>) -> (doc: String)
    ensures
        doc@ == document_of(gfm_html_of(source_of(path@, read))),
{
    let text = source_or_error(path, read);
    render_markdown(text.as_str())
}

/// Whether `needle` occurs contiguously inside `hay`.
pub open spec fn contains_seq(hay: Seq<char>, needle: Seq<char>) -> bool {
    exists|i: int|
        0 <= i && i + needle.len() <= hay.len() && #[trigger] hay.subrange(i, i + needle.len())
            == needle
}

/// The middle of a three-part concatenation occurs in the whole.
pub proof fn lemma_mid_of_concat(a: Seq<char>, b: Seq<char>, c: Seq<char>)
    ensures
        (a + b + c).subrange(a.len() as int, a.len() + b.len() as int) == b,
        contains_seq(a + b + c, b),
{
    assert((a + b + c).subrange(a.len() as int, a.len() + b.len() as int) =~= b);
}

/// Rendering is deterministic: the document is a function of the file
/// contents at call time and of nothing else, so two renders of unchanged
/// contents yield identical output.
pub proof fn lemma_render_deterministic(first: Seq<char>, second: Seq<char>)
    requires
        first == second,
    ensures
        document_of(gfm_html_of(first)) == document_of(gfm_html_of(second)),
{
}

/// Every rendered document carries the stylesheet asset, the
/// diagram-rendering script asset, the bootstrap script and the converted
/// body verbatim: the output is fully self-contained.
pub proof fn lemma_document_inlines_assets(html_body: Seq<char>)
    ensures
        contains_seq(document_of(html_body), STYLESHEET@),
        contains_seq(document_of(html_body), DIAGRAM_SCRIPT@),
        contains_seq(document_of(html_body), BOOTSTRAP_SCRIPT@),
        contains_seq(document_of(html_body), html_body),
{
    let d = document_of(html_body);
    let pre_css = DOC_HEAD_OPEN@;
    let post_css = STYLE_CLOSE_SCRIPT_OPEN@ + DIAGRAM_SCRIPT@ + BODY_OPEN@ + html_body
        + ARTICLE_CLOSE@ + BOOTSTRAP_SCRIPT@ + SCRIPT_CLOSE@ + BODY_CLOSE@;
    assert(d =~= pre_css + STYLESHEET@ + post_css);
    lemma_mid_of_concat(pre_css, STYLESHEET@, post_css);

    let pre_js = DOC_HEAD_OPEN@ + STYLESHEET@ + STYLE_CLOSE_SCRIPT_OPEN@;
    let post_js = BODY_OPEN@ + html_body + ARTICLE_CLOSE@ + BOOTSTRAP_SCRIPT@ + SCRIPT_CLOSE@
        + BODY_CLOSE@;
    assert(d =~= pre_js + DIAGRAM_SCRIPT@ + post_js);
    lemma_mid_of_concat(pre_js, DIAGRAM_SCRIPT@, post_js);

    let pre_boot = DOC_HEAD_OPEN@ + STYLESHEET@ + STYLE_CLOSE_SCRIPT_OPEN@ + DIAGRAM_SCRIPT@
        + BODY_OPEN@ + html_body + ARTICLE_CLOSE@;
    let post_boot = SCRIPT_CLOSE@ + BODY_CLOSE@;
    assert(d =~= pre_boot + BOOTSTRAP_SCRIPT@ + post_boot);
    lemma_mid_of_concat(pre_boot, BOOTSTRAP_SCRIPT@, post_boot);

    let pre_body = DOC_HEAD_OPEN@ + STYLESHEET@ + STYLE_CLOSE_SCRIPT_OPEN@ + DIAGRAM_SCRIPT@
        + BODY_OPEN@;
    let post_body = ARTICLE_CLOSE@ + BOOTSTRAP_SCRIPT@ + SCRIPT_CLOSE@ + BODY_CLOSE@;
    assert(d =~= pre_body + html_body + post_body);
    lemma_mid_of_concat(pre_body, html_body, post_body);
}

/// The synthetic error document names the failing file and opens with the
/// error heading: a reader of the fallback always sees the literal path, the
/// error indicator and the error message.
pub proof fn lemma_error_document_names_path(path: Seq<char>, err: Seq<char>)
    ensures
        contains_seq(error_markdown_of(path, err), path),
        contains_seq(error_markdown_of(path, err), err),
        error_markdown_of(path, err).subrange(0, ERROR_HEADING@.len() as int) == ERROR_HEADING@,
{
    let d = error_markdown_of(path, err);
    let post_path = ERROR_SEPARATOR@ + err;
    assert(d =~= ERROR_HEADING@ + path + post_path);
    lemma_mid_of_concat(ERROR_HEADING@, path, post_path);

    let pre_err = ERROR_HEADING@ + path + ERROR_SEPARATOR@;
    assert(d =~= pre_err + err + Seq::<char>::empty());
    lemma_mid_of_concat(pre_err, err, Seq::<char>::empty());

    assert(d.subrange(0, ERROR_HEADING@.len() as int) =~= ERROR_HEADING@);
}

/// How a scroll-preserving document relates to the plain one: they agree on
/// everything up to the closing body boundary, and the restoration script is
/// inserted exactly there, before that boundary.
pub open spec fn restore_inserted_before_close(plain: Seq<char>, restored: Seq<char>) -> bool {
    exists|pre: Seq<char>|
        plain == #[trigger] (pre + BODY_CLOSE@) && restored == pre + RESTORE_SCRIPT_BLOCK@
            + BODY_CLOSE@
}

/// The reload document is the plain document with the restoration script
/// injected immediately before the closing body boundary, and nothing else
/// changed.
pub proof fn lemma_restore_injected_before_body_close(html_body: Seq<char>)
    ensures
        restore_inserted_before_close(
            document_of(html_body),
            document_with_restore_of(html_body),
        ),
{
    let pre = DOC_HEAD_OPEN@ + STYLESHEET@ + STYLE_CLOSE_SCRIPT_OPEN@ + DIAGRAM_SCRIPT@
        + BODY_OPEN@ + html_body + ARTICLE_CLOSE@ + BOOTSTRAP_SCRIPT@ + SCRIPT_CLOSE@;
    assert(document_of(html_body) =~= pre + BODY_CLOSE@);
    assert(document_with_restore_of(html_body) =~= pre + RESTORE_SCRIPT_BLOCK@ + BODY_CLOSE@);
}

} // verus!
