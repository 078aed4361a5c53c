use mre::highlight::{highlighted_html_for_string, Highlighting};
use mre::markdown::EventKind;
use mre::render::{render_markdown_to_html, render_to_pdf, rewrite_events, FenceTracker, Routing};
use pulldown_cmark::{CodeBlockKind, CowStr, Event, Options, Parser, Tag, TagEnd};
use syntect::easy::HighlightLines;
use syntect::highlighting::ThemeSet;
use syntect::parsing::SyntaxSet;

fn plain_conversion(input: &str) -> String {
    let mut options = Options::empty();
    options.insert(Options::ENABLE_STRIKETHROUGH);
    options.insert(Options::ENABLE_FOOTNOTES);
    options.insert(Options::ENABLE_TABLES);
    options.insert(Options::ENABLE_TASKLISTS);
    let mut html = String::new();
    pulldown_cmark::html::push_html(&mut html, Parser::new_ext(input, options));
    html
}

fn fence_start(lang: &str) -> Event<'static> {
    Event::Start(Tag::CodeBlock(CodeBlockKind::Fenced(CowStr::from(lang.to_string()))))
}

fn text(t: &str) -> Event<'static> {
    Event::Text(CowStr::from(t.to_string()))
}

#[test]
fn heading_and_text_block() {
    let hl = Highlighting::new();
    let html = render_markdown_to_html("# Hi\n```text\nhello\n```", &hl).unwrap();
    assert_eq!(html, "<h1>Hi</h1>\n<span style=\"color:#c0c5ce;\">hello</span>\n");
}

#[test]
fn known_language_is_highlighted() {
    let hl = Highlighting::new();
    let input = "```python\nprint(1)\n```";
    let html = render_markdown_to_html(input, &hl).unwrap();
    assert_eq!(
        html,
        "<span style=\"color:#96b5b4;\">print</span><span style=\"color:#c0c5ce;\">(</span><span style=\"color:#d08770;\">1</span><span style=\"color:#c0c5ce;\">)</span>\n"
    );
    assert!(!html.contains("```"));
    assert!(!html.contains("print(1)"));
    assert_ne!(html, "print(1)\n");
    assert_ne!(html, plain_conversion(input));
    let as_text = render_markdown_to_html("```text\nprint(1)\n```", &hl).unwrap();
    assert_ne!(html, as_text);
}

#[test]
fn unknown_language_falls_back_to_plain_text() {
    let hl = Highlighting::new();
    let html = render_markdown_to_html("```not-a-real-lang\nlet x = 1;\n```", &hl).unwrap();
    assert_eq!(html, "<span style=\"color:#c0c5ce;\">let x = 1;</span>\n");
    let unknown = hl.highlight_block("not-a-real-lang", "fn main() {}\n// done").unwrap();
    let plain = hl.highlight_block("txt", "fn main() {}\n// done").unwrap();
    assert_eq!(unknown, plain);
    let rust = hl.highlight_block("rs", "fn main() {}\n// done").unwrap();
    assert_ne!(unknown, rust);
}

#[test]
fn block_without_language_is_plain_text() {
    let hl = Highlighting::new();
    let html = render_markdown_to_html("```\nhello\n```", &hl).unwrap();
    assert_eq!(html, "<span style=\"color:#c0c5ce;\">hello</span>\n");
}

#[test]
fn document_without_fence_is_the_plain_conversion() {
    let hl = Highlighting::new();
    let inputs = [
        "",
        "plain paragraph",
        "# Title\n\nSome *emphasis* and **bold** and `code`.",
        "~~gone~~",
        "| a | b |\n|---|---|\n| 1 | 2 |\n",
        "- [ ] open\n- [x] done\n",
        "Note[^1].\n\n[^1]: The note.\n",
        "    indented code\n",
        "<div>raw</div>\n",
        "> quote\n\n1. one\n2. two\n",
    ];
    for input in inputs {
        assert_eq!(render_markdown_to_html(input, &hl).unwrap(), plain_conversion(input));
    }
}

#[test]
fn extensions_are_switched_on() {
    let hl = Highlighting::new();
    assert_eq!(render_markdown_to_html("~~gone~~", &hl).unwrap(), "<p><del>gone</del></p>\n");
    assert_eq!(
        render_markdown_to_html("- [x] done\n", &hl).unwrap(),
        "<ul>\n<li><input disabled=\"\" type=\"checkbox\" checked=\"\"/>\ndone</li>\n</ul>\n"
    );
    let table = render_markdown_to_html("| a |\n|---|\n| 1 |\n", &hl).unwrap();
    assert_eq!(
        table,
        "<table><thead><tr><th>a</th></tr></thead><tbody>\n<tr><td>1</td></tr>\n</tbody></table>\n"
    );
    let note = render_markdown_to_html("Note[^1].\n\n[^1]: The note.\n", &hl).unwrap();
    assert!(note.contains("footnote-reference"));
    assert!(note.contains("footnote-definition"));
}

#[test]
fn bold_becomes_strong() {
    let hl = Highlighting::new();
    assert_eq!(render_markdown_to_html("**bold**", &hl).unwrap(), "<p><strong>bold</strong></p>\n");
}

#[test]
fn rendering_twice_is_identical() {
    let hl = Highlighting::new();
    let input = "# Hi\n\ntext ~~x~~\n\n```rust\nfn main() { println!(\"hi\"); }\n```\n\n```nope\nplain\n```\n";
    let first = render_markdown_to_html(input, &hl).unwrap();
    let second = render_markdown_to_html(input, &hl).unwrap();
    assert_eq!(first, second);
    let other = Highlighting::new();
    assert_eq!(render_markdown_to_html(input, &other).unwrap(), first);
}

#[test]
fn indented_code_is_not_highlighted() {
    let hl = Highlighting::new();
    let html = render_markdown_to_html("    let x = 1;\n", &hl).unwrap();
    assert_eq!(html, "<pre><code>let x = 1;\n</code></pre>\n");
}

#[test]
fn text_around_a_block_is_kept() {
    let hl = Highlighting::new();
    let html = render_markdown_to_html("before\n\n```text\na\nb\n```\n\nafter\n", &hl).unwrap();
    assert_eq!(
        html,
        "<p>before</p>\n<span style=\"color:#c0c5ce;\">a</span>\n<span style=\"color:#c0c5ce;\">b</span>\n<p>after</p>\n"
    );
}

#[test]
fn html_in_code_is_escaped() {
    let hl = Highlighting::new();
    let html = render_markdown_to_html("```text\n<b>&</b>\n```", &hl).unwrap();
    assert_eq!(html, "<span style=\"color:#c0c5ce;\">&lt;b&gt;&amp;&lt;/b&gt;</span>\n");
}

#[test]
fn pdf_reports_success_and_writes_nothing() {
    assert!(render_to_pdf("# Hi", "no/such/dir/out.pdf").is_ok());
    assert!(!std::path::Path::new("no/such/dir/out.pdf").exists());
}

#[test]
fn rewrite_passes_other_events_on() {
    let hl = Highlighting::new();
    let events = vec![
        Event::Start(Tag::Paragraph),
        text("hi"),
        Event::SoftBreak,
        Event::End(TagEnd::Paragraph),
        Event::End(TagEnd::CodeBlock),
        Event::Rule,
    ];
    let out = rewrite_events(&hl, events.clone()).unwrap();
    assert_eq!(out, events);
}

#[test]
fn rewrite_replaces_a_fenced_block() {
    let hl = Highlighting::new();
    let events = vec![text("a"), fence_start("text"), text("x\n"), text("y\n"), Event::End(TagEnd::CodeBlock), text("b")];
    let out = rewrite_events(&hl, events).unwrap();
    let block = hl.highlight_block("text", "x\ny\n").unwrap();
    assert_eq!(out, vec![text("a"), Event::Html(CowStr::from(block)), text("b")]);
}

#[test]
fn rewrite_keeps_other_events_inside_a_fence_in_order() {
    let hl = Highlighting::new();
    let events = vec![fence_start("text"), text("x"), Event::Rule, text("y"), Event::End(TagEnd::CodeBlock)];
    let out = rewrite_events(&hl, events).unwrap();
    let block = hl.highlight_block("text", "xy").unwrap();
    assert_eq!(out, vec![Event::Rule, Event::Html(CowStr::from(block))]);
}

#[test]
fn rewrite_restarts_on_a_second_fence_start() {
    let hl = Highlighting::new();
    let events = vec![fence_start("rs"), text("dropped"), fence_start("text"), text("kept"), Event::End(TagEnd::CodeBlock)];
    let out = rewrite_events(&hl, events).unwrap();
    let block = hl.highlight_block("text", "kept").unwrap();
    assert_eq!(out, vec![Event::Html(CowStr::from(block))]);
}

#[test]
fn rewrite_drops_an_unfinished_fence() {
    let hl = Highlighting::new();
    let events = vec![text("a"), fence_start("text"), text("lost")];
    let out = rewrite_events(&hl, events).unwrap();
    assert_eq!(out, vec![text("a")]);
}

#[test]
fn rewrite_of_nothing_is_nothing() {
    let hl = Highlighting::new();
    assert_eq!(rewrite_events(&hl, Vec::new()).unwrap(), Vec::new());
}

#[test]
fn block_is_highlighted_line_by_line() {
    let hl = Highlighting::new();
    assert_eq!(hl.highlight_block("text", "").unwrap(), "");
    assert_eq!(hl.highlight_block("text", "a").unwrap(), "<span style=\"color:#c0c5ce;\">a</span>\n");
    assert_eq!(hl.highlight_block("text", "a\n").unwrap(), "<span style=\"color:#c0c5ce;\">a</span>\n");
    assert_eq!(
        hl.highlight_block("text", "a\r\nb").unwrap(),
        "<span style=\"color:#c0c5ce;\">a</span>\n<span style=\"color:#c0c5ce;\">b</span>\n"
    );
    assert_eq!(
        hl.highlight_block("text", "a\n\nb").unwrap(),
        "<span style=\"color:#c0c5ce;\">a</span>\n\n<span style=\"color:#c0c5ce;\">b</span>\n"
    );
    assert_eq!(hl.highlight_block("text", "\n").unwrap(), "\n");
}

#[test]
fn language_is_found_by_extension_or_name() {
    let hl = Highlighting::new();
    let code = "fn main() {}";
    let by_extension = hl.highlight_block("rs", code).unwrap();
    assert_eq!(hl.highlight_block("rust", code).unwrap(), by_extension);
    assert_eq!(hl.highlight_block("RUST", code).unwrap(), by_extension);
    assert_ne!(hl.highlight_block("text", code).unwrap(), by_extension);
}

#[test]
fn highlighter_keeps_its_state_between_calls() {
    let ss = SyntaxSet::load_defaults_newlines();
    let ts = ThemeSet::load_defaults();
    let syntax = ss.find_syntax_by_token("rs").unwrap();
    let theme = &ts.themes["base16-ocean.dark"];
    let mut whole = HighlightLines::new(syntax, theme);
    let all = highlighted_html_for_string("/* a\nb */ fn", &ss, &mut whole, false).unwrap();
    let mut parts = HighlightLines::new(syntax, theme);
    let first = highlighted_html_for_string("/* a", &ss, &mut parts, false).unwrap();
    let second = highlighted_html_for_string("b */ fn", &ss, &mut parts, false).unwrap();
    assert_eq!(all, format!("{}{}", first, second));
    let mut fresh = HighlightLines::new(syntax, theme);
    let alone = highlighted_html_for_string("b */ fn", &ss, &mut fresh, false).unwrap();
    assert_ne!(second, alone);
}

#[test]
fn background_is_written_only_on_request() {
    let ss = SyntaxSet::load_defaults_newlines();
    let ts = ThemeSet::load_defaults();
    let syntax = ss.find_syntax_plain_text();
    let theme = &ts.themes["base16-ocean.dark"];
    let mut h = HighlightLines::new(syntax, theme);
    let without = highlighted_html_for_string("x", &ss, &mut h, false).unwrap();
    assert_eq!(without, "<span style=\"color:#c0c5ce;\">x</span>\n");
    let mut h = HighlightLines::new(syntax, theme);
    let with = highlighted_html_for_string("x", &ss, &mut h, true).unwrap();
    assert_eq!(with, "<span style=\"background-color:#2b303b;color:#c0c5ce;\">x</span>\n");
}

#[test]
fn line_that_cannot_be_tokenized_is_an_error() {
    let definition = "%YAML 1.2\n---\nname: Broken\nfile_extensions: [broken]\nscope: source.broken\ncontexts:\n  main:\n    - match: 'a'\n      push: 'scope:source.nowhere'\n";
    let mut builder = syntect::parsing::SyntaxSetBuilder::new();
    builder.add(syntect::parsing::SyntaxDefinition::load_from_str(definition, true, None).unwrap());
    let ss = builder.build();
    let ts = ThemeSet::load_defaults();
    let syntax = ss.find_syntax_by_token("broken").unwrap();
    let mut h = HighlightLines::new(syntax, &ts.themes["base16-ocean.dark"]);
    let error = highlighted_html_for_string("b\nxay\nb", &ss, &mut h, false).unwrap_err();
    assert_eq!(error.kind, mre::error::Failure::Tokenize);
    assert!(!error.message.is_empty());
    let mut h = HighlightLines::new(syntax, &ts.themes["base16-ocean.dark"]);
    assert!(highlighted_html_for_string("b\nb", &ss, &mut h, false).is_ok());
}

#[test]
fn tracker_follows_a_fenced_block() {
    let tracker = FenceTracker::new();
    let (tracker, routing) = tracker.route(EventKind::Text("before".to_string()));
    assert!(matches!(routing, Routing::Pass));
    let (tracker, routing) = tracker.route(EventKind::FenceStart("py".to_string()));
    assert!(matches!(routing, Routing::Skip));
    let (tracker, routing) = tracker.route(EventKind::Text("a\n".to_string()));
    assert!(matches!(routing, Routing::Skip));
    let (tracker, routing) = tracker.route(EventKind::Other);
    assert!(matches!(routing, Routing::Pass));
    let (tracker, routing) = tracker.route(EventKind::Text("b\n".to_string()));
    assert!(matches!(routing, Routing::Skip));
    let (tracker, routing) = tracker.route(EventKind::CodeBlockEnd);
    match routing {
        Routing::Highlight { lang, code } => {
            assert_eq!(lang, "py");
            assert_eq!(code, "a\nb\n");
        }
        other => panic!("{:?}", other),
    }
    let (tracker, routing) = tracker.route(EventKind::CodeBlockEnd);
    assert!(matches!(routing, Routing::Pass));
    let (_, routing) = tracker.route(EventKind::Text("after".to_string()));
    assert!(matches!(routing, Routing::Pass));
}

#[test]
fn tracker_starts_afresh_at_every_fence_start() {
    let (tracker, _) = FenceTracker::new().route(EventKind::FenceStart("a".to_string()));
    let (tracker, _) = tracker.route(EventKind::Text("x".to_string()));
    let (tracker, routing) = tracker.route(EventKind::FenceStart("".to_string()));
    assert!(matches!(routing, Routing::Skip));
    let (_, routing) = tracker.route(EventKind::CodeBlockEnd);
    match routing {
        Routing::Highlight { lang, code } => {
            assert_eq!(lang, "");
            assert_eq!(code, "");
        }
        other => panic!("{:?}", other),
    }
}
