use pulldown_cmark::{CodeBlockKind, Event, Options, Parser, Tag, TagEnd};
use vstd::prelude::*;

verus! {

// A parser event is opaque: the library tells events apart with `classify`
// and otherwise only passes them on.
#[verifier::external_type_specification]
#[verifier::external_body]
pub struct ExEvent<'a>(Event<'a>);

/// The optional Markdown extensions that the parser can be asked to recognise.
#[derive(Clone, Copy, Debug, PartialEq, Eq, Structural)]
pub struct Extensions {
    pub strikethrough: bool,
    pub footnotes: bool,
    pub tables: bool,
    pub tasklists: bool,
}

/// What the renderer reads of a parser event; every event that is neither
/// the start of a fenced code block, nor text, nor the end of a code block
/// is `Other`.
#[derive(Debug)]
pub enum EventKind {
    /// Start of a fenced code block, with its language tag (possibly empty).
    FenceStart(String),
    /// A text node.
    Text(String),
    /// End of a code block, fenced or indented.
    CodeBlockEnd,
    Other,
}

/// `EventKind` over mathematical strings.
pub enum Shape {
    FenceStart(Seq<char>),
    Text(Seq<char>),
    CodeBlockEnd,
    Other,
}

impl View for EventKind {
    type V = Shape;

    open spec fn view(&self) -> Shape {
        match self {
            EventKind::FenceStart(lang) => Shape::FenceStart(lang@),
            EventKind::Text(text) => Shape::Text(text@),
            EventKind::CodeBlockEnd => Shape::CodeBlockEnd,
            EventKind::Other => Shape::Other,
        }
    }
}

/// The events that the pulldown-cmark parser yields, in order, for the
/// document `input` with the extensions `ext` switched on.
pub uninterp spec fn markdown_events(input: Seq<char>, ext: Extensions) -> Seq<Event<'static>>;

/// The shape of one parser event: `FenceStart(lang)` for
/// `Start(Tag::CodeBlock(CodeBlockKind::Fenced(lang)))`, `Text(t)` for
/// `Text(t)`, `CodeBlockEnd` for `End(TagEnd::CodeBlock)`, `Other` for every
/// other event.
pub uninterp spec fn event_shape(event: Event<'static>) -> Shape;

/// The `Event::Html` event that carries `html` as literal HTML.
pub uninterp spec fn raw_html_event(html: Seq<char>) -> Event<'static>;

/// The HTML that pulldown-cmark's writer produces for a sequence of events.
pub uninterp spec fn html_of_events(events: Seq<Event<'static>>) -> Seq<char>;

/// Runs `Parser::new_ext` over `input` with exactly the options that `ext`
/// switches on, and collects the events the parser yields. The parser is a
/// pure function of the text and the options; the contract names its result.
#[verifier::external_body]
pub(crate) fn parse_markdown<'a>(input: &'a str, ext: Extensions) -> (events: Vec<Event<'a>>)
    ensures
        events@ == markdown_events(input@, ext),
{
    let mut options = Options::empty();
    options.set(Options::ENABLE_STRIKETHROUGH, ext.strikethrough);
    options.set(Options::ENABLE_FOOTNOTES, ext.footnotes);
    options.set(Options::ENABLE_TABLES, ext.tables);
    options.set(Options::ENABLE_TASKLISTS, ext.tasklists);
    Parser::new_ext(input, options).collect()
}

/// Tells the variants of a pulldown-cmark `Event` apart, copying the
/// language tag or the text out of the two variants that carry one.
#[verifier::external_body]
pub(crate) fn classify(event: &Event<'_>) -> (kind: EventKind)
    ensures
        kind@ == event_shape(*event),
{
    match event {
        Event::Start(Tag::CodeBlock(CodeBlockKind::Fenced(lang))) => EventKind::FenceStart(lang.to_string()),
        Event::Text(text) => EventKind::Text(text.to_string()),
        Event::End(TagEnd::CodeBlock) => EventKind::CodeBlockEnd,
        _ => EventKind::Other,
    }
}

/// Builds `Event::Html` around an owned string. Such an event is neither
/// the start of a code block, nor text, nor the end of a code block.
#[verifier::external_body]
pub(crate) fn html_event(html: String) -> (event: Event<'static>)
    ensures
        event == raw_html_event(html@),
        event_shape(event) is Other,
{
    Event::Html(html.into())
}

/// Serialises events with `pulldown_cmark::html::push_html` into a fresh
/// string. The writer keeps no state between calls, so its output is a
/// function of the event sequence.
#[verifier::external_body]
pub(crate) fn events_to_html(events: Vec<Event<'_>>) -> (html: String)
    ensures
        html@ == html_of_events(events@),
{
    let mut html = String::new();
    pulldown_cmark::html::push_html(&mut html, events.into_iter());
    html
}

} // verus!
