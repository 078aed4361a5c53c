use crate::error::{outcome, Failure, RenderError};
use crate::highlight::Highlighting;
use crate::markdown::{
    classify, event_shape, events_to_html, html_event, html_of_events, markdown_events, parse_markdown,
    raw_html_event, EventKind, Extensions, Shape,
};
use pulldown_cmark::Event;
use vstd::prelude::*;
use vstd::string::StringExecFns;

verus! {

/// A fenced code block that has been entered and not left yet.
pub struct Fence {
    /// The language tag of the block.
    pub lang: Seq<char>,
    /// The text of the block read so far.
    pub code: Seq<char>,
}

/// What happens to one event of the stream.
#[derive(Debug)]
pub enum Routing {
    /// Nothing is written for it.
    Skip,
    /// It is written as it is.
    Pass,
    /// The code block that it ends is written in its place, highlighted.
    Highlight { lang: String, code: String },
}

/// `Routing` over mathematical strings.
pub enum Route {
    Skip,
    Pass,
    Highlight { lang: Seq<char>, code: Seq<char> },
}

impl View for Routing {
    type V = Route;

    open spec fn view(&self) -> Route {
        match self {
            Routing::Skip => Route::Skip,
            Routing::Pass => Route::Pass,
            Routing::Highlight { lang, code } => Route::Highlight { lang: lang@, code: code@ },
        }
    }
}

/// The effect of an event of shape `shape` while inside `fence`: the start
/// of a fenced code block opens a fence, whatever was open, and is skipped;
/// inside a fence, text is collected and skipped, and the end of the code
/// block closes the fence and has the collected text highlighted; every
/// other event passes.
pub open spec fn route(fence: Option<Fence>, shape: Shape) -> (Option<Fence>, Route) {
    match (shape, fence) {
        (Shape::FenceStart(lang), _) => (Some(Fence { lang, code: Seq::empty() }), Route::Skip),
        (Shape::Text(text), Some(open)) => (Some(Fence { lang: open.lang, code: open.code + text }), Route::Skip),
        (Shape::CodeBlockEnd, Some(open)) => (None, Route::Highlight { lang: open.lang, code: open.code }),
        _ => (fence, Route::Pass),
    }
}

/// Follows an event stream in and out of fenced code blocks and collects
/// the text of the block it is in.
#[derive(Debug)]
pub struct FenceTracker {
    in_code_block: bool,
    code_lang: String,
    code_content: String,
}

impl View for FenceTracker {
    type V = Option<Fence>;

    closed spec fn view(&self) -> Option<Fence> {
        if self.in_code_block {
            Some(Fence { lang: self.code_lang@, code: self.code_content@ })
        } else {
            None
        }
    }
}

impl FenceTracker {
    /// A tracker outside any code block.
    pub fn new() -> (tracker: Self)
        ensures
            tracker@ is None,
    {
        FenceTracker { in_code_block: false, code_lang: String::new(), code_content: String::new() }
    }

    /// Takes the next event of the stream, by its kind, and says what
    /// happens to it.
    pub fn route(self, kind: EventKind) -> (r: (Self, Routing))
        ensures
            (r.0@, r.1@) == route(self@, kind@),
    {
        match kind {
            EventKind::FenceStart(lang) => (
                FenceTracker { in_code_block: true, code_lang: lang, code_content: String::new() },
                Routing::Skip,
            ),
            EventKind::Text(text) => {
                if self.in_code_block {
                    let FenceTracker { in_code_block, code_lang, mut code_content } = self;
                    code_content.append(text.as_str());
                    (FenceTracker { in_code_block, code_lang, code_content }, Routing::Skip)
                } else {
                    (self, Routing::Pass)
                }
            },
            EventKind::CodeBlockEnd => {
                if self.in_code_block {
                    (FenceTracker::new(), Routing::Highlight { lang: self.code_lang, code: self.code_content })
                } else {
                    (self, Routing::Pass)
                }
            },
            EventKind::Other => (self, Routing::Pass),
        }
    }
}

/// Where rewriting an event stream stands.
pub struct Rewrite {
    /// The fenced code block that the stream is inside of, if any.
    pub fence: Option<Fence>,
    /// The events written so far.
    pub out: Seq<Event<'static>>,
}

/// The effect of one event on the rewriting: a skipped event writes
/// nothing, a passing event is written as it is, and for the end of a
/// fenced block one literal-HTML event with the highlighted text of the
/// block is written.
pub open spec fn rewrite_step(hl: Highlighting, at: Rewrite, event: Event<'static>) -> Result<Rewrite, Failure> {
    let (fence, routing) = route(at.fence, event_shape(event));
    match routing {
        Route::Skip => Ok(Rewrite { fence, out: at.out }),
        Route::Pass => Ok(Rewrite { fence, out: at.out.push(event) }),
        Route::Highlight { lang, code } => match hl.block_html(lang, code) {
            Ok(html) => Ok(Rewrite { fence, out: at.out.push(raw_html_event(html)) }),
            Err(failure) => Err(failure),
        },
    }
}

/// Rewriting the first `n` events of a stream, from outside any fence.
pub open spec fn rewrite_prefix(hl: Highlighting, events: Seq<Event<'static>>, n: nat) -> Result<Rewrite, Failure>
    decreases n,
{
    if n == 0 {
        Ok(Rewrite { fence: None, out: Seq::empty() })
    } else {
        match rewrite_prefix(hl, events, (n - 1) as nat) {
            Ok(at) => rewrite_step(hl, at, events[n - 1]),
            Err(failure) => Err(failure),
        }
    }
}

/// The event stream with every fenced code block replaced by its
/// highlighted HTML, or the step at which the first block failed.
pub open spec fn rewritten(hl: Highlighting, events: Seq<Event<'static>>) -> Result<Seq<Event<'static>>, Failure> {
    match rewrite_prefix(hl, events, events.len()) {
        Ok(at) => Ok(at.out),
        Err(failure) => Err(failure),
    }
}

/// Whether an event stream holds the start of a fenced code block.
pub open spec fn has_fence(events: Seq<Event<'static>>) -> bool {
    exists|i: int| 0 <= i < events.len() && event_shape(#[trigger] events[i]) is FenceStart
}

/// Once rewriting a prefix of the events has failed, every longer prefix
/// fails in the same way.
pub proof fn lemma_rewrite_failure_stays(hl: Highlighting, events: Seq<Event<'static>>, n: nat, m: nat)
    requires
        n <= m,
        rewrite_prefix(hl, events, n) is Err,
    ensures
        rewrite_prefix(hl, events, m) == rewrite_prefix(hl, events, n),
    decreases m,
{
    if n < m {
        lemma_rewrite_failure_stays(hl, events, n, (m - 1) as nat);
    }
}

/// Replaces every fenced code block of an event stream by one literal-HTML
/// event that holds its highlighted text, and passes all other events on
/// unchanged, so that no start of a fenced code block is left in the stream.
/// Fails when a block cannot be highlighted, at the first such block.
pub fn rewrite_events<'a>(highlighting: &Highlighting, events: Vec<Event<'a>>) -> (r: Result<
    Vec<Event<'a>>,
    RenderError,
>)
    ensures
        r matches Ok(out) ==> rewritten(*highlighting, events@) matches Ok(written) && written == out@,
        r matches Ok(out) ==> !has_fence(out@),
        r matches Err(e) ==> rewritten(*highlighting, events@) matches Err(failure) && failure == e.kind,
{
    let mut tracker = FenceTracker::new();
    let mut out: Vec<Event<'a>> = Vec::new();
    for event in it: events
        invariant
            it.seq() == events@,
            rewrite_prefix(*highlighting, events@, it.index() as nat) matches Ok(at) && at.out == out@
                && at.fence == tracker@,
            !has_fence(out@),
    {
        proof {
            if rewrite_prefix(*highlighting, events@, (it.index() + 1) as nat) is Err {
                lemma_rewrite_failure_stays(*highlighting, events@, (it.index() + 1) as nat, events@.len());
            }
        }
        let (next, routing) = tracker.route(classify(&event));
        tracker = next;
        match routing {
            Routing::Skip => {},
            Routing::Pass => {
                out.push(event);
            },
            Routing::Highlight { lang, code } => {
                let highlighted = match highlighting.highlight_block(lang.as_str(), code.as_str()) {
                    Ok(highlighted) => highlighted,
                    Err(e) => {
                        return Err(e);
                    },
                };
                out.push(html_event(highlighted));
            },
        }
    }
    Ok(out)
}

/// The extensions a document is rendered with: strikethrough, footnotes,
/// tables and task lists.
pub open spec fn render_extensions() -> Extensions {
    Extensions { strikethrough: true, footnotes: true, tables: true, tasklists: true }
}

impl Highlighting {
    /// The HTML of a Markdown document: its events, fenced code blocks
    /// replaced by their highlighted text, written as HTML.
    pub open spec fn rendered(self, input: Seq<char>) -> Result<Seq<char>, Failure> {
        match rewritten(self, markdown_events(input, render_extensions())) {
            Ok(events) => Ok(html_of_events(events)),
            Err(failure) => Err(failure),
        }
    }
}

/// Rewriting a prefix of a stream without fenced code blocks writes that
/// prefix and opens no fence.
pub proof fn lemma_prefix_without_fence(hl: Highlighting, events: Seq<Event<'static>>, n: nat)
    requires
        !has_fence(events),
        n <= events.len(),
    ensures
        rewrite_prefix(hl, events, n) == Ok::<Rewrite, Failure>(
            Rewrite { fence: None, out: events.take(n as int) },
        ),
    decreases n,
{
    if n > 0 {
        lemma_prefix_without_fence(hl, events, (n - 1) as nat);
        let last = events[n - 1];
        assert(!(event_shape(last) is FenceStart));
        assert(events.take(n - 1).push(last) =~= events.take(n as int));
    } else {
        assert(events.take(0) =~= Seq::empty());
    }
}

/// A document in which the parser finds no fenced code block renders to
/// exactly what the Markdown-to-HTML conversion gives for it, with
/// strikethrough, footnotes, tables and task lists switched on; the
/// highlighter has no part in it.
pub proof fn lemma_document_without_fence(hl: Highlighting, input: Seq<char>)
    requires
        !has_fence(markdown_events(input, render_extensions())),
    ensures
        hl.rendered(input) == Ok::<Seq<char>, Failure>(
            html_of_events(markdown_events(input, render_extensions())),
        ),
{
    let events = markdown_events(input, render_extensions());
    lemma_prefix_without_fence(hl, events, events.len());
    assert(events.take(events.len() as int) =~= events);
}

/// Rendering is a function of the document and the highlighting context:
/// two renderings of the same text give the same HTML, character for
/// character, or fail at the same step.
pub proof fn lemma_render_is_pure(
    hl: Highlighting,
    a: Seq<char>,
    first: Result<String, RenderError>,
    b: Seq<char>,
    second: Result<String, RenderError>,
)
    requires
        a == b,
        outcome(first) == hl.rendered(a),
        outcome(second) == hl.rendered(b),
    ensures
        outcome(first) == outcome(second),
        first matches Ok(x) ==> second matches Ok(y) && x@ == y@,
        first is Err <==> second is Err,
{
}

/// Renders a Markdown document to HTML, with fenced code blocks
/// syntax-highlighted by their language tag.
pub fn render_markdown_to_html(input: &str, highlighting: &Highlighting) -> (r: Result<String, RenderError>)
    ensures
        outcome(r) == highlighting.rendered(input@),
{
    let extensions = Extensions { strikethrough: true, footnotes: true, tables: true, tasklists: true };
    let parsed = parse_markdown(input, extensions);
    match rewrite_events(highlighting, parsed) {
        Ok(events) => Ok(events_to_html(events)),
        Err(e) => Err(e),
    }
}

/// PDF output is not supported: nothing is written, and the call reports
/// success.
pub fn render_to_pdf(_input: &str, _output_path: &str) -> (r: Result<(), RenderError>)
    ensures
        r is Ok,
{
    Ok(())
}

} // verus!
