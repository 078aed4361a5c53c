use crate::error::{Failure, RenderError};
use crate::highlight::Highlighting;
use crate::render::render_markdown_to_html;
use vstd::prelude::*;
use vstd::string::StringExecFns;

verus! {

/// The file that every re-rendering is written to.
pub const PREVIEW_PATH: &'static str = "preview.html";

/// The kind of change that a file watcher reports for a path.
#[derive(Clone, Copy, Debug, PartialEq, Eq, Structural)]
pub enum ChangeKind {
    Any,
    Access,
    Create,
    Modify,
    Remove,
    Other,
}

/// What the watcher's queue hands over.
#[derive(Debug)]
pub enum WatchEvent {
    /// The watched file was touched in some way.
    Change(ChangeKind),
    /// The watcher reports an error, described by the text.
    WatchError(String),
    /// The queue itself failed, as described by the text.
    ChannelError(String),
}

/// What to do about an event of the watcher.
#[derive(Debug)]
pub enum WatchAction {
    /// Read the file, render it and show the preview.
    Rerender,
    /// Nothing.
    Ignore,
    /// Print the line and go on watching.
    Log(String),
}

/// `WatchAction` over mathematical strings.
pub enum Reaction {
    Rerender,
    Ignore,
    Log(Seq<char>),
}

impl View for WatchAction {
    type V = Reaction;

    open spec fn view(&self) -> Reaction {
        match self {
            WatchAction::Rerender => Reaction::Rerender,
            WatchAction::Ignore => Reaction::Ignore,
            WatchAction::Log(line) => Reaction::Log(line@),
        }
    }
}

/// Only a modification re-renders; other changes are passed over; errors of
/// the watcher and of its queue are logged, and watching goes on.
pub open spec fn reaction(event: WatchEvent) -> Reaction {
    match event {
        WatchEvent::Change(ChangeKind::Modify) => Reaction::Rerender,
        WatchEvent::Change(_) => Reaction::Ignore,
        WatchEvent::WatchError(detail) => Reaction::Log("Watch error: "@ + detail@),
        WatchEvent::ChannelError(detail) => Reaction::Log("Channel error: "@ + detail@),
    }
}

/// Decides what the watch loop does about one event. No event ends the
/// loop.
pub fn on_watch_event(event: WatchEvent) -> (action: WatchAction)
    ensures
        action@ == reaction(event),
{
    match event {
        WatchEvent::Change(kind) => match kind {
            ChangeKind::Modify => WatchAction::Rerender,
            _ => WatchAction::Ignore,
        },
        WatchEvent::WatchError(detail) => {
            let mut line = "Watch error: ".to_string();
            line.append(detail.as_str());
            WatchAction::Log(line)
        },
        WatchEvent::ChannelError(detail) => {
            let mut line = "Channel error: ".to_string();
            line.append(detail.as_str());
            WatchAction::Log(line)
        },
    }
}

/// A rendered preview, ready to be written and shown.
#[derive(Debug)]
pub struct Preview {
    /// Where the HTML goes.
    pub path: String,
    pub html: String,
    /// The line that announces the re-rendering.
    pub notice: String,
}

/// Renders the new content of the watched file for the preview.
pub fn render_preview(markdown: &str, highlighting: &Highlighting) -> (r: Result<Preview, RenderError>)
    ensures
        match r {
            Ok(preview) => highlighting.rendered(markdown@) == Ok::<Seq<char>, Failure>(preview.html@)
                && preview.path@ == PREVIEW_PATH@ && preview.notice@ == "File changed, re-rendered to "@
                + PREVIEW_PATH@,
            Err(e) => highlighting.rendered(markdown@) == Err::<Seq<char>, Failure>(e.kind),
        },
{
    match render_markdown_to_html(markdown, highlighting) {
        Ok(html) => {
            let mut notice = "File changed, re-rendered to ".to_string();
            notice.append(PREVIEW_PATH);
            Ok(Preview { path: PREVIEW_PATH.to_string(), html, notice })
        },
        Err(e) => Err(e),
    }
}

} // verus!
