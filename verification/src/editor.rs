use crate::error::Failure;
use crate::highlight::Highlighting;
use crate::render::render_markdown_to_html;
use crate::text::{chars_of, string_from_chars};
use vstd::prelude::*;

verus! {

/// A key, as far as the editor tells keys apart.
#[derive(Clone, Copy, Debug, PartialEq, Eq, Structural)]
pub enum Key {
    Escape,
    Enter,
    /// A printable character.
    Char(char),
    Backspace,
    Left,
    Right,
    /// Any other key.
    Other,
}

/// Whether a key went down, is held, or went up.
#[derive(Clone, Copy, Debug, PartialEq, Eq, Structural)]
pub enum KeyKind {
    Press,
    Repeat,
    Release,
}

/// What the terminal reports.
#[derive(Clone, Copy, Debug, PartialEq, Eq, Structural)]
pub enum TermEvent {
    Key { key: Key, kind: KeyKind },
    /// Anything that is not a key: mouse, resize, focus, paste.
    Other,
}

/// The two states of an editing session.
#[derive(Clone, Copy, Debug, PartialEq, Eq, Structural)]
pub enum Mode {
    Running,
    Exited,
}

/// The editor as a mathematical value.
pub struct EditorState {
    /// The document, one entry per character.
    pub text: Seq<char>,
    /// The offset into `text` at which the next character goes in.
    pub cursor: int,
    pub mode: Mode,
}

impl EditorState {
    /// The state an editing session starts in for a document: the cursor
    /// stands behind its last character.
    pub open spec fn start(text: Seq<char>) -> EditorState {
        EditorState { text, cursor: text.len() as int, mode: Mode::Running }
    }

    /// The cursor is neither before the text nor beyond its end.
    pub open spec fn in_bounds(self) -> bool {
        0 <= self.cursor <= self.text.len()
    }

    /// `c` goes in at the cursor, and the cursor moves behind it.
    pub open spec fn insert(self, c: char) -> EditorState {
        EditorState { text: self.text.insert(self.cursor, c), cursor: self.cursor + 1, mode: self.mode }
    }

    /// The state after a key press. Once the editor has exited, keys do
    /// nothing.
    pub open spec fn press(self, key: Key) -> EditorState {
        if self.mode is Exited {
            self
        } else {
            match key {
                Key::Escape => EditorState { text: self.text, cursor: self.cursor, mode: Mode::Exited },
                Key::Enter => self.insert('\n'),
                Key::Char(c) => self.insert(c),
                Key::Backspace => if self.cursor > 0 {
                    EditorState {
                        text: self.text.remove(self.cursor - 1),
                        cursor: self.cursor - 1,
                        mode: self.mode,
                    }
                } else {
                    self
                },
                Key::Left => if self.cursor > 0 {
                    EditorState { text: self.text, cursor: self.cursor - 1, mode: self.mode }
                } else {
                    self
                },
                Key::Right => if self.cursor < self.text.len() {
                    EditorState { text: self.text, cursor: self.cursor + 1, mode: self.mode }
                } else {
                    self
                },
                Key::Other => self,
            }
        }
    }

    /// The state after a terminal event: only the press of a key counts.
    pub open spec fn handle(self, event: TermEvent) -> EditorState {
        match event {
            TermEvent::Key { key, kind: KeyKind::Press } => self.press(key),
            _ => self,
        }
    }

    /// The state after a sequence of key presses, first to last.
    pub open spec fn press_all(self, keys: Seq<Key>) -> EditorState
        decreases keys.len(),
    {
        if keys.len() == 0 {
            self
        } else {
            self.press_all(keys.drop_last()).press(keys.last())
        }
    }
}

/// No key press moves the cursor out of the text.
pub proof fn lemma_press_keeps_cursor_in_bounds(state: EditorState, key: Key)
    requires
        state.in_bounds(),
    ensures
        state.press(key).in_bounds(),
{
}

/// From a state with the cursor inside the text, no sequence of key presses
/// moves it out.
pub proof fn lemma_keys_keep_cursor_in_bounds(state: EditorState, keys: Seq<Key>)
    requires
        state.in_bounds(),
    ensures
        state.press_all(keys).in_bounds(),
    decreases keys.len(),
{
    if keys.len() > 0 {
        lemma_keys_keep_cursor_in_bounds(state, keys.drop_last());
        lemma_press_keeps_cursor_in_bounds(state.press_all(keys.drop_last()), keys.last());
    }
}

/// Starting from an empty buffer, the cursor is within the text after every
/// key of any sequence of key presses.
pub proof fn lemma_cursor_never_leaves_text(keys: Seq<Key>)
    ensures
        forall|n: int|
            0 <= n <= keys.len() ==> (#[trigger] EditorState::start(Seq::empty()).press_all(
                keys.take(n),
            )).in_bounds(),
{
    assert forall|n: int| 0 <= n <= keys.len() implies (#[trigger] EditorState::start(Seq::empty()).press_all(
        keys.take(n),
    )).in_bounds() by {
        lemma_keys_keep_cursor_in_bounds(EditorState::start(Seq::empty()), keys.take(n));
    }
}

/// What the preview pane shows for a rendering: its HTML, or nothing when
/// rendering failed.
pub open spec fn preview_of(rendering: Result<Seq<char>, Failure>) -> Seq<char> {
    match rendering {
        Ok(html) => html,
        Err(_) => Seq::empty(),
    }
}

/// One of the two panes of the screen.
#[derive(Debug)]
pub struct Pane {
    /// The title on the border of the pane.
    pub title: String,
    /// The text shown inside it.
    pub body: String,
    /// The share of the screen's width that the pane takes, in percent.
    pub percent: u16,
}

/// What is drawn before each key is read: two panes side by side.
#[derive(Debug)]
pub struct Frame {
    /// The raw text.
    pub left: Pane,
    /// The rendered HTML, as text.
    pub right: Pane,
}

/// A text buffer with a cursor, edited one key at a time.
pub struct Editor {
    text: Vec<char>,
    cursor: usize,
    mode: Mode,
}

impl View for Editor {
    type V = EditorState;

    closed spec fn view(&self) -> EditorState {
        EditorState { text: self.text@, cursor: self.cursor as int, mode: self.mode }
    }
}

impl Editor {
    #[verifier::type_invariant]
    spec fn cursor_in_text(self) -> bool {
        self.cursor <= self.text.len()
    }

    /// An editor on `initial`, or on an empty buffer when there is none,
    /// running, with the cursor at the end.
    pub fn start(initial: Option<&str>) -> (editor: Self)
        ensures
            editor@ == EditorState::start(
                match initial {
                    Some(text) => text@,
                    None => Seq::empty(),
                },
            ),
            editor@.in_bounds(),
    {
        let text = match initial {
            Some(text) => chars_of(text),
            None => Vec::new(),
        };
        let cursor = text.len();
        Editor { text, cursor, mode: Mode::Running }
    }

    /// The cursor's offset, in characters from the start of the text.
    pub fn cursor(&self) -> (cursor: usize)
        ensures
            cursor == self@.cursor,
            cursor <= self@.text.len(),
    {
        proof {
            use_type_invariant(self);
        }
        self.cursor
    }

    /// The text of the buffer.
    pub fn text(&self) -> (text: String)
        ensures
            text@ == self@.text,
    {
        string_from_chars(&self.text)
    }

    /// Whether the editor is running or has exited.
    pub fn mode(&self) -> (mode: Mode)
        ensures
            mode == self@.mode,
    {
        self.mode
    }

    /// Whether another event is to be read.
    pub fn is_running(&self) -> (running: bool)
        ensures
            running == (self@.mode is Running),
    {
        match self.mode {
            Mode::Running => true,
            Mode::Exited => false,
        }
    }

    /// The editor with `c` put in at the cursor.
    fn insert(self, c: char) -> (next: Self)
        ensures
            next@ == self@.insert(c),
    {
        proof {
            use_type_invariant(&self);
        }
        let Editor { mut text, cursor, mode } = self;
        text.insert(cursor, c);
        assert(cursor < text.len());
        Editor { text, cursor: cursor + 1, mode }
    }

    /// The editor after one key press.
    pub fn press(self, key: Key) -> (next: Self)
        ensures
            next@ == self@.press(key),
            next@.in_bounds(),
    {
        proof {
            use_type_invariant(&self);
        }
        if !self.is_running() {
            return self;
        }
        let next = match key {
            Key::Escape => Editor { text: self.text, cursor: self.cursor, mode: Mode::Exited },
            Key::Enter => self.insert('\n'),
            Key::Char(c) => self.insert(c),
            Key::Backspace => {
                if self.cursor > 0 {
                    let Editor { mut text, cursor, mode } = self;
                    text.remove(cursor - 1);
                    Editor { text, cursor: cursor - 1, mode }
                } else {
                    self
                }
            },
            Key::Left => {
                if self.cursor > 0 {
                    Editor { text: self.text, cursor: self.cursor - 1, mode: self.mode }
                } else {
                    self
                }
            },
            Key::Right => {
                if self.cursor < self.text.len() {
                    Editor { text: self.text, cursor: self.cursor + 1, mode: self.mode }
                } else {
                    self
                }
            },
            Key::Other => self,
        };
        proof {
            use_type_invariant(&next);
        }
        next
    }

    /// The editor after one terminal event.
    pub fn handle(self, event: TermEvent) -> (next: Self)
        ensures
            next@ == self@.handle(event),
            next@.in_bounds(),
    {
        proof {
            use_type_invariant(&self);
        }
        match event {
            TermEvent::Key { key, kind: KeyKind::Press } => self.press(key),
            _ => self,
        }
    }

    /// The editor after a sequence of key presses, first to last.
    pub fn press_all(self, keys: &Vec<Key>) -> (next: Self)
        ensures
            next@ == self@.press_all(keys@),
            next@.in_bounds(),
    {
        proof {
            use_type_invariant(&self);
        }
        let ghost before = self@;
        let mut editor = self;
        let mut i: usize = 0;
        while i < keys.len()
            invariant
                i <= keys.len(),
                editor@ == before.press_all(keys@.take(i as int)),
                editor@.in_bounds(),
            decreases keys.len() - i,
        {
            assert(keys@.take(i + 1).drop_last() =~= keys@.take(i as int));
            editor = editor.press(keys[i]);
            i += 1;
        }
        assert(keys@.take(i as int) =~= keys@);
        editor
    }

    /// The rendered preview of the buffer: the HTML of its text, or an empty
    /// preview when rendering fails.
    pub fn preview(&self, highlighting: &Highlighting) -> (html: String)
        ensures
            html@ == preview_of(highlighting.rendered(self@.text)),
    {
        let text = self.text();
        match render_markdown_to_html(text.as_str(), highlighting) {
            Ok(html) => html,
            Err(_) => String::new(),
        }
    }

    /// What to draw: the text on the left and its preview, rendered afresh,
    /// on the right, each on half of the screen.
    pub fn frame(&self, highlighting: &Highlighting) -> (frame: Frame)
        ensures
            frame.left.title@ == "Editor"@,
            frame.left.body@ == self@.text,
            frame.left.percent == 50,
            frame.right.title@ == "Preview"@,
            frame.right.body@ == preview_of(highlighting.rendered(self@.text)),
            frame.right.percent == 50,
    {
        Frame {
            left: Pane { title: "Editor".to_string(), body: self.text(), percent: 50 },
            right: Pane { title: "Preview".to_string(), body: self.preview(highlighting), percent: 50 },
        }
    }
}

} // verus!
