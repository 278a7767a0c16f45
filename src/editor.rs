use vstd::prelude::*;
use vstd::string::*;
use iced::widget::text_editor;
use crate::buffer::{TextBuffer, buffer_cursor, buffer_text, loaded_text};

verus! {

/// Coarse classification of an operating-system read failure.
#[derive(Clone, Copy, Debug, PartialEq, Eq)]
pub enum IoErrorKind {
    NotFound,
    PermissionDenied,
    Other,
}

/// Why a file did not get loaded.
#[derive(Clone, Copy, Debug, PartialEq, Eq)]
pub enum Error {
    /// The user dismissed the file dialog.
    DialogClosed,
    /// Reading the file failed.
    Io(IoErrorKind),
}

/// An asynchronous follow-up that the event loop performs, each delivering
/// one `Message::FileOpened` back into `Editor::update`.
#[derive(Clone, Debug, PartialEq, Eq)]
pub enum Effect {
    /// Nothing to do.
    Idle,
    /// Show the file dialog; on a choice, read that file.
    PickFile,
    /// Read the file at the given path.
    LoadFile(String),
}

/// An event for the editor's state machine.
#[derive(Debug)]
pub enum Message {
    /// A gesture in the text area.
    Edit(text_editor::Action),
    /// The "Open" control was pressed.
    Open,
    /// A load finished: the path and the file's text, or why it failed.
    FileOpened(Result<(String, String), Error>),
}

/// The path loaded at startup when nothing else is configured.
pub open spec fn default_file_spec() -> Seq<char> {
    "src/main.rs"@
}

/// The path loaded at startup when nothing else is configured, relative to
/// the working directory.
pub fn default_file() -> (r: String)
    ensures
        r@ == default_file_spec(),
{
    String::from_str("src/main.rs")
}

/// The window title.
pub open spec fn title_spec() -> Seq<char> {
    "A cool editor!"@
}

/// What the status bar says of the last failure; empty when there is none.
pub open spec fn error_label_spec(e: Option<Error>) -> Seq<char> {
    match e {
        None => Seq::empty(),
        Some(Error::DialogClosed) => "No file chosen"@,
        Some(Error::Io(IoErrorKind::NotFound)) => "File not found"@,
        Some(Error::Io(IoErrorKind::PermissionDenied)) => "Permission denied"@,
        Some(Error::Io(IoErrorKind::Other)) => "Could not read the file"@,
    }
}

/// The editor: the loaded path, the text buffer, and the last failure.
pub struct Editor {
    pub path: Option<String>,
    pub content: TextBuffer,
    pub error: Option<Error>,
}

/// What the editor holds, as mathematical values.
pub struct EditorView {
    pub path: Option<Seq<char>>,
    pub text: Seq<char>,
    pub cursor: (nat, nat),
    pub error: Option<Error>,
}

/// View of an optional path.
pub open spec fn path_view(p: Option<String>) -> Option<Seq<char>> {
    match p {
        Some(s) => Some(s@),
        None => None,
    }
}

/// The transition: whether message `m` takes state `v` to state `w` with the
/// follow-up effect `eff`. What an edit does to the text is iced's business;
/// the rest is fixed here.
pub open spec fn step(v: EditorView, m: Message, w: EditorView, eff: Effect) -> bool {
    match m {
        Message::Edit(_) => {
            &&& eff == Effect::Idle
            &&& w.path == v.path
            &&& w.error == v.error
        },
        Message::Open => eff == Effect::PickFile && w == v,
        Message::FileOpened(Ok((p, c))) => {
            &&& eff == Effect::Idle
            &&& w == EditorView {
                path: Some(p@),
                text: loaded_text(c@),
                cursor: (0nat, 0nat),
                error: None,
            }
        },
        Message::FileOpened(Err(e)) => eff == Effect::Idle && w == (EditorView {
            error: Some(e),
            ..v
        }),
    }
}

/// What the file dialog leads to: the path to read, or `DialogClosed` when
/// the user dismissed it.
pub open spec fn dialog_spec(choice: Option<String>) -> Result<String, Error> {
    match choice {
        Some(p) => Ok(p),
        None => Err(Error::DialogClosed),
    }
}

/// What a read of `path` reports to the editor.
pub open spec fn load_spec(path: String, read: Result<String, IoErrorKind>) -> Result<
    (String, String),
    Error,
> {
    match read {
        Ok(c) => Ok((path, c)),
        Err(k) => Err(Error::Io(k)),
    }
}

/// Decides what follows the file dialog: the chosen path goes on to be read;
/// a dismissed dialog ends the attempt with `DialogClosed`, nothing read.
pub fn after_dialog(choice: Option<String>) -> (r: Result<String, Error>)
    ensures
        r == dialog_spec(choice),
{
    match choice {
        Some(p) => Ok(p),
        None => Err(Error::DialogClosed),
    }
}

/// Pairs a finished read with its path, keeping the failure's kind as data.
pub fn after_read(path: String, read: Result<String, IoErrorKind>) -> (r: Result<
    (String, String),
    Error,
>)
    ensures
        r == load_spec(path, read),
{
    match read {
        Ok(c) => Ok((path, c)),
        Err(k) => Err(Error::Io(k)),
    }
}

impl Editor {
    pub open spec fn view(&self) -> EditorView {
        EditorView {
            path: path_view(self.path),
            text: buffer_text(self.content),
            cursor: buffer_cursor(self.content),
            error: self.error,
        }
    }

    /// The editor at startup: no path, an empty buffer, no error, and the
    /// effect that loads `default_path`.
    pub fn new(default_path: String) -> (r: (Editor, Effect))
        ensures
            r.0.path.is_none(),
            r.0.error.is_none(),
            buffer_text(r.0.content) == loaded_text(Seq::empty()),
            buffer_cursor(r.0.content) == (0nat, 0nat),
            r.1 == Effect::LoadFile(default_path),
    {
        (
            Editor { path: None, content: TextBuffer::new(), error: None },
            Effect::LoadFile(default_path),
        )
    }

    /// The window title.
    pub fn title(&self) -> (r: String)
        ensures
            r@ == title_spec(),
    {
        String::from_str("A cool editor!")
    }

    /// Processes one message and returns the follow-up effect. An open
    /// request and a failed load leave the buffer itself as it was.
    pub fn update(&mut self, message: Message) -> (eff: Effect)
        ensures
            step(old(self).view(), message, final(self).view(), eff),
            message is Open ==> final(self).content == old(self).content,
            message matches Message::FileOpened(Err(_)) ==> final(self).content == old(
                self,
            ).content,
    {
        match message {
            Message::Edit(a) => {
                self.content.perform(a);
                Effect::Idle
            },
            Message::Open => Effect::PickFile,
            Message::FileOpened(Ok((p, c))) => {
                self.content = TextBuffer::with_text(c.as_str());
                self.path = Some(p);
                self.error = None;
                Effect::Idle
            },
            Message::FileOpened(Err(e)) => {
                self.error = Some(e);
                Effect::Idle
            },
        }
    }

    /// One-based (line, column) of the cursor, as the status bar shows it;
    /// `None` only where a coordinate is `usize::MAX` and has no successor.
    pub fn status_position(&self) -> (r: Option<(usize, usize)>)
        ensures
            ({
                let (line, col) = buffer_cursor(self.content);
                if line < usize::MAX && col < usize::MAX {
                    r == Some(((line + 1) as usize, (col + 1) as usize))
                } else {
                    r is None
                }
            }),
            r matches Some((l, c)) ==> l >= 1 && c >= 1,
    {
        let (line, col) = self.content.cursor_position();
        if line < usize::MAX && col < usize::MAX {
            Some((line + 1, col + 1))
        } else {
            None
        }
    }

    /// The status bar's account of the last failure.
    pub fn error_label(&self) -> (r: String)
        ensures
            r@ == error_label_spec(self.error),
    {
        match self.error {
            None => String::new(),
            Some(Error::DialogClosed) => String::from_str("No file chosen"),
            Some(Error::Io(IoErrorKind::NotFound)) => String::from_str("File not found"),
            Some(Error::Io(IoErrorKind::PermissionDenied)) => String::from_str(
                "Permission denied",
            ),
            Some(Error::Io(IoErrorKind::Other)) => String::from_str("Could not read the file"),
        }
    }

    /// The path label: the loaded path, or empty before any load.
    pub fn path_label(&self) -> (r: String)
        ensures
            self.path matches Some(p) ==> r@ == p@,
            self.path is None ==> r@ == Seq::<char>::empty(),
    {
        match &self.path {
            Some(p) => p.clone(),
            None => String::new(),
        }
    }
}

/// The buffer read back right after a load depends on the loaded text alone:
/// neither the earlier state nor the path changes it, and the cursor is at
/// the start.
pub proof fn lemma_load_round_trip(
    v1: EditorView,
    w1: EditorView,
    e1: Effect,
    v2: EditorView,
    w2: EditorView,
    e2: Effect,
    path1: String,
    path2: String,
    text: String,
)
    requires
        step(v1, Message::FileOpened(load_spec(path1, Ok(text))), w1, e1),
        step(v2, Message::FileOpened(load_spec(path2, Ok(text))), w2, e2),
    ensures
        w1.text == loaded_text(text@),
        w1.text == w2.text,
        w1.cursor == (0nat, 0nat),
{
}

/// Dismissing the file dialog reads nothing, and the message it leads to
/// changes neither the path nor the buffer: it only records `DialogClosed`.
pub proof fn lemma_dismiss_keeps_state(v: EditorView, w: EditorView, eff: Effect)
    requires
        step(v, Message::FileOpened(Err(Error::DialogClosed)), w, eff),
    ensures
        dialog_spec(None) == Err::<String, Error>(Error::DialogClosed),
        w == (EditorView { error: Some(Error::DialogClosed), ..v }),
        eff == Effect::Idle,
{
}

/// A failed read leaves the loaded path and the buffer as they were and
/// records the failure's kind.
pub proof fn lemma_failed_load_keeps_state(
    v: EditorView,
    w: EditorView,
    eff: Effect,
    path: String,
    kind: IoErrorKind,
)
    requires
        step(v, Message::FileOpened(load_spec(path, Err(kind))), w, eff),
    ensures
        w == (EditorView { error: Some(Error::Io(kind)), ..v }),
        eff == Effect::Idle,
{
}

/// An edit changes the state only: it never asks for a follow-up effect.
pub proof fn lemma_edit_has_no_effect(
    v: EditorView,
    w: EditorView,
    eff: Effect,
    a: text_editor::Action,
)
    requires
        step(v, Message::Edit(a), w, eff),
    ensures
        eff == Effect::Idle,
{
}

/// Open, choose file A, open again, choose file B: the editor then holds B's
/// path and text, exactly as if B alone had been loaded; nothing of A stays.
pub proof fn lemma_last_load_wins(
    v0: EditorView,
    v1: EditorView,
    e1: Effect,
    v2: EditorView,
    e2: Effect,
    v3: EditorView,
    e3: Effect,
    v4: EditorView,
    e4: Effect,
    direct: EditorView,
    e_direct: Effect,
    a: String,
    text_a: String,
    b: String,
    text_b: String,
)
    requires
        step(v0, Message::Open, v1, e1),
        step(v1, Message::FileOpened(load_spec(a, Ok(text_a))), v2, e2),
        step(v2, Message::Open, v3, e3),
        step(v3, Message::FileOpened(load_spec(b, Ok(text_b))), v4, e4),
        step(v0, Message::FileOpened(load_spec(b, Ok(text_b))), direct, e_direct),
    ensures
        dialog_spec(Some(a)) == Ok::<String, Error>(a),
        dialog_spec(Some(b)) == Ok::<String, Error>(b),
        e1 == Effect::PickFile,
        e3 == Effect::PickFile,
        v4.path == Some(b@),
        v4.text == loaded_text(text_b@),
        v4 == direct,
{
}

} // verus!
