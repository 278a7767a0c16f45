use vstd::prelude::*;
use iced::widget::text_editor;

verus! {

#[verifier::external_type_specification]
#[verifier::external_body]
pub struct ExAction(text_editor::Action);

/// The editable text with its cursor: iced's text-editor content, which the
/// text area draws and every gesture in it edits.
#[verifier::external_body]
pub struct TextBuffer {
    /// The content the text area is drawn from.
    pub content: text_editor::Content,
}

/// The text that `b` holds, as iced's `Content::text` reports it.
pub uninterp spec fn buffer_text(b: TextBuffer) -> Seq<char>;

/// The cursor of `b`, zero-based: the line, and the byte index within it.
pub uninterp spec fn buffer_cursor(b: TextBuffer) -> (nat, nat);

/// The text that a buffer loaded with `t` holds.
pub uninterp spec fn loaded_text(t: Seq<char>) -> Seq<char>;

impl TextBuffer {
    /// Relies on iced's `text_editor::Content::with_text`: the text it holds
    /// depends on `text` alone, and cosmic-text's `Editor::new` puts the cursor
    /// at `Cursor::default()`, line 0, index 0.
    #[verifier::external_body]
    pub fn with_text(text: &str) -> (r: TextBuffer)
        ensures
            buffer_text(r) == loaded_text(text@),
            buffer_cursor(r) == (0nat, 0nat),
    {
        TextBuffer { content: text_editor::Content::with_text(text) }
    }

    /// An empty buffer.
    pub fn new() -> (r: TextBuffer)
        ensures
            buffer_text(r) == loaded_text(Seq::empty()),
            buffer_cursor(r) == (0nat, 0nat),
    {
        let r = TextBuffer::with_text("");
        proof {
            reveal_strlit("");
        }
        assert(""@ =~= Seq::<char>::empty());
        r
    }

    /// Relies on iced's `text_editor::Content::perform`: applies one gesture
    /// of the text area (a move, a selection, an edit, a click, a scroll).
    #[verifier::external_body]
    pub fn perform(&mut self, action: text_editor::Action) {
        self.content.perform(action)
    }

    /// Relies on iced's `text_editor::Content::text`: the lines joined with
    /// `'\n'`, and a `'\n'` added at the end when the last line has none.
    #[verifier::external_body]
    pub fn text(&self) -> (r: String)
        ensures
            r@ == buffer_text(*self),
            r@.len() > 0,
            r@.last() == '\n',
    {
        self.content.text()
    }

    /// Relies on iced's `text_editor::Content::cursor_position`: the zero-based
    /// line and byte index of the cursor.
    #[verifier::external_body]
    pub fn cursor_position(&self) -> (r: (usize, usize))
        ensures
            (r.0 as nat, r.1 as nat) == buffer_cursor(*self),
    {
        self.content.cursor_position()
    }
}

} // verus!
