//! The prompt editor: the text the user is composing for the next
//! submission.

use vstd::prelude::*;

use crate::editor::{apply_key, push_char, spec_edited, spec_trim, trimmed};
use crate::event::KeyInput;

verus! {

/// The prompt input region. Its view is the raw buffer; `get_content`
/// reads it out trimmed.
#[derive(Debug)]
pub struct Prompt {
    buffer: String,
}

impl View for Prompt {
    type V = Seq<char>;

    closed spec fn view(&self) -> Seq<char> {
        self.buffer@
    }
}

impl Default for Prompt {
    /// An empty prompt.
    fn default() -> (r: Self)
        ensures
            r@ == Seq::<char>::empty(),
    {
        Prompt { buffer: String::new() }
    }
}

impl Prompt {
    /// Drop everything typed so far.
    pub fn clear(&mut self)
        ensures
            final(self)@ == Seq::<char>::empty(),
    {
        self.buffer = String::new();
    }

    /// Feed one key to the editor.
    pub fn handle_input(&mut self, key_event: KeyInput)
        ensures
            final(self)@ == spec_edited(old(self)@, key_event),
    {
        apply_key(&mut self.buffer, key_event);
    }

    /// Insert a literal line break (Shift+Enter).
    pub fn new_line(&mut self)
        ensures
            final(self)@ == old(self)@.push('\n'),
    {
        push_char(&mut self.buffer, '\n');
    }

    /// The raw buffer, line breaks included, as the renderer shows it.
    pub fn buffer(&self) -> (r: &String)
        ensures
            r@ == self@,
    {
        &self.buffer
    }

    /// The composed text, trimmed of surrounding whitespace.
    pub fn get_content(&self) -> (r: String)
        ensures
            r@ == spec_trim(self@),
    {
        trimmed(self.buffer.as_str())
    }

    /// Append a transcribed word at the end of the buffer.
    pub fn insert_str(&mut self, word: &str)
        ensures
            final(self)@ == old(self)@ + word@,
    {
        self.buffer.append(word);
    }
}

} // verus!
