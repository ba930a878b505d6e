//! Events merged by the dispatch loop, and the key model that handlers
//! route on.

use vstd::prelude::*;

use crate::models::{Message, MessageV};

verus! {

/// A key press as the dispatcher sees it: the decoded key plus the two
/// modifiers the handlers route on.
#[derive(Copy, Clone, PartialEq, Eq, Structural, Debug)]
pub enum KeyCode {
    Char(char),
    Enter,
    Up,
    Down,
    Esc,
    Tab,
    BackTab,
    Delete,
    Backspace,
    Other,
}

/// One key press with its modifiers.
#[derive(Copy, Clone, PartialEq, Eq, Structural, Debug)]
pub struct KeyInput {
    pub code: KeyCode,
    pub ctrl: bool,
    pub shift: bool,
}

/// Whether a worker delta is a mid-stream update or the terminal one.
#[derive(Copy, Clone, PartialEq, Eq, Structural, Debug)]
pub enum InferenceType {
    Streaming,
    NonStreaming,
}

/// Everything the dispatch loop can be woken by.
#[derive(Debug)]
pub enum Event {
    TerminalTick,
    Key(KeyInput),
    Inference(Message, InferenceType),
    ChatBottomScroll,
    PromptTranscription(String),
}

/// Mathematical value of an `Event`.
pub ghost enum EventV {
    TerminalTick,
    Key(KeyInput),
    Inference(MessageV, InferenceType),
    ChatBottomScroll,
    PromptTranscription(Seq<char>),
}

impl View for Event {
    type V = EventV;

    open spec fn view(&self) -> EventV {
        match self {
            Event::TerminalTick => EventV::TerminalTick,
            Event::Key(k) => EventV::Key(*k),
            Event::Inference(m, t) => EventV::Inference(m@, *t),
            Event::ChatBottomScroll => EventV::ChatBottomScroll,
            Event::PromptTranscription(w) => EventV::PromptTranscription(w@),
        }
    }
}

} // verus!
