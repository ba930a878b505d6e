//! Focus state machine: routes key input to one of three UI regions.

use vstd::prelude::*;

verus! {

/// The UI region that currently receives non-global key input.
#[derive(Copy, Clone, PartialEq, Eq, Structural, Debug)]
pub enum AppFocus {
    Conversation,
    Messages,
    Prompt,
}

impl AppFocus {
    /// The region reached by cycling forward once.
    pub open spec fn spec_next(self) -> AppFocus {
        match self {
            AppFocus::Conversation => AppFocus::Messages,
            AppFocus::Messages => AppFocus::Prompt,
            AppFocus::Prompt => AppFocus::Conversation,
        }
    }

    /// The region reached by cycling backward once.
    pub open spec fn spec_previous(self) -> AppFocus {
        match self {
            AppFocus::Conversation => AppFocus::Prompt,
            AppFocus::Messages => AppFocus::Conversation,
            AppFocus::Prompt => AppFocus::Messages,
        }
    }

    /// Cycle forward: conversation list, transcript, prompt, and around.
    /// Cycling backward afterwards returns to the starting region.
    pub fn next(&self) -> (r: AppFocus)
        ensures
            r == self.spec_next(),
            r.spec_previous() == *self,
    {
        match self {
            AppFocus::Conversation => AppFocus::Messages,
            AppFocus::Messages => AppFocus::Prompt,
            AppFocus::Prompt => AppFocus::Conversation,
        }
    }

    /// Cycle backward, the exact inverse of `next`.
    pub fn previous(&self) -> (r: AppFocus)
        ensures
            r == self.spec_previous(),
            r.spec_next() == *self,
    {
        match self {
            AppFocus::Conversation => AppFocus::Prompt,
            AppFocus::Messages => AppFocus::Conversation,
            AppFocus::Prompt => AppFocus::Messages,
        }
    }
}

impl Default for AppFocus {
    /// Key input initially goes to the conversation list.
    fn default() -> (r: Self)
        ensures
            r == AppFocus::Conversation,
    {
        AppFocus::Conversation
    }
}

} // verus!
