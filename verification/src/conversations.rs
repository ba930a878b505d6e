//! Conversation directory: the ordered conversation list with its single
//! selection cursor, and the two modal popups that create and delete
//! conversations.

use vstd::prelude::*;

use crate::editor::{apply_key, spec_edited, spec_trim, trimmed};
use crate::event::KeyInput;
use crate::models::{Conversation, ConversationV};

verus! {

/// Index of the first conversation with the given id, or -1 if none has
/// it.
pub open spec fn first_index_with_id(items: Seq<ConversationV>, id: u32) -> int
    decreases items.len(),
{
    if items.len() == 0 {
        -1
    } else if items.first().id == id {
        0
    } else {
        let rest = first_index_with_id(items.drop_first(), id);
        if rest == -1 {
            -1
        } else {
            rest + 1
        }
    }
}

proof fn lemma_first_index_with_id(items: Seq<ConversationV>, id: u32, i: int)
    requires
        0 <= i <= items.len(),
        forall|k: int| 0 <= k < i ==> items[k].id != id,
        i == items.len() || items[i].id == id,
    ensures
        first_index_with_id(items, id) == if i == items.len() {
            -1int
        } else {
            i
        },
    decreases items.len(),
{
    if items.len() > 0 && i > 0 {
        lemma_first_index_with_id(items.drop_first(), id, i - 1);
    }
}

/// Mathematical value of the conversation directory.
pub ghost struct ConversationsV {
    pub conversations: Seq<ConversationV>,
    pub selected: Option<int>,
}

impl ConversationsV {
    /// The cursor, when set, points at a conversation.
    pub open spec fn wf(self) -> bool {
        match self.selected {
            Some(i) => 0 <= i < self.conversations.len(),
            None => true,
        }
    }

    /// The conversation under the cursor, if the cursor points into the
    /// list.
    pub open spec fn selected_conversation(self) -> Option<ConversationV> {
        match self.selected {
            Some(i) => if 0 <= i < self.conversations.len() {
                Some(self.conversations[i])
            } else {
                None
            },
            None => None,
        }
    }

    /// After one cursor step up: saturating at the first entry; with no
    /// cursor it lands on the first entry.
    pub open spec fn after_up(self) -> ConversationsV {
        if self.conversations.len() == 0 {
            ConversationsV { selected: None, ..self }
        } else {
            match self.selected {
                Some(i) => ConversationsV {
                    selected: Some(if i > 0 {
                        i - 1
                    } else {
                        0int
                    }),
                    ..self
                },
                None => ConversationsV { selected: Some(0int), ..self },
            }
        }
    }

    /// After one cursor step down: saturating at the last entry; with no
    /// cursor it moves as if it had been on the first entry.
    pub open spec fn after_down(self) -> ConversationsV {
        if self.conversations.len() == 0 {
            ConversationsV { selected: None, ..self }
        } else {
            let base = match self.selected {
                Some(i) => i,
                None => 0int,
            };
            ConversationsV {
                selected: Some(
                    if base + 1 < self.conversations.len() {
                        base + 1
                    } else {
                        self.conversations.len() - 1
                    },
                ),
                ..self
            }
        }
    }

    /// After removing the conversation with the given id, if it is listed:
    /// the cursor is cleared, since the list has shifted under it.
    pub open spec fn after_delete(self, id: u32) -> ConversationsV {
        let idx = first_index_with_id(self.conversations, id);
        if idx == -1 {
            self
        } else {
            ConversationsV { conversations: self.conversations.remove(idx), selected: None }
        }
    }
}

/// The ordered conversation list (creation order) plus the selection
/// cursor.
#[derive(Debug)]
pub struct Conversations {
    conversations: Vec<Conversation>,
    selected: Option<usize>,
}

impl View for Conversations {
    type V = ConversationsV;

    closed spec fn view(&self) -> ConversationsV {
        ConversationsV {
            conversations: self.conversations@.map_values(|c: Conversation| c@),
            selected: match self.selected {
                Some(i) => Some(i as int),
                None => None,
            },
        }
    }
}

impl Conversations {
    /// The cursor, when set, points at a conversation.
    pub open spec fn wf(&self) -> bool {
        self@.wf()
    }

    /// An empty directory with the cursor unset.
    pub fn new() -> (r: Conversations)
        ensures
            r@.conversations.len() == 0,
            r@.selected.is_none(),
            r.wf(),
    {
        Conversations { conversations: Vec::new(), selected: None }
    }

    /// Replace the whole list; the cursor survives only if it still points
    /// into it.
    pub fn set_conversations(&mut self, conversations: Vec<Conversation>)
        ensures
            final(self)@.conversations == conversations@.map_values(|c: Conversation| c@),
            final(self)@.selected == match old(self)@.selected {
                Some(i) => if i < conversations@.len() {
                    Some(i)
                } else {
                    None
                },
                None => None::<int>,
            },
            final(self).wf(),
    {
        match self.selected {
            Some(i) => {
                if i >= conversations.len() {
                    self.selected = None;
                }
            },
            None => {},
        }
        self.conversations = conversations;
    }

    /// The conversation under the cursor, if any, as a fresh copy.
    pub fn currently_selected(&self) -> (r: Option<Conversation>)
        requires
            self.wf(),
        ensures
            match r {
                Some(c) => self@.selected_conversation() == Some(c@),
                None => self@.selected_conversation() is None,
            },
    {
        match self.selected {
            Some(i) => Some(self.conversations[i].clone()),
            None => None,
        }
    }

    /// The listed conversations, in creation order.
    pub fn conversations(&self) -> (r: &Vec<Conversation>)
        ensures
            r@.map_values(|c: Conversation| c@) == self@.conversations,
    {
        &self.conversations
    }

    /// The index under the cursor, if any.
    pub fn selected_index(&self) -> (r: Option<usize>)
        ensures
            match r {
                Some(i) => self@.selected == Some(i as int),
                None => self@.selected is None,
            },
    {
        self.selected
    }

    /// Clear the cursor.
    pub fn unselect(&mut self)
        ensures
            final(self)@.conversations == old(self)@.conversations,
            final(self)@.selected.is_none(),
            final(self).wf(),
    {
        self.selected = None;
    }

    /// Append a conversation at the end; the cursor does not move.
    pub fn push(&mut self, conversation: Conversation)
        requires
            old(self).wf(),
        ensures
            final(self)@.conversations == old(self)@.conversations.push(conversation@),
            final(self)@.selected == old(self)@.selected,
            final(self).wf(),
    {
        let ghost pre = self.conversations@.map_values(|c: Conversation| c@);
        self.conversations.push(conversation);
        proof {
            assert(self.conversations@.map_values(|c: Conversation| c@) =~= pre.push(
                self.conversations@.last()@,
            ));
        }
    }

    /// Move the cursor one entry up, saturating at the first entry; with
    /// no cursor it lands on the first entry.
    pub fn up(&mut self)
        requires
            old(self).wf(),
        ensures
            final(self)@ == old(self)@.after_up(),
            final(self).wf(),
    {
        if self.conversations.len() == 0 {
            return ;
        }
        self.selected = match self.selected {
            Some(i) => if i > 0 {
                Some(i - 1)
            } else {
                Some(0)
            },
            None => Some(0),
        };
    }

    /// Move the cursor one entry down, saturating at the last entry; with
    /// no cursor it moves as if it had been on the first entry.
    pub fn down(&mut self)
        requires
            old(self).wf(),
        ensures
            final(self)@ == old(self)@.after_down(),
            final(self).wf(),
    {
        let n = self.conversations.len();
        if n == 0 {
            return ;
        }
        let base = match self.selected {
            Some(i) => i,
            None => 0,
        };
        self.selected = if base + 1 < n {
            Some(base + 1)
        } else {
            Some(n - 1)
        };
    }

    /// Remove the conversation with the given conversation's id, if it is
    /// listed, and clear the cursor: whatever it pointed at, the list has
    /// shifted under it.
    pub fn delete_conversation(&mut self, conversation: Conversation)
        requires
            old(self).wf(),
        ensures
            final(self)@ == old(self)@.after_delete(conversation@.id),
            final(self).wf(),
    {
        let ghost items = self.conversations@.map_values(|c: Conversation| c@);
        let n = self.conversations.len();
        let mut i: usize = 0;
        while i < n
            invariant
                0 <= i <= n,
                n == self.conversations.len(),
                items == self.conversations@.map_values(|c: Conversation| c@),
                self.selected == old(self).selected,
                self@ == old(self)@,
                forall|k: int| 0 <= k < i ==> items[k].id != conversation@.id,
            decreases n - i,
        {
            if self.conversations[i].id == conversation.id {
                proof {
                    lemma_first_index_with_id(items, conversation@.id, i as int);
                }
                self.conversations.remove(i);
                proof {
                    assert(self.conversations@.map_values(|c: Conversation| c@) =~= items.remove(
                        i as int,
                    ));
                }
                self.selected = None;
                return ;
            }
            i = i + 1;
        }
        proof {
            lemma_first_index_with_id(items, conversation@.id, n as int);
        }
    }
}

/// Mathematical value of the new-conversation popup.
pub ghost struct NewConversationPopupV {
    pub text: Option<Seq<char>>,
    pub buffer: Seq<char>,
    pub activated: bool,
}

impl NewConversationPopupV {
    /// The popup after one key: the key goes to the editor buffer and the
    /// readable text becomes the trimmed buffer.
    pub open spec fn after_input(self, key: KeyInput) -> NewConversationPopupV {
        let b = spec_edited(self.buffer, key);
        NewConversationPopupV { text: Some(spec_trim(b)), buffer: b, activated: self.activated }
    }
}

/// Modal editor for naming a conversation about to be created.
#[derive(Debug)]
pub struct NewConversationPopup {
    text: Option<String>,
    buffer: String,
    activated: bool,
}

impl View for NewConversationPopup {
    type V = NewConversationPopupV;

    closed spec fn view(&self) -> NewConversationPopupV {
        NewConversationPopupV {
            text: match &self.text {
                Some(t) => Some(t@),
                None => None,
            },
            buffer: self.buffer@,
            activated: self.activated,
        }
    }
}

impl Default for NewConversationPopup {
    /// A dormant popup with nothing typed.
    fn default() -> (r: Self)
        ensures
            r@.text.is_none(),
            r@.buffer == Seq::<char>::empty(),
            !r@.activated,
    {
        NewConversationPopup { text: None, buffer: String::new(), activated: false }
    }
}

impl NewConversationPopup {
    /// Wipe the editor and the readable text; whether the popup is shown
    /// does not change.
    pub fn clear(&mut self)
        ensures
            final(self)@.text.is_none(),
            final(self)@.buffer == Seq::<char>::empty(),
            final(self)@.activated == old(self)@.activated,
    {
        self.buffer = String::new();
        self.text = None;
    }

    /// Whether the popup is currently shown and capturing input.
    pub fn is_activated(&self) -> (r: bool)
        ensures
            r == self@.activated,
    {
        self.activated
    }

    /// Show the popup; its readable text starts out empty.
    pub fn activate(&mut self)
        ensures
            final(self)@.activated,
            final(self)@.text == Some(Seq::<char>::empty()),
            final(self)@.buffer == old(self)@.buffer,
    {
        self.activated = true;
        self.text = Some(String::new());
    }

    /// Hide the popup and wipe it.
    pub fn deactivate(&mut self)
        ensures
            !final(self)@.activated,
            final(self)@.text.is_none(),
            final(self)@.buffer == Seq::<char>::empty(),
    {
        self.activated = false;
        self.clear();
    }

    /// Feed one key to the popup's editor. Only an activated popup
    /// receives input.
    pub fn handle_input(&mut self, key_event: KeyInput)
        requires
            old(self)@.activated,
        ensures
            final(self)@ == old(self)@.after_input(key_event),
    {
        apply_key(&mut self.buffer, key_event);
        self.text = Some(trimmed(self.buffer.as_str()));
    }

    /// The name typed so far, trimmed; `None` while the popup is dormant.
    pub fn get_content(&self) -> (r: Option<&String>)
        ensures
            match r {
                Some(t) => self@.text == Some(t@),
                None => self@.text.is_none(),
            },
    {
        self.text.as_ref()
    }
}

#[derive(Debug)]
enum YesOrNo {
    Yes,
    No,
}

/// Mathematical value of the delete-confirmation popup.
pub ghost struct DeleteConversationPopupV {
    pub activated: bool,
    pub yes: bool,
}

/// Modal confirmation shown before a conversation is deleted.
#[derive(Debug)]
pub struct DeleteConversationPopup {
    activated: bool,
    yes_or_no: YesOrNo,
}

impl View for DeleteConversationPopup {
    type V = DeleteConversationPopupV;

    closed spec fn view(&self) -> DeleteConversationPopupV {
        DeleteConversationPopupV {
            activated: self.activated,
            yes: match self.yes_or_no {
                YesOrNo::Yes => true,
                YesOrNo::No => false,
            },
        }
    }
}

impl Default for DeleteConversationPopup {
    /// A dormant popup with the answer defaulting to no.
    fn default() -> (r: Self)
        ensures
            !r@.activated,
            !r@.yes,
    {
        DeleteConversationPopup { activated: false, yes_or_no: YesOrNo::No }
    }
}

impl DeleteConversationPopup {
    /// Whether the current answer is yes.
    pub fn yes(&self) -> (r: bool)
        ensures
            r == self@.yes,
    {
        match self.yes_or_no {
            YesOrNo::Yes => true,
            YesOrNo::No => false,
        }
    }

    /// Whether the popup is currently shown.
    pub fn is_activated(&self) -> (r: bool)
        ensures
            r == self@.activated,
    {
        self.activated
    }

    /// Show the popup.
    pub fn activate(&mut self)
        ensures
            final(self)@.activated,
            final(self)@.yes == old(self)@.yes,
    {
        self.activated = true;
    }

    /// Hide the popup.
    pub fn deactivate(&mut self)
        ensures
            !final(self)@.activated,
            final(self)@.yes == old(self)@.yes,
    {
        self.activated = false;
    }

    /// Set the answer to yes.
    pub fn confirm(&mut self)
        ensures
            final(self)@.yes,
            final(self)@.activated == old(self)@.activated,
    {
        self.yes_or_no = YesOrNo::Yes;
    }

    /// Set the answer back to no.
    pub fn cancel(&mut self)
        ensures
            !final(self)@.yes,
            final(self)@.activated == old(self)@.activated,
    {
        self.yes_or_no = YesOrNo::No;
    }
}

} // verus!
