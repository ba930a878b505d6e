//! The dispatch rules of the single-threaded event loop: every mutation of
//! client state happens here, as one handler per event. Handlers return a
//! command naming the persistence or queue work the shell must perform;
//! once that work succeeds, the matching `apply` function commits the
//! visible state change, so a failed call leaves visible state untouched.

use vstd::prelude::*;

use crate::chat::{Chat, ChatV};
use crate::conversations::{
    Conversations, ConversationsV, DeleteConversationPopup, DeleteConversationPopupV,
    NewConversationPopup, NewConversationPopupV,
};
use crate::editor::{spec_edited, spec_trim};
use crate::event::{Event, EventV, InferenceType, KeyCode, KeyInput};
use crate::focus::AppFocus;
use crate::models::{Conversation, Message, MessageV};
use crate::prompt::Prompt;

verus! {

/// Work the shell must perform outside the dispatcher: a persistence call,
/// or loading a freshly selected conversation. Once the call succeeds the
/// shell commits the state change through the matching `apply` function of
/// `App`; on failure it surfaces the error and touches nothing.
#[derive(Debug)]
pub enum Command {
    /// No outside work.
    Nothing,
    /// Delete the conversation from storage, then call
    /// `apply_conversation_deleted`.
    DeleteConversation { conversation_id: u32 },
    /// Create a conversation with this name in storage, then call
    /// `apply_conversation_created`.
    CreateConversation { name: String },
    /// Persist this prompt as a user message of the conversation, then
    /// call `apply_user_message` and enqueue the message for generation.
    SubmitPrompt { content: String, conversation_id: u32 },
    /// Fetch the conversation's messages, call `apply_messages_loaded`,
    /// and post `ChatBottomScroll` as a separate, subsequent event: the
    /// scrollable excess of the new transcript is known only after the
    /// next render pass.
    LoadConversation { conversation_id: u32 },
}

/// Mathematical value of a `Command`.
pub ghost enum CommandV {
    Nothing,
    DeleteConversation { conversation_id: u32 },
    CreateConversation { name: Seq<char> },
    SubmitPrompt { content: Seq<char>, conversation_id: u32 },
    LoadConversation { conversation_id: u32 },
}

impl View for Command {
    type V = CommandV;

    open spec fn view(&self) -> CommandV {
        match self {
            Command::Nothing => CommandV::Nothing,
            Command::DeleteConversation { conversation_id } => CommandV::DeleteConversation {
                conversation_id: *conversation_id,
            },
            Command::CreateConversation { name } => CommandV::CreateConversation { name: name@ },
            Command::SubmitPrompt { content, conversation_id } => CommandV::SubmitPrompt {
                content: content@,
                conversation_id: *conversation_id,
            },
            Command::LoadConversation { conversation_id } => CommandV::LoadConversation {
                conversation_id: *conversation_id,
            },
        }
    }
}

/// Mathematical value of the whole client state.
pub ghost struct AppV {
    pub chat: ChatV,
    pub conversations: ConversationsV,
    pub prompt: Seq<char>,
    pub new_conversation_popup: NewConversationPopupV,
    pub delete_conversation_popup: DeleteConversationPopupV,
    pub focus: AppFocus,
    pub running: bool,
}

/// A key that neither a global shortcut nor a handler claims goes to the
/// active editor: the popup when it is shown, else the prompt when it has
/// focus, else nowhere.
pub open spec fn spec_routed(pre: AppV, key: KeyInput) -> AppV {
    if pre.new_conversation_popup.activated {
        AppV { new_conversation_popup: pre.new_conversation_popup.after_input(key), ..pre }
    } else if pre.focus is Prompt {
        AppV { prompt: spec_edited(pre.prompt, key), ..pre }
    } else {
        pre
    }
}

/// Confirming the delete popup: with a selected conversation the deletion
/// is handed to the shell and the popup stays up until it succeeds; with
/// none there is nothing to delete and the popup just closes.
pub open spec fn spec_confirm_delete(pre: AppV) -> (AppV, CommandV) {
    match pre.conversations.selected_conversation() {
        Some(c) => (pre, CommandV::DeleteConversation { conversation_id: c.id }),
        None => (
            AppV {
                delete_conversation_popup: DeleteConversationPopupV {
                    activated: false,
                    yes: pre.delete_conversation_popup.yes,
                },
                ..pre
            },
            CommandV::Nothing,
        ),
    }
}

/// What one key press does to the client state, and the outside work it
/// asks for.
pub open spec fn spec_handle_key(pre: AppV, key: KeyInput) -> (AppV, CommandV) {
    match key.code {
        KeyCode::Char(c) => {
            if (c == 'c' || c == 'C') && key.ctrl {
                (AppV { running: false, ..pre }, CommandV::Nothing)
            } else if (c == 'n' || c == 'N') && key.ctrl {
                (
                    AppV {
                        new_conversation_popup: NewConversationPopupV {
                            text: Some(Seq::empty()),
                            buffer: pre.new_conversation_popup.buffer,
                            activated: true,
                        },
                        delete_conversation_popup: DeleteConversationPopupV {
                            activated: false,
                            yes: pre.delete_conversation_popup.yes,
                        },
                        ..pre
                    },
                    CommandV::Nothing,
                )
            } else if (c == 'n' || c == 'N') && pre.delete_conversation_popup.activated {
                (
                    AppV {
                        delete_conversation_popup: DeleteConversationPopupV {
                            activated: false,
                            yes: pre.delete_conversation_popup.yes,
                        },
                        ..pre
                    },
                    CommandV::Nothing,
                )
            } else if (c == 'y' || c == 'Y') && pre.delete_conversation_popup.activated {
                spec_confirm_delete(pre)
            } else {
                (spec_routed(pre, key), CommandV::Nothing)
            }
        },
        KeyCode::Enter => {
            if pre.new_conversation_popup.activated {
                match pre.new_conversation_popup.text {
                    Some(name) => (pre, CommandV::CreateConversation { name }),
                    None => (pre, CommandV::Nothing),
                }
            } else if pre.delete_conversation_popup.activated {
                spec_confirm_delete(pre)
            } else if pre.focus is Prompt {
                if key.shift {
                    (AppV { prompt: pre.prompt.push('\n'), ..pre }, CommandV::Nothing)
                } else {
                    match pre.conversations.selected_conversation() {
                        Some(c) => (
                            pre,
                            CommandV::SubmitPrompt {
                                content: spec_trim(pre.prompt),
                                conversation_id: c.id,
                            },
                        ),
                        None => (pre, CommandV::Nothing),
                    }
                }
            } else {
                (pre, CommandV::Nothing)
            }
        },
        KeyCode::Down => match pre.focus {
            AppFocus::Conversation => {
                let moved = pre.conversations.after_down();
                (
                    AppV { conversations: moved, ..pre },
                    match moved.selected_conversation() {
                        Some(c) => CommandV::LoadConversation { conversation_id: c.id },
                        None => CommandV::Nothing,
                    },
                )
            },
            AppFocus::Messages => (
                AppV { chat: pre.chat.scrolled_down(), ..pre },
                CommandV::Nothing,
            ),
            AppFocus::Prompt => (
                AppV { prompt: spec_edited(pre.prompt, key), ..pre },
                CommandV::Nothing,
            ),
        },
        KeyCode::Up => match pre.focus {
            AppFocus::Conversation => {
                let moved = pre.conversations.after_up();
                (
                    AppV { conversations: moved, ..pre },
                    match moved.selected_conversation() {
                        Some(c) => CommandV::LoadConversation { conversation_id: c.id },
                        None => CommandV::Nothing,
                    },
                )
            },
            AppFocus::Messages => (AppV { chat: pre.chat.scrolled_up(), ..pre }, CommandV::Nothing),
            AppFocus::Prompt => (
                AppV { prompt: spec_edited(pre.prompt, key), ..pre },
                CommandV::Nothing,
            ),
        },
        KeyCode::Esc => {
            if pre.new_conversation_popup.activated {
                (
                    AppV {
                        new_conversation_popup: NewConversationPopupV {
                            text: None,
                            buffer: Seq::empty(),
                            activated: false,
                        },
                        ..pre
                    },
                    CommandV::Nothing,
                )
            } else if pre.delete_conversation_popup.activated {
                (
                    AppV {
                        delete_conversation_popup: DeleteConversationPopupV {
                            activated: false,
                            yes: pre.delete_conversation_popup.yes,
                        },
                        ..pre
                    },
                    CommandV::Nothing,
                )
            } else if pre.focus is Conversation {
                (
                    AppV {
                        conversations: ConversationsV {
                            conversations: pre.conversations.conversations,
                            selected: None,
                        },
                        chat: ChatV::empty(),
                        ..pre
                    },
                    CommandV::Nothing,
                )
            } else {
                (pre, CommandV::Nothing)
            }
        },
        KeyCode::Tab => {
            if !pre.new_conversation_popup.activated {
                (AppV { focus: pre.focus.spec_next(), ..pre }, CommandV::Nothing)
            } else {
                (pre, CommandV::Nothing)
            }
        },
        KeyCode::BackTab => {
            if !pre.new_conversation_popup.activated {
                (AppV { focus: pre.focus.spec_previous(), ..pre }, CommandV::Nothing)
            } else {
                (pre, CommandV::Nothing)
            }
        },
        KeyCode::Delete => {
            if pre.focus is Conversation && pre.conversations.selected_conversation() is Some {
                (
                    AppV {
                        new_conversation_popup: if pre.new_conversation_popup.activated {
                            NewConversationPopupV {
                                text: None,
                                buffer: Seq::empty(),
                                activated: false,
                            }
                        } else {
                            pre.new_conversation_popup
                        },
                        delete_conversation_popup: DeleteConversationPopupV {
                            activated: true,
                            yes: pre.delete_conversation_popup.yes,
                        },
                        ..pre
                    },
                    CommandV::Nothing,
                )
            } else {
                (pre, CommandV::Nothing)
            }
        },
        _ => (spec_routed(pre, key), CommandV::Nothing),
    }
}

/// What a streaming delta does: it patches the transcript only while its
/// conversation is still the selected one; a stale delta is dropped
/// silently.
pub open spec fn spec_stream_patch(pre: AppV, m: MessageV) -> AppV {
    match pre.conversations.selected_conversation() {
        Some(c) => if c.id == m.conversation_id {
            AppV { chat: pre.chat.patched(m), ..pre }
        } else {
            pre
        },
        None => pre,
    }
}

/// What one event does to the client state, and the outside work it asks
/// for.
pub open spec fn spec_handle_event(pre: AppV, ev: EventV) -> (AppV, CommandV) {
    match ev {
        EventV::TerminalTick => (pre, CommandV::Nothing),
        EventV::Key(k) => spec_handle_key(pre, k),
        EventV::Inference(m, InferenceType::Streaming) => (
            spec_stream_patch(pre, m),
            CommandV::Nothing,
        ),
        EventV::Inference(m, InferenceType::NonStreaming) => (
            AppV { chat: pre.chat.pushed(m), ..pre },
            CommandV::Nothing,
        ),
        EventV::ChatBottomScroll => (
            AppV { chat: pre.chat.scrolled_to_bottom(), ..pre },
            CommandV::Nothing,
        ),
        EventV::PromptTranscription(w) => (AppV { prompt: pre.prompt + w, ..pre }, CommandV::Nothing),
    }
}

/// The whole client state that the dispatch loop owns and mutates.
pub struct App {
    pub chat: Chat,
    pub conversations: Conversations,
    pub prompt: Prompt,
    pub new_conversation_popup: NewConversationPopup,
    pub delete_conversation_popup: DeleteConversationPopup,
    focus: AppFocus,
    running: bool,
}

impl View for App {
    type V = AppV;

    closed spec fn view(&self) -> AppV {
        AppV {
            chat: self.chat@,
            conversations: self.conversations@,
            prompt: self.prompt@,
            new_conversation_popup: self.new_conversation_popup@,
            delete_conversation_popup: self.delete_conversation_popup@,
            focus: self.focus,
            running: self.running,
        }
    }
}

impl App {
    /// The components are consistent and at most one modal popup is up at
    /// a time.
    pub open spec fn wf(&self) -> bool {
        &&& self@.chat.wf()
        &&& self@.conversations.wf()
        &&& !(self@.new_conversation_popup.activated && self@.delete_conversation_popup.activated)
    }

    /// A fresh client: everything empty, running, key input going to the
    /// conversation list.
    pub fn new() -> (r: App)
        ensures
            r@.chat == ChatV::empty(),
            r@.conversations.conversations.len() == 0,
            r@.conversations.selected is None,
            r@.prompt.len() == 0,
            !r@.new_conversation_popup.activated,
            r@.new_conversation_popup.text is None,
            !r@.delete_conversation_popup.activated,
            !r@.delete_conversation_popup.yes,
            r@.focus == AppFocus::Conversation,
            r@.running,
            r.wf(),
    {
        App {
            chat: Chat::new(),
            conversations: Conversations::new(),
            prompt: Prompt::default(),
            new_conversation_popup: NewConversationPopup::default(),
            delete_conversation_popup: DeleteConversationPopup::default(),
            focus: AppFocus::Conversation,
            running: true,
        }
    }

    /// Load the directory with the stored conversations.
    pub fn init(&mut self, conversations: Vec<Conversation>)
        requires
            old(self).wf(),
        ensures
            final(self)@.conversations.conversations == conversations@.map_values(
                |c: Conversation| c@,
            ),
            final(self)@.conversations.selected == match old(self)@.conversations.selected {
                Some(i) => if i < conversations@.len() {
                    Some(i)
                } else {
                    None
                },
                None => None::<int>,
            },
            final(self)@ == (AppV {
                conversations: final(self)@.conversations,
                ..old(self)@
            }),
            final(self).wf(),
    {
        self.conversations.set_conversations(conversations);
    }

    /// Whether the loop should keep running.
    pub fn is_running(&self) -> (r: bool)
        ensures
            r == self@.running,
    {
        self.running
    }

    /// Stop the loop: set on Ctrl-C and on fatal failures such as the
    /// worker-event source closing.
    pub fn quit(&mut self)
        ensures
            final(self)@ == (AppV { running: false, ..old(self)@ }),
    {
        self.running = false;
    }

    /// The region key input is routed to.
    pub fn current_focus(&self) -> (r: AppFocus)
        ensures
            r == self@.focus,
    {
        self.focus
    }

    /// Cycle focus forward.
    pub fn next_focus(&mut self)
        ensures
            final(self)@ == (AppV { focus: old(self)@.focus.spec_next(), ..old(self)@ }),
    {
        self.focus = self.focus.next();
    }

    /// Cycle focus backward.
    pub fn previous_focus(&mut self)
        ensures
            final(self)@ == (AppV { focus: old(self)@.focus.spec_previous(), ..old(self)@ }),
    {
        self.focus = self.focus.previous();
    }

    /// Route a key to the active editor, if any.
    fn route_to_editor(&mut self, key: KeyInput)
        requires
            old(self).wf(),
        ensures
            final(self)@ == spec_routed(old(self)@, key),
            final(self).wf(),
    {
        if self.new_conversation_popup.is_activated() {
            self.new_conversation_popup.handle_input(key);
        } else if let AppFocus::Prompt = self.focus {
            self.prompt.handle_input(key);
        }
    }

    /// Confirm the delete popup.
    fn confirm_delete(&mut self) -> (r: Command)
        requires
            old(self).wf(),
        ensures
            ({
                let (post, cmd) = spec_confirm_delete(old(self)@);
                final(self)@ == post && r@ == cmd
            }),
            final(self).wf(),
    {
        match self.conversations.currently_selected() {
            Some(conversation) => Command::DeleteConversation {
                conversation_id: conversation.id,
            },
            None => {
                self.delete_conversation_popup.deactivate();
                Command::Nothing
            },
        }
    }

    /// Dispatch one key press: mutate the state and name the outside work.
    pub fn handle_key_events(&mut self, key_event: KeyInput) -> (r: Command)
        requires
            old(self).wf(),
        ensures
            ({
                let (post, cmd) = spec_handle_key(old(self)@, key_event);
                final(self)@ == post && r@ == cmd
            }),
            final(self).wf(),
    {
        match key_event.code {
            KeyCode::Char(c) => {
                if (c == 'c' || c == 'C') && key_event.ctrl {
                    self.running = false;
                    Command::Nothing
                } else if (c == 'n' || c == 'N') && key_event.ctrl {
                    self.new_conversation_popup.activate();
                    self.delete_conversation_popup.deactivate();
                    Command::Nothing
                } else if (c == 'n' || c == 'N') && self.delete_conversation_popup.is_activated() {
                    self.delete_conversation_popup.deactivate();
                    Command::Nothing
                } else if (c == 'y' || c == 'Y') && self.delete_conversation_popup.is_activated() {
                    self.confirm_delete()
                } else {
                    self.route_to_editor(key_event);
                    Command::Nothing
                }
            },
            KeyCode::Enter => {
                if self.new_conversation_popup.is_activated() {
                    match self.new_conversation_popup.get_content() {
                        Some(name) => Command::CreateConversation { name: name.clone() },
                        None => Command::Nothing,
                    }
                } else if self.delete_conversation_popup.is_activated() {
                    self.confirm_delete()
                } else if let AppFocus::Prompt = self.focus {
                    if key_event.shift {
                        self.prompt.new_line();
                        Command::Nothing
                    } else {
                        match self.conversations.currently_selected() {
                            Some(conversation) => Command::SubmitPrompt {
                                content: self.prompt.get_content(),
                                conversation_id: conversation.id,
                            },
                            None => Command::Nothing,
                        }
                    }
                } else {
                    Command::Nothing
                }
            },
            KeyCode::Down => match self.focus {
                AppFocus::Conversation => {
                    self.conversations.down();
                    match self.conversations.currently_selected() {
                        Some(conversation) => Command::LoadConversation {
                            conversation_id: conversation.id,
                        },
                        None => Command::Nothing,
                    }
                },
                AppFocus::Messages => {
                    self.chat.scroll_down();
                    Command::Nothing
                },
                AppFocus::Prompt => {
                    self.prompt.handle_input(key_event);
                    Command::Nothing
                },
            },
            KeyCode::Up => match self.focus {
                AppFocus::Conversation => {
                    self.conversations.up();
                    match self.conversations.currently_selected() {
                        Some(conversation) => Command::LoadConversation {
                            conversation_id: conversation.id,
                        },
                        None => Command::Nothing,
                    }
                },
                AppFocus::Messages => {
                    self.chat.scroll_up();
                    Command::Nothing
                },
                AppFocus::Prompt => {
                    self.prompt.handle_input(key_event);
                    Command::Nothing
                },
            },
            KeyCode::Esc => {
                if self.new_conversation_popup.is_activated() {
                    self.new_conversation_popup.deactivate();
                } else if self.delete_conversation_popup.is_activated() {
                    self.delete_conversation_popup.deactivate();
                } else if let AppFocus::Conversation = self.focus {
                    self.conversations.unselect();
                    self.chat.reset();
                }
                Command::Nothing
            },
            KeyCode::Tab => {
                if !self.new_conversation_popup.is_activated() {
                    self.next_focus();
                }
                Command::Nothing
            },
            KeyCode::BackTab => {
                if !self.new_conversation_popup.is_activated() {
                    self.previous_focus();
                }
                Command::Nothing
            },
            KeyCode::Delete => {
                if let AppFocus::Conversation = self.focus {
                    if self.conversations.currently_selected().is_some() {
                        if self.new_conversation_popup.is_activated() {
                            self.new_conversation_popup.deactivate();
                        }
                        if !self.delete_conversation_popup.is_activated() {
                            self.delete_conversation_popup.activate();
                        }
                    }
                }
                Command::Nothing
            },
            _ => {
                self.route_to_editor(key_event);
                Command::Nothing
            },
        }
    }

    /// A complete, non-streamed reply: append it to the transcript.
    pub fn handle_inference_event(&mut self, message: Message)
        requires
            old(self).wf(),
        ensures
            final(self)@ == (AppV { chat: old(self)@.chat.pushed(message@), ..old(self)@ }),
            final(self).wf(),
    {
        self.chat.push_message(message);
    }

    /// A streaming delta: patch the transcript tail, but only while the
    /// delta's conversation is still the selected one — stale background
    /// output must not corrupt a freshly opened conversation.
    pub fn handle_inference_stream_event(&mut self, message: Message)
        requires
            old(self).wf(),
        ensures
            final(self)@ == spec_stream_patch(old(self)@, message@),
            final(self).wf(),
    {
        if let Some(conversation) = self.conversations.currently_selected() {
            if conversation.id == message.conversation_id {
                self.chat.patch_last_if_matching(message);
            }
        }
    }

    /// The deferred jump to the bottom, posted after a conversation
    /// switch.
    pub fn handle_chat_bottom_scroll_event(&mut self)
        requires
            old(self).wf(),
        ensures
            final(self)@ == (AppV { chat: old(self)@.chat.scrolled_to_bottom(), ..old(self)@ }),
            final(self).wf(),
    {
        self.chat.scroll_to_bottom();
    }

    /// A transcribed word: append it to the prompt.
    pub fn handle_prompt_transcription(&mut self, word: String)
        requires
            old(self).wf(),
        ensures
            final(self)@ == (AppV { prompt: old(self)@.prompt + word@, ..old(self)@ }),
            final(self).wf(),
    {
        self.prompt.insert_str(word.as_str());
    }

    /// Dispatch one event to its one handler.
    pub fn handle_events(&mut self, event: Event) -> (r: Command)
        requires
            old(self).wf(),
        ensures
            ({
                let (post, cmd) = spec_handle_event(old(self)@, event@);
                final(self)@ == post && r@ == cmd
            }),
            final(self).wf(),
    {
        match event {
            Event::TerminalTick => Command::Nothing,
            Event::Key(key_event) => self.handle_key_events(key_event),
            Event::Inference(message, InferenceType::Streaming) => {
                self.handle_inference_stream_event(message);
                Command::Nothing
            },
            Event::Inference(message, InferenceType::NonStreaming) => {
                self.handle_inference_event(message);
                Command::Nothing
            },
            Event::ChatBottomScroll => {
                self.handle_chat_bottom_scroll_event();
                Command::Nothing
            },
            Event::PromptTranscription(word) => {
                self.handle_prompt_transcription(word);
                Command::Nothing
            },
        }
    }

    /// Commit a stored conversation into the directory and close the
    /// naming popup.
    pub fn apply_conversation_created(&mut self, conversation: Conversation)
        requires
            old(self).wf(),
        ensures
            final(self)@ == (AppV {
                conversations: ConversationsV {
                    conversations: old(self)@.conversations.conversations.push(conversation@),
                    selected: old(self)@.conversations.selected,
                },
                new_conversation_popup: NewConversationPopupV {
                    text: None,
                    buffer: Seq::empty(),
                    activated: false,
                },
                ..old(self)@
            }),
            final(self).wf(),
    {
        self.conversations.push(conversation);
        self.new_conversation_popup.deactivate();
    }

    /// Commit a storage-confirmed deletion: drop the conversation from the
    /// directory, clear the cursor and the transcript, close the popup.
    pub fn apply_conversation_deleted(&mut self, conversation: Conversation)
        requires
            old(self).wf(),
        ensures
            final(self)@ == (AppV {
                conversations: old(self)@.conversations.after_delete(conversation@.id),
                chat: ChatV::empty(),
                delete_conversation_popup: DeleteConversationPopupV {
                    activated: false,
                    yes: old(self)@.delete_conversation_popup.yes,
                },
                ..old(self)@
            }),
            final(self).wf(),
    {
        self.conversations.delete_conversation(conversation);
        self.chat.reset();
        self.delete_conversation_popup.deactivate();
    }

    /// Commit a persisted user message: it joins the transcript and the
    /// prompt empties; the shell then enqueues it for generation.
    pub fn apply_user_message(&mut self, message: Message)
        requires
            old(self).wf(),
        ensures
            final(self)@ == (AppV {
                chat: old(self)@.chat.pushed(message@),
                prompt: Seq::empty(),
                ..old(self)@
            }),
            final(self).wf(),
    {
        self.chat.push_message(message);
        self.prompt.clear();
    }

    /// Commit the fetched transcript of a freshly selected conversation.
    pub fn apply_messages_loaded(&mut self, messages: Vec<Message>)
        requires
            old(self).wf(),
        ensures
            final(self)@ == (AppV {
                chat: old(self)@.chat.loaded(messages@.map_values(|m: Message| m@)),
                ..old(self)@
            }),
            final(self).wf(),
    {
        self.chat.load_messages(messages);
    }
}

} // verus!
