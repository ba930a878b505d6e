//! Data model: conversations, messages and the closed set of message roles.

use vstd::prelude::*;

verus! {

/// Who authored a message.
#[derive(Clone, Copy, PartialEq, Eq, Structural, Debug)]
pub enum Role {
    Assistant,
    System,
    User,
}

/// Error for a stored role string that is none of the three known encodings.
/// Carries the rejected string.
#[derive(Debug)]
pub struct RoleDecodeError {
    pub value: String,
}

impl Role {
    /// The storage encoding of this role.
    pub open spec fn spec_encoding(self) -> Seq<char> {
        match self {
            Role::Assistant => "assistant"@,
            Role::System => "system"@,
            Role::User => "user"@,
        }
    }

    /// Encode the role for storage.
    pub fn as_str(&self) -> (r: &'static str)
        ensures
            r@ == self.spec_encoding(),
    {
        match self {
            Role::Assistant => "assistant",
            Role::System => "system",
            Role::User => "user",
        }
    }

    /// Decode a stored role string; the exact inverse of `as_str` on the
    /// three known encodings, and an error carrying the string on any other.
    pub fn decode(s: &str) -> (r: Result<Role, RoleDecodeError>)
        ensures
            match r {
                Ok(role) => role.spec_encoding() == s@,
                Err(e) => {
                    &&& Role::Assistant.spec_encoding() != s@
                    &&& Role::System.spec_encoding() != s@
                    &&& Role::User.spec_encoding() != s@
                    &&& e.value@ == s@
                },
            },
    {
        let owned = s.to_owned();
        if owned == String::from_str("assistant") {
            Ok(Role::Assistant)
        } else if owned == String::from_str("system") {
            Ok(Role::System)
        } else if owned == String::from_str("user") {
            Ok(Role::User)
        } else {
            Err(RoleDecodeError { value: owned })
        }
    }
}

/// Decoding the encoding of any role gives that role back.
pub proof fn lemma_role_encoding_roundtrip(role: Role, decoded: Role)
    requires
        decoded.spec_encoding() == role.spec_encoding(),
    ensures
        decoded == role,
{
    reveal_strlit("assistant");
    reveal_strlit("system");
    reveal_strlit("user");
    assert(Role::Assistant.spec_encoding().len() == 9);
    assert(Role::System.spec_encoding().len() == 6);
    assert(Role::User.spec_encoding().len() == 4);
}

/// Mathematical value of a `Message`.
pub ghost struct MessageV {
    pub id: u32,
    pub role: Role,
    pub content: Seq<char>,
    pub conversation_id: u32,
    pub created_at: i64,
}

/// A chat message. `id` and `created_at` are assigned by the persistence
/// gateway; a freshly built, not yet persisted message carries 0 for both.
#[derive(Debug)]
pub struct Message {
    pub id: u32,
    pub role: Role,
    pub content: String,
    pub conversation_id: u32,
    pub created_at: i64,
}

impl View for Message {
    type V = MessageV;

    open spec fn view(&self) -> MessageV {
        MessageV {
            id: self.id,
            role: self.role,
            content: self.content@,
            conversation_id: self.conversation_id,
            created_at: self.created_at,
        }
    }
}

impl Clone for Message {
    fn clone(&self) -> (r: Self)
        ensures
            r@ == self@,
    {
        Message {
            id: self.id,
            role: self.role,
            content: self.content.clone(),
            conversation_id: self.conversation_id,
            created_at: self.created_at,
        }
    }
}

impl Message {
    /// Build a not yet persisted message with the given role and content.
    pub fn new(role: Role, content: String, conversation_id: u32) -> (r: Message)
        ensures
            r@ == (MessageV {
                id: 0,
                role,
                content: content@,
                conversation_id,
                created_at: 0,
            }),
    {
        Message { id: 0, role, content, conversation_id, created_at: 0 }
    }

    /// A not yet persisted user message.
    pub fn user(content: String, conversation_id: u32) -> (r: Message)
        ensures
            r@ == (MessageV {
                id: 0,
                role: Role::User,
                content: content@,
                conversation_id,
                created_at: 0,
            }),
    {
        Message::new(Role::User, content, conversation_id)
    }

    /// A not yet persisted assistant message.
    pub fn assistant(content: String, conversation_id: u32) -> (r: Message)
        ensures
            r@ == (MessageV {
                id: 0,
                role: Role::Assistant,
                content: content@,
                conversation_id,
                created_at: 0,
            }),
    {
        Message::new(Role::Assistant, content, conversation_id)
    }
}

/// Mathematical value of a `Conversation`.
pub ghost struct ConversationV {
    pub id: u32,
    pub name: Seq<char>,
    pub session_path: Seq<char>,
    pub created_at: i64,
}

/// A named conversation. `session_path` locates the backend's opaque
/// accumulated-context snapshot for this conversation.
#[derive(Debug)]
pub struct Conversation {
    pub id: u32,
    pub name: String,
    pub session_path: String,
    pub created_at: i64,
}

impl View for Conversation {
    type V = ConversationV;

    open spec fn view(&self) -> ConversationV {
        ConversationV {
            id: self.id,
            name: self.name@,
            session_path: self.session_path@,
            created_at: self.created_at,
        }
    }
}

impl Clone for Conversation {
    fn clone(&self) -> (r: Self)
        ensures
            r@ == self@,
    {
        Conversation {
            id: self.id,
            name: self.name.clone(),
            session_path: self.session_path.clone(),
            created_at: self.created_at,
        }
    }
}

} // verus!
