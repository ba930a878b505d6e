//! In-memory model of the persistence gateway's call contract: durable
//! conversations and messages, rows identified by assigned ids, creation
//! stamped by a monotone clock, and deletion of a conversation cascading
//! to its messages.

use vstd::prelude::*;

use crate::models::{Conversation, ConversationV, Message, MessageV, Role};

verus! {

/// Why a gateway call failed.
#[derive(Copy, Clone, PartialEq, Eq, Structural, Debug)]
pub enum StoreError {
    /// The row addressed by the call does not exist.
    NotFound,
}

/// Holds of the messages of one conversation.
pub open spec fn in_conversation(conversation_id: u32) -> spec_fn(MessageV) -> bool {
    |m: MessageV| m.conversation_id == conversation_id
}

/// Holds of the messages of every other conversation.
pub open spec fn outside_conversation(conversation_id: u32) -> spec_fn(MessageV) -> bool {
    |m: MessageV| m.conversation_id != conversation_id
}

/// The messages of one conversation, in stored order.
pub open spec fn of_conversation(messages: Seq<MessageV>, conversation_id: u32) -> Seq<MessageV> {
    messages.filter(in_conversation(conversation_id))
}

/// The message table after one conversation's rows are cascaded away.
pub open spec fn without_conversation(messages: Seq<MessageV>, conversation_id: u32) -> Seq<
    MessageV,
> {
    messages.filter(outside_conversation(conversation_id))
}

/// Well-formed conversation table: ids assigned, below the id counter and
/// unique; rows in creation order.
pub open spec fn conv_wf(
    conversations: Seq<ConversationV>,
    next_conversation_id: u32,
    clock: i64,
) -> bool {
    &&& forall|i: int|
        0 <= i < conversations.len() ==> 1 <= (#[trigger] conversations[i]).id
            < next_conversation_id
    &&& forall|i: int|
        0 <= i < conversations.len() ==> (#[trigger] conversations[i]).created_at < clock
    &&& forall|i: int, j: int|
        #![trigger conversations[i].id, conversations[j].id]
        0 <= i < j < conversations.len() ==> conversations[i].id != conversations[j].id
    &&& forall|i: int, j: int|
        #![trigger conversations[i].created_at, conversations[j].created_at]
        0 <= i < j < conversations.len() ==> conversations[i].created_at
            <= conversations[j].created_at
}

/// Well-formed message table: ids assigned, below the id counter and
/// unique; rows ordered by ascending creation time.
pub open spec fn msg_wf(messages: Seq<MessageV>, next_message_id: u32, clock: i64) -> bool {
    &&& forall|i: int|
        0 <= i < messages.len() ==> 1 <= (#[trigger] messages[i]).id < next_message_id
    &&& forall|i: int| 0 <= i < messages.len() ==> (#[trigger] messages[i]).created_at < clock
    &&& forall|i: int, j: int|
        #![trigger messages[i].id, messages[j].id]
        0 <= i < j < messages.len() ==> messages[i].id != messages[j].id
    &&& forall|i: int, j: int|
        #![trigger messages[i].created_at, messages[j].created_at]
        0 <= i < j < messages.len() ==> messages[i].created_at <= messages[j].created_at
}

proof fn lemma_filter_subset(s: Seq<MessageV>, pred: spec_fn(MessageV) -> bool)
    ensures
        forall|i: int| 0 <= i < s.filter(pred).len() ==> s.contains(#[trigger] s.filter(pred)[i]),
    decreases s.len(),
{
    reveal(Seq::filter);
    if s.len() > 0 {
        lemma_filter_subset(s.drop_last(), pred);
        let fp = s.drop_last().filter(pred);
        let out = s.filter(pred);
        assert forall|i: int| 0 <= i < out.len() implies s.contains(out[i]) by {
            if i < fp.len() {
                assert(out[i] == fp[i]);
                assert(s.drop_last().contains(fp[i]));
                let k = choose|k: int| 0 <= k < s.drop_last().len() && s.drop_last()[k] == fp[i];
                assert(s[k] == out[i]);
            } else {
                assert(s[s.len() - 1] == out[i]);
            }
        }
    }
}

proof fn lemma_cascade_preserves_msg_wf(
    messages: Seq<MessageV>,
    conversation_id: u32,
    next_message_id: u32,
    clock: i64,
)
    requires
        msg_wf(messages, next_message_id, clock),
    ensures
        msg_wf(without_conversation(messages, conversation_id), next_message_id, clock),
    decreases messages.len(),
{
    reveal(Seq::filter);
    let pred = outside_conversation(conversation_id);
    if messages.len() > 0 {
        let prefix = messages.drop_last();
        lemma_cascade_preserves_msg_wf(prefix, conversation_id, next_message_id, clock);
        lemma_filter_subset(prefix, pred);
        let fp = prefix.filter(pred);
        let out = messages.filter(pred);
        if pred(messages.last()) {
            assert(out == fp.push(messages.last()));
            assert forall|i: int| 0 <= i < fp.len() implies fp[i].id != messages.last().id
                && fp[i].created_at <= messages.last().created_at by {
                assert(prefix.contains(fp[i]));
                let k = choose|k: int| 0 <= k < prefix.len() && prefix[k] == fp[i];
                assert(messages[k] == fp[i]);
                assert(messages[k].id != messages[messages.len() - 1].id);
                assert(messages[k].created_at <= messages[messages.len() - 1].created_at);
            }
        }
    }
}

/// Mathematical value of the store.
pub ghost struct StoreV {
    pub conversations: Seq<ConversationV>,
    pub messages: Seq<MessageV>,
    pub next_conversation_id: u32,
    pub next_message_id: u32,
    pub clock: i64,
}

/// The durable store behind the chat client: conversations and their
/// messages.
#[derive(Debug)]
pub struct Store {
    conversations: Vec<Conversation>,
    messages: Vec<Message>,
    next_conversation_id: u32,
    next_message_id: u32,
    clock: i64,
}

impl View for Store {
    type V = StoreV;

    closed spec fn view(&self) -> StoreV {
        StoreV {
            conversations: self.conversations@.map_values(|c: Conversation| c@),
            messages: self.messages@.map_values(|m: Message| m@),
            next_conversation_id: self.next_conversation_id,
            next_message_id: self.next_message_id,
            clock: self.clock,
        }
    }
}

impl Store {
    /// Both tables are well formed.
    pub open spec fn wf(&self) -> bool {
        &&& conv_wf(self@.conversations, self@.next_conversation_id, self@.clock)
        &&& msg_wf(self@.messages, self@.next_message_id, self@.clock)
        &&& self@.next_conversation_id >= 1
        &&& self@.next_message_id >= 1
    }

    /// An empty store.
    pub fn new() -> (r: Store)
        ensures
            r@.conversations.len() == 0,
            r@.messages.len() == 0,
            r.wf(),
    {
        Store {
            conversations: Vec::new(),
            messages: Vec::new(),
            next_conversation_id: 1,
            next_message_id: 1,
            clock: 0,
        }
    }

    /// Index of the conversation with the given id, if one is stored.
    fn index_of_conversation(&self, conversation_id: u32) -> (r: Option<usize>)
        ensures
            match r {
                Some(i) => i < self@.conversations.len() && self@.conversations[i as int].id
                    == conversation_id,
                None => forall|j: int|
                    0 <= j < self@.conversations.len() ==> (#[trigger] self@.conversations[j]).id
                        != conversation_id,
            },
    {
        let n = self.conversations.len();
        let mut i: usize = 0;
        while i < n
            invariant
                0 <= i <= n,
                n == self.conversations.len(),
                forall|k: int|
                    0 <= k < i ==> (#[trigger] self@.conversations[k]).id != conversation_id,
            decreases n - i,
        {
            if self.conversations[i].id == conversation_id {
                proof {
                    assert(self@.conversations[i as int] == self.conversations@[i as int]@);
                }
                return Some(i);
            }
            i = i + 1;
        }
        None
    }

    /// Index of the message with the given id, if one is stored.
    fn index_of_message(&self, message_id: u32) -> (r: Option<usize>)
        ensures
            match r {
                Some(i) => i < self@.messages.len() && self@.messages[i as int].id == message_id,
                None => forall|j: int|
                    0 <= j < self@.messages.len() ==> (#[trigger] self@.messages[j]).id
                        != message_id,
            },
    {
        let n = self.messages.len();
        let mut i: usize = 0;
        while i < n
            invariant
                0 <= i <= n,
                n == self.messages.len(),
                forall|k: int| 0 <= k < i ==> (#[trigger] self@.messages[k]).id != message_id,
            decreases n - i,
        {
            if self.messages[i].id == message_id {
                proof {
                    assert(self@.messages[i as int] == self.messages@[i as int]@);
                }
                return Some(i);
            }
            i = i + 1;
        }
        None
    }

    /// Create a conversation. The new row gets the next conversation id
    /// and the current creation stamp and goes at the end of the table;
    /// the row and its settings commit as one unit or not at all, so a
    /// returned conversation is always fully stored.
    pub fn create_conversation(&mut self, name: String, session_path: String) -> (r: Conversation)
        requires
            old(self).wf(),
            old(self)@.next_conversation_id < u32::MAX,
            old(self)@.clock < i64::MAX,
        ensures
            r@ == (ConversationV {
                id: old(self)@.next_conversation_id,
                name: name@,
                session_path: session_path@,
                created_at: old(self)@.clock,
            }),
            final(self)@.conversations == old(self)@.conversations.push(r@),
            final(self)@.messages == old(self)@.messages,
            final(self)@.next_conversation_id == old(self)@.next_conversation_id + 1,
            final(self)@.next_message_id == old(self)@.next_message_id,
            final(self)@.clock == old(self)@.clock + 1,
            final(self).wf(),
    {
        let ghost pre = self.conversations@.map_values(|c: Conversation| c@);
        let conversation = Conversation {
            id: self.next_conversation_id,
            name,
            session_path,
            created_at: self.clock,
        };
        let result = conversation.clone();
        self.conversations.push(conversation);
        self.next_conversation_id = self.next_conversation_id + 1;
        self.clock = self.clock + 1;
        proof {
            assert(self.conversations@.map_values(|c: Conversation| c@) =~= pre.push(result@));
        }
        result
    }

    /// All conversations, in creation order.
    pub fn get_conversations(&self) -> (r: Vec<Conversation>)
        ensures
            r@.map_values(|c: Conversation| c@) == self@.conversations,
    {
        let mut out: Vec<Conversation> = Vec::new();
        let n = self.conversations.len();
        let mut i: usize = 0;
        while i < n
            invariant
                0 <= i <= n,
                n == self.conversations.len(),
                out@.map_values(|c: Conversation| c@) =~= self@.conversations.take(i as int),
            decreases n - i,
        {
            let ghost pre = out@.map_values(|c: Conversation| c@);
            out.push(self.conversations[i].clone());
            proof {
                assert(out@.map_values(|c: Conversation| c@) =~= pre.push(
                    self@.conversations[i as int],
                ));
                assert(pre.push(self@.conversations[i as int]) =~= self@.conversations.take(
                    i as int + 1,
                ));
            }
            i = i + 1;
        }
        proof {
            assert(self@.conversations.take(n as int) =~= self@.conversations);
        }
        out
    }

    /// Look one conversation up by id; `NotFound` exactly when no row has
    /// it.
    pub fn get_conversation(&self, conversation_id: u32) -> (r: Result<Conversation, StoreError>)
        ensures
            match r {
                Ok(c) => exists|j: int|
                    0 <= j < self@.conversations.len() && c@ == #[trigger] self@.conversations[j]
                        && c@.id == conversation_id,
                Err(e) => e == StoreError::NotFound && forall|j: int|
                    0 <= j < self@.conversations.len() ==> (#[trigger] self@.conversations[j]).id
                        != conversation_id,
            },
    {
        match self.index_of_conversation(conversation_id) {
            Some(i) => {
                let c = self.conversations[i].clone();
                proof {
                    assert(c@ == self@.conversations[i as int]);
                }
                Ok(c)
            },
            None => Err(StoreError::NotFound),
        }
    }

    /// Delete the conversation with the given id and, cascading, every
    /// message that belonged to it; `NotFound`, and no change, exactly
    /// when no row has the id.
    pub fn delete_conversation(&mut self, conversation_id: u32) -> (r: Result<
        Conversation,
        StoreError,
    >)
        requires
            old(self).wf(),
        ensures
            final(self)@.next_conversation_id == old(self)@.next_conversation_id,
            final(self)@.next_message_id == old(self)@.next_message_id,
            final(self)@.clock == old(self)@.clock,
            final(self).wf(),
            match r {
                Ok(c) => {
                    &&& exists|j: int|
                        0 <= j < old(self)@.conversations.len() && c@ == #[trigger] old(self)@.conversations[j] && c@.id == conversation_id && final(self)@.conversations == old(self)@.conversations.remove(j)
                    &&& final(self)@.messages == without_conversation(
                        old(self)@.messages,
                        conversation_id,
                    )
                },
                Err(e) => {
                    &&& e == StoreError::NotFound
                    &&& final(self)@ == old(self)@
                    &&& forall|j: int|
                        0 <= j < old(self)@.conversations.len() ==> (#[trigger] old(self)@.conversations[j]).id != conversation_id
                },
            },
    {
        let ghost pre_convs = self.conversations@.map_values(|c: Conversation| c@);
        let ghost pre_msgs = self.messages@.map_values(|m: Message| m@);
        match self.index_of_conversation(conversation_id) {
            Some(i) => {
                let removed = self.conversations.remove(i);
                proof {
                    assert(removed@ == pre_convs[i as int]);
                    assert(self.conversations@.map_values(|c: Conversation| c@) =~= pre_convs.remove(
                        i as int,
                    ));
                }
                self.cascade_messages(conversation_id);
                proof {
                    lemma_cascade_preserves_msg_wf(
                        pre_msgs,
                        conversation_id,
                        self@.next_message_id,
                        self@.clock,
                    );
                    let post = self@.conversations;
                    assert forall|k: int| 0 <= k < post.len() implies #[trigger] post[k]
                        == if k < i as int {
                        pre_convs[k]
                    } else {
                        pre_convs[k + 1]
                    } by {}
                }
                Ok(removed)
            },
            None => Err(StoreError::NotFound),
        }
    }

    /// Keep only the messages of other conversations.
    fn cascade_messages(&mut self, conversation_id: u32)
        ensures
            final(self)@.messages == without_conversation(old(self)@.messages, conversation_id),
            final(self)@.conversations == old(self)@.conversations,
            final(self)@.next_conversation_id == old(self)@.next_conversation_id,
            final(self)@.next_message_id == old(self)@.next_message_id,
            final(self)@.clock == old(self)@.clock,
    {
        let ghost pre = self.messages@.map_values(|m: Message| m@);
        let n = self.messages.len();
        let mut kept: Vec<Message> = Vec::new();
        let mut i: usize = 0;
        while i < n
            invariant
                0 <= i <= n,
                n == self.messages.len(),
                pre == self.messages@.map_values(|m: Message| m@),
                kept@.map_values(|m: Message| m@) =~= without_conversation(
                    pre.take(i as int),
                    conversation_id,
                ),
            decreases n - i,
        {
            let ghost kept_pre = kept@.map_values(|m: Message| m@);
            proof {
                reveal(Seq::filter);
                assert(pre.take(i as int + 1).drop_last() =~= pre.take(i as int));
                assert(pre.take(i as int + 1).last() == pre[i as int]);
                assert(pre[i as int] == self.messages@[i as int]@);
            }
            if self.messages[i].conversation_id != conversation_id {
                kept.push(self.messages[i].clone());
                proof {
                    assert(kept@.map_values(|m: Message| m@) =~= kept_pre.push(pre[i as int]));
                }
            }
            i = i + 1;
        }
        proof {
            assert(pre.take(n as int) =~= pre);
        }
        self.messages = kept;
    }

    /// The messages of one conversation, in stored order: ascending
    /// creation time.
    pub fn get_messages(&self, conversation_id: u32) -> (r: Vec<Message>)
        ensures
            r@.map_values(|m: Message| m@) == of_conversation(self@.messages, conversation_id),
    {
        let ghost pre = self.messages@.map_values(|m: Message| m@);
        let n = self.messages.len();
        let mut out: Vec<Message> = Vec::new();
        let mut i: usize = 0;
        while i < n
            invariant
                0 <= i <= n,
                n == self.messages.len(),
                pre == self.messages@.map_values(|m: Message| m@),
                out@.map_values(|m: Message| m@) =~= of_conversation(
                    pre.take(i as int),
                    conversation_id,
                ),
            decreases n - i,
        {
            let ghost out_pre = out@.map_values(|m: Message| m@);
            proof {
                reveal(Seq::filter);
                assert(pre.take(i as int + 1).drop_last() =~= pre.take(i as int));
                assert(pre.take(i as int + 1).last() == pre[i as int]);
                assert(pre[i as int] == self.messages@[i as int]@);
            }
            if self.messages[i].conversation_id == conversation_id {
                out.push(self.messages[i].clone());
                proof {
                    assert(out@.map_values(|m: Message| m@) =~= out_pre.push(pre[i as int]));
                }
            }
            i = i + 1;
        }
        proof {
            assert(pre.take(n as int) =~= pre);
        }
        out
    }

    /// Create a message in a conversation. The new row gets the next
    /// message id and the current creation stamp and goes at the end of
    /// the table; `NotFound`, and no change, exactly when the conversation
    /// does not exist.
    pub fn create_message(&mut self, role: Role, content: String, conversation_id: u32) -> (r:
        Result<Message, StoreError>)
        requires
            old(self).wf(),
            old(self)@.next_message_id < u32::MAX,
            old(self)@.clock < i64::MAX,
        ensures
            final(self)@.conversations == old(self)@.conversations,
            final(self)@.next_conversation_id == old(self)@.next_conversation_id,
            final(self).wf(),
            match r {
                Ok(m) => {
                    &&& exists|j: int|
                        0 <= j < old(self)@.conversations.len() && (#[trigger] old(self)@.conversations[j]).id == conversation_id
                    &&& m@ == (MessageV {
                        id: old(self)@.next_message_id,
                        role,
                        content: content@,
                        conversation_id,
                        created_at: old(self)@.clock,
                    })
                    &&& final(self)@.messages == old(self)@.messages.push(m@)
                    &&& final(self)@.next_message_id == old(self)@.next_message_id + 1
                    &&& final(self)@.clock == old(self)@.clock + 1
                },
                Err(e) => {
                    &&& e == StoreError::NotFound
                    &&& final(self)@ == old(self)@
                    &&& forall|j: int|
                        0 <= j < old(self)@.conversations.len() ==> (#[trigger] old(self)@.conversations[j]).id != conversation_id
                },
            },
    {
        let ghost pre = self.messages@.map_values(|m: Message| m@);
        match self.index_of_conversation(conversation_id) {
            Some(_) => {
                let message = Message {
                    id: self.next_message_id,
                    role,
                    content,
                    conversation_id,
                    created_at: self.clock,
                };
                let result = message.clone();
                self.messages.push(message);
                self.next_message_id = self.next_message_id + 1;
                self.clock = self.clock + 1;
                proof {
                    assert(self.messages@.map_values(|m: Message| m@) =~= pre.push(result@));
                }
                Ok(result)
            },
            None => Err(StoreError::NotFound),
        }
    }

    /// Replace the content of the message with the given id, leaving every
    /// other field and every other row alone, and return the updated row;
    /// `NotFound`, and no change, exactly when no message has the id.
    pub fn update_message(&mut self, content: String, message_id: u32) -> (r: Result<
        Message,
        StoreError,
    >)
        requires
            old(self).wf(),
        ensures
            final(self)@.conversations == old(self)@.conversations,
            final(self)@.next_conversation_id == old(self)@.next_conversation_id,
            final(self)@.next_message_id == old(self)@.next_message_id,
            final(self)@.clock == old(self)@.clock,
            final(self).wf(),
            match r {
                Ok(m) => exists|j: int|
                    {
                        &&& 0 <= j < old(self)@.messages.len()
                        &&& (#[trigger] old(self)@.messages[j]).id == message_id
                        &&& m@ == (MessageV { content: content@, ..old(self)@.messages[j] })
                        &&& final(self)@.messages == old(self)@.messages.update(j, m@)
                    },
                Err(e) => {
                    &&& e == StoreError::NotFound
                    &&& final(self)@ == old(self)@
                    &&& forall|j: int|
                        0 <= j < old(self)@.messages.len() ==> (#[trigger] old(self)@.messages[j]).id != message_id
                },
            },
    {
        let ghost pre = self.messages@.map_values(|m: Message| m@);
        match self.index_of_message(message_id) {
            Some(i) => {
                let old_row = self.messages.remove(i);
                proof {
                    assert(old_row@ == pre[i as int]);
                }
                let new_row = Message {
                    id: old_row.id,
                    role: old_row.role,
                    content,
                    conversation_id: old_row.conversation_id,
                    created_at: old_row.created_at,
                };
                let result = new_row.clone();
                self.messages.insert(i, new_row);
                proof {
                    let post = self.messages@.map_values(|m: Message| m@);
                    assert(post =~= pre.update(i as int, result@));
                    assert forall|k: int| 0 <= k < post.len() implies (#[trigger] post[k]).id
                        == pre[k].id && post[k].created_at == pre[k].created_at by {}
                }
                Ok(result)
            },
            None => Err(StoreError::NotFound),
        }
    }
}

/// Round trip: a message just created for a conversation comes back from
/// `get_messages` of that conversation as its last row, with the role and
/// the content it was created with.
pub proof fn lemma_create_then_get_roundtrip(
    messages: Seq<MessageV>,
    m: MessageV,
    role: Role,
    content: Seq<char>,
    conversation_id: u32,
)
    requires
        m.role == role,
        m.content == content,
        m.conversation_id == conversation_id,
    ensures
        ({
            let after = of_conversation(messages.push(m), conversation_id);
            &&& after.len() > 0
            &&& after.last() == m
            &&& after.last().role == role
            &&& after.last().content == content
        }),
{
    reveal(Seq::filter);
    let pred = in_conversation(conversation_id);
    let pushed = messages.push(m);
    assert(pushed.drop_last() =~= messages);
    assert(pushed.last() == m);
    assert(pushed.filter(pred) == messages.filter(pred).push(m));
}

} // verus!
