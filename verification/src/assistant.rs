//! The inference worker's generation state machine. The worker drains the
//! request queue strictly sequentially; this type tracks the one
//! generation in flight: an assistant placeholder message filled by
//! streamed chunks, finalized exactly once, with no received token ever
//! discarded.

use vstd::prelude::*;

use crate::models::{Message, MessageV, Role};

verus! {

/// Mathematical value of an in-flight generation.
pub ghost struct GenerationV {
    /// The placeholder message, carrying the content accumulated so far.
    pub message: MessageV,
    /// Every chunk received so far, in arrival order.
    pub chunks: Seq<Seq<char>>,
}

/// One in-flight generation: the assistant placeholder row and the chunks
/// streamed into it.
struct Generation {
    message: Message,
    chunks: Ghost<Seq<Seq<char>>>,
}

/// The background inference worker's state: idle, or filling one
/// placeholder message from a stream.
pub struct Assistant {
    generation: Option<Generation>,
}

impl View for Assistant {
    type V = Option<GenerationV>;

    closed spec fn view(&self) -> Option<GenerationV> {
        match self.generation {
            Some(g) => Some(GenerationV { message: g.message@, chunks: g.chunks@ }),
            None => None,
        }
    }
}

impl Assistant {
    /// Whether a generation is in flight.
    pub open spec fn spec_generating(&self) -> bool {
        self@ is Some
    }

    /// The in-flight generation.
    pub open spec fn gen(&self) -> GenerationV
        recommends
            self.spec_generating(),
    {
        self@.unwrap()
    }

    /// The accumulated content is exactly the received chunks, in arrival
    /// order, and it fills an assistant message.
    pub open spec fn wf(&self) -> bool {
        match self@ {
            Some(g) => {
                &&& g.message.content == g.chunks.flatten()
                &&& g.message.role == Role::Assistant
            },
            None => true,
        }
    }

    /// An idle worker.
    pub fn new() -> (r: Assistant)
        ensures
            !r.spec_generating(),
            r.wf(),
    {
        Assistant { generation: None }
    }

    /// Whether a generation is in flight.
    pub fn is_generating(&self) -> (r: bool)
        ensures
            r == self.spec_generating(),
    {
        self.generation.is_some()
    }

    /// Start filling a freshly created, still empty assistant placeholder.
    /// Its id is already stable: every later update and the final persist
    /// address this row.
    pub fn begin(&mut self, placeholder: Message)
        requires
            !old(self).spec_generating(),
            placeholder@.role == Role::Assistant,
            placeholder@.content.len() == 0,
        ensures
            final(self).spec_generating(),
            final(self).gen().message == placeholder@,
            final(self).gen().chunks.len() == 0,
            final(self).wf(),
    {
        self.generation = Some(Generation { message: placeholder, chunks: Ghost(Seq::empty()) });
        proof {
            assert(Seq::<Seq<char>>::empty().flatten() =~= Seq::<char>::empty());
            assert(placeholder@.content =~= Seq::<char>::empty());
        }
    }

    /// Take one streamed chunk: append it to the cumulative content and
    /// hand back the delta to emit, which carries the full cumulative
    /// content so that applying it replaces rather than appends.
    pub fn on_chunk(&mut self, chunk: &str) -> (delta: Message)
        requires
            old(self).spec_generating(),
            old(self).wf(),
        ensures
            final(self).spec_generating(),
            final(self).gen().chunks == old(self).gen().chunks.push(chunk@),
            final(self).gen().message.content == old(self).gen().message.content + chunk@,
            final(self).gen().message.id == old(self).gen().message.id,
            final(self).gen().message.role == old(self).gen().message.role,
            final(self).gen().message.conversation_id == old(self).gen().message.conversation_id,
            final(self).gen().message.created_at == old(self).gen().message.created_at,
            delta@ == final(self).gen().message,
            final(self).wf(),
    {
        let g = self.generation.as_mut().unwrap();
        let ghost pre_chunks = g.chunks@;
        g.message.content.append(chunk);
        proof {
            g.chunks@ = pre_chunks.push(chunk@);
            pre_chunks.lemma_flatten_push(chunk@);
        }
        g.message.clone()
    }

    /// End the generation, whether the stream completed or failed
    /// mid-way: the worker goes idle and hands back the terminal delta,
    /// whose content is everything received so far. The caller persists
    /// that content to the placeholder row and emits the delta, so a
    /// truncated stream still leaves every received token stored and
    /// shown.
    pub fn finish(&mut self) -> (r: Message)
        requires
            old(self).spec_generating(),
            old(self).wf(),
        ensures
            !final(self).spec_generating(),
            r@ == old(self).gen().message,
            r@.content == old(self).gen().chunks.flatten(),
            final(self).wf(),
    {
        let g = self.generation.as_ref().unwrap();
        let delta = g.message.clone();
        self.generation = None;
        delta
    }
}

} // verus!
