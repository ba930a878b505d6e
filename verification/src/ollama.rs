//! Request and response shapes of the chat backend's wire protocol. The
//! network client serializes and parses them outside the library; here
//! they are built from the persisted transcript.

use vstd::prelude::*;

use crate::models::{Message, MessageV, Role};

verus! {

/// Mathematical value of an `OllamaMessage`.
pub ghost struct OllamaMessageV {
    pub role: Role,
    pub content: Seq<char>,
}

/// One entry of the chat history sent to the backend.
#[derive(Debug)]
pub struct OllamaMessage {
    pub role: Role,
    pub content: String,
}

impl View for OllamaMessage {
    type V = OllamaMessageV;

    open spec fn view(&self) -> OllamaMessageV {
        OllamaMessageV { role: self.role, content: self.content@ }
    }
}

/// The wire entry a stored message turns into: same role, same content.
pub open spec fn wire_of(m: MessageV) -> OllamaMessageV {
    OllamaMessageV { role: m.role, content: m.content }
}

impl From<Message> for OllamaMessage {
    /// Strip a stored message down to what the backend takes.
    fn from(value: Message) -> (r: Self) {
        OllamaMessage { role: value.role, content: value.content }
    }
}

impl vstd::std_specs::convert::FromSpecImpl<Message> for OllamaMessage {
    open spec fn obeys_from_spec() -> bool {
        true
    }

    open spec fn from_spec(v: Message) -> Self {
        OllamaMessage { role: v.role, content: v.content }
    }
}

/// A complete, non-streamed backend reply.
#[derive(Debug)]
pub struct OllamaChatResponse {
    pub message: OllamaMessage,
}

/// One element of a streamed backend reply; `done` marks the explicit
/// completion marker that terminates the stream.
#[derive(Debug)]
pub struct OllamaChatResponseStream {
    pub message: OllamaMessage,
    pub done: bool,
}

/// One chat request: the model to run, the full history, and whether the
/// reply should stream.
#[derive(Debug)]
pub struct OllamaChatParams {
    pub model: String,
    pub messages: Vec<OllamaMessage>,
    pub stream: bool,
}

impl OllamaChatParams {
    /// Build a request from the persisted transcript, entry for entry and
    /// in order.
    pub fn new(model: String, messages: Vec<Message>, stream: bool) -> (r: Self)
        ensures
            r.model@ == model@,
            r.stream == stream,
            r.messages@.map_values(|om: OllamaMessage| om@) == messages@.map_values(
                |m: Message| wire_of(m@),
            ),
    {
        let ghost target = messages@.map_values(|m: Message| wire_of(m@));
        let n = messages.len();
        let mut i: usize = 0;
        let mut rest = messages;
        let mut out: Vec<OllamaMessage> = Vec::new();
        while i < n
            invariant
                0 <= i <= n,
                n - i == rest@.len(),
                rest@.map_values(|m: Message| wire_of(m@)) =~= target.skip(i as int),
                out@.map_values(|om: OllamaMessage| om@) =~= target.take(i as int),
                target.len() == n,
            decreases n - i,
        {
            let ghost out_pre = out@.map_values(|om: OllamaMessage| om@);
            let ghost rest_pre = rest@;
            proof {
                assert(rest_pre.map_values(|x: Message| wire_of(x@)) =~= target.skip(i as int));
            }
            let m = rest.remove(0);
            proof {
                assert(m == rest_pre[0]);
                assert(wire_of(m@) == rest_pre.map_values(|x: Message| wire_of(x@))[0]);
                assert(wire_of(m@) == target[i as int]);
                assert(rest@ =~= rest_pre.subrange(1, rest_pre.len() as int));
                let mapped = rest@.map_values(|x: Message| wire_of(x@));
                assert forall|k: int| 0 <= k < mapped.len() implies #[trigger] mapped[k]
                    == target.skip(i as int + 1)[k] by {
                    assert(rest@[k] == rest_pre[k + 1]);
                    assert(rest_pre.map_values(|x: Message| wire_of(x@))[k + 1] == wire_of(
                        rest_pre[k + 1]@,
                    ));
                    assert(target.skip(i as int)[k + 1] == target[i as int + 1 + k]);
                }
                assert(mapped =~= target.skip(i as int + 1));
            }
            let om = OllamaMessage::from(m);
            out.push(om);
            proof {
                assert(out@.map_values(|om: OllamaMessage| om@) =~= out_pre.push(
                    target[i as int],
                ));
                assert(out_pre.push(target[i as int]) =~= target.take(i as int + 1));
            }
            i = i + 1;
        }
        proof {
            assert(target.take(n as int) =~= target);
        }
        OllamaChatParams { model, messages: out, stream }
    }
}

} // verus!
