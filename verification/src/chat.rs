//! Chat transcript and scroll engine: the message cache for the selected
//! conversation, the streaming patch rule, and the viewport scroll
//! arithmetic.

use vstd::prelude::*;

use crate::models::{Message, MessageV, Role};

verus! {

/// Rows taken by one border edge of the transcript viewport.
pub const BORDER_SIZE: usize = 1;

/// Number of newline characters in `s`.
pub open spec fn newline_count(s: Seq<char>) -> int
    decreases s.len(),
{
    if s.len() == 0 {
        0
    } else {
        newline_count(s.drop_last()) + if s.last() == '\n' {
            1int
        } else {
            0int
        }
    }
}

/// Number of lines of a text, as a terminal shows it: the empty text has no
/// line, and a trailing newline does not open a new one.
pub open spec fn spec_line_count(s: Seq<char>) -> int {
    if s.len() == 0 {
        0
    } else {
        newline_count(s) + if s.last() == '\n' {
            0int
        } else {
            1int
        }
    }
}

proof fn lemma_newline_count_le(s: Seq<char>)
    ensures
        0 <= newline_count(s) <= s.len(),
    decreases s.len(),
{
    if s.len() > 0 {
        lemma_newline_count_le(s.drop_last());
    }
}

/// Count the lines of a text, the way a terminal counts them.
pub fn line_count(text: &str) -> (r: usize)
    ensures
        r == spec_line_count(text@),
{
    let n = text.unicode_len();
    if n == 0 {
        return 0;
    }
    let mut i: usize = 0;
    let mut nl: usize = 0;
    while i < n
        invariant
            i <= n,
            n == text@.len(),
            nl <= i,
            nl == newline_count(text@.take(i as int)),
        decreases n - i,
    {
        let c = text.get_char(i);
        i = i + 1;
        if c == '\n' {
            nl = nl + 1;
        }
        proof {
            assert(text@.take(i as int).drop_last() =~= text@.take(i as int - 1));
            assert(text@.take(i as int).last() == text@[i as int - 1]);
        }
    }
    proof {
        assert(text@.take(n as int) =~= text@);
    }
    let last = text.get_char(n - 1);
    if last == '\n' {
        nl
    } else {
        proof {
            lemma_newline_count_le(text@.drop_last());
        }
        nl + 1
    }
}

/// The scrollable excess: the lines beyond what the viewport can show once
/// its two border rows are taken out, never negative.
pub open spec fn spec_scroll_content_length(lines: int, area_height: int) -> int {
    let visible = if area_height > 2 * BORDER_SIZE {
        area_height - 2 * BORDER_SIZE
    } else {
        0int
    };
    if lines > visible {
        lines - visible
    } else {
        0int
    }
}

/// How far a text of `area_height` rows can scroll: its line count beyond
/// the visible rows, where the border rows are not visible, clamped at 0.
pub fn calculate_vertical_scrollbar_content_length(text: &str, area_height: usize) -> (r: usize)
    ensures
        r == spec_scroll_content_length(spec_line_count(text@), area_height as int),
{
    let lines_of_text = line_count(text);
    let visible = if area_height > 2 * BORDER_SIZE {
        area_height - 2 * BORDER_SIZE
    } else {
        0
    };
    if lines_of_text > visible {
        lines_of_text - visible
    } else {
        0
    }
}

/// The display lines a text breaks into at a given width; the result
/// depends on the text and the width alone.
pub uninterp spec fn wrapped_lines(text: Seq<char>, width: int) -> Seq<Seq<char>>;

/// Relies on textwrap::wrap: breaks a text into display lines no wider
/// than `width`.
#[verifier::external_body]
fn wrap_text(text: &str, width: usize) -> (r: Vec<String>)
    ensures
        r@.map_values(|l: String| l@) == wrapped_lines(text@, width as int),
{
    textwrap::wrap(text, width).into_iter().map(|l| l.into_owned()).collect()
}

/// Total wrapped line count of a transcript at a given width.
pub open spec fn spec_total_wrapped_lines(messages: Seq<MessageV>, width: int) -> int
    decreases messages.len(),
{
    if messages.len() == 0 {
        0
    } else {
        spec_total_wrapped_lines(messages.drop_last(), width) + wrapped_lines(
            messages.last().content,
            width,
        ).len()
    }
}

proof fn lemma_total_wrapped_lines_nonneg(messages: Seq<MessageV>, width: int)
    ensures
        0 <= spec_total_wrapped_lines(messages, width),
    decreases messages.len(),
{
    if messages.len() > 0 {
        lemma_total_wrapped_lines_nonneg(messages.drop_last(), width);
    }
}

/// Mathematical value of the transcript state.
pub ghost struct ChatV {
    pub messages: Seq<MessageV>,
    pub vertical_scroll: int,
    pub content_length: int,
}

impl ChatV {
    /// Scroll state is consistent: the offset never passes the scrollable
    /// excess.
    pub open spec fn wf(self) -> bool {
        0 <= self.vertical_scroll <= self.content_length
    }

    /// An empty transcript, scrolled to the top.
    pub open spec fn empty() -> ChatV {
        ChatV { messages: Seq::empty(), vertical_scroll: 0, content_length: 0 }
    }

    /// After appending a message: the viewport jumps to the bottom.
    pub open spec fn pushed(self, m: MessageV) -> ChatV {
        ChatV {
            messages: self.messages.push(m),
            vertical_scroll: self.content_length,
            content_length: self.content_length,
        }
    }

    /// After one line up: saturating at the top.
    pub open spec fn scrolled_up(self) -> ChatV {
        ChatV {
            vertical_scroll: if self.vertical_scroll > 0 {
                self.vertical_scroll - 1
            } else {
                0int
            },
            ..self
        }
    }

    /// After one line down: saturating at the scrollable excess.
    pub open spec fn scrolled_down(self) -> ChatV {
        ChatV {
            vertical_scroll: if self.vertical_scroll + 1 <= self.content_length {
                self.vertical_scroll + 1
            } else {
                self.content_length
            },
            ..self
        }
    }

    /// After the direct jump to the bottom.
    pub open spec fn scrolled_to_bottom(self) -> ChatV {
        ChatV { vertical_scroll: self.content_length, ..self }
    }

    /// After a wholesale replacement of the message list.
    pub open spec fn loaded(self, messages: Seq<MessageV>) -> ChatV {
        ChatV { messages, vertical_scroll: 0, content_length: 0 }
    }

    /// After the streaming patch; the scroll state is left alone.
    pub open spec fn patched(self, m: MessageV) -> ChatV {
        ChatV { messages: spec_patched(self.messages, m), ..self }
    }
}

/// Transcript of the selected conversation plus its scroll state.
#[derive(Debug)]
pub struct Chat {
    messages: Vec<Message>,
    vertical_scroll: usize,
    vertical_scrollbar_content_length: usize,
}

impl View for Chat {
    type V = ChatV;

    closed spec fn view(&self) -> ChatV {
        ChatV {
            messages: self.messages@.map_values(|m: Message| m@),
            vertical_scroll: self.vertical_scroll as int,
            content_length: self.vertical_scrollbar_content_length as int,
        }
    }
}

/// The transcript after the streaming patch: an incoming delta replaces a
/// trailing assistant message, is appended after a trailing user message
/// (generation may outrun the placeholder), and is dropped otherwise.
pub open spec fn spec_patched(messages: Seq<MessageV>, m: MessageV) -> Seq<MessageV> {
    if messages.len() == 0 {
        messages
    } else {
        match messages.last().role {
            Role::Assistant => messages.drop_last().push(m),
            Role::User => messages.push(m),
            Role::System => messages,
        }
    }
}

/// Applying the streaming patch twice with one and the same assistant
/// delta leaves the same transcript as applying it once.
pub proof fn lemma_patch_idempotent(messages: Seq<MessageV>, m: MessageV)
    requires
        m.role == Role::Assistant,
        messages.len() > 0,
        messages.last().role == Role::Assistant,
    ensures
        spec_patched(spec_patched(messages, m), m) == spec_patched(messages, m),
{
    let once = spec_patched(messages, m);
    assert(once == messages.drop_last().push(m));
    assert(once.last() == m);
    assert(once.drop_last().push(m) =~= once);
}

impl Chat {
    /// Scroll state is consistent: the offset never passes the scrollable
    /// excess.
    pub open spec fn wf(&self) -> bool {
        self@.wf()
    }

    /// An empty transcript, scrolled to the top.
    pub fn new() -> (r: Chat)
        ensures
            r@ == ChatV::empty(),
            r.wf(),
    {
        let c = Chat {
            messages: Vec::new(),
            vertical_scroll: 0,
            vertical_scrollbar_content_length: 0,
        };
        proof {
            assert(c.messages@.map_values(|m: Message| m@) =~= Seq::<MessageV>::empty());
        }
        c
    }

    /// Drop all messages and all scroll state.
    pub fn reset(&mut self)
        ensures
            final(self)@ == ChatV::empty(),
            final(self).wf(),
    {
        self.messages = Vec::new();
        self.vertical_scroll = 0;
        self.vertical_scrollbar_content_length = 0;
        proof {
            assert(self.messages@.map_values(|m: Message| m@) =~= Seq::<MessageV>::empty());
        }
    }

    /// The messages currently shown, in transcript order.
    pub fn messages(&self) -> (r: &Vec<Message>)
        ensures
            r@.map_values(|m: Message| m@) == self@.messages,
    {
        &self.messages
    }

    /// The current scroll offset.
    pub fn vertical_scroll(&self) -> (r: usize)
        ensures
            r as int == self@.vertical_scroll,
    {
        self.vertical_scroll
    }

    /// The current scrollable excess.
    pub fn content_length(&self) -> (r: usize)
        ensures
            r as int == self@.content_length,
    {
        self.vertical_scrollbar_content_length
    }

    /// Append a message and scroll to the bottom.
    pub fn push_message(&mut self, message: Message)
        requires
            old(self).wf(),
        ensures
            final(self)@ == old(self)@.pushed(message@),
            final(self).wf(),
    {
        let ghost pre = self.messages@.map_values(|m: Message| m@);
        let ghost mv = message@;
        self.messages.push(message);
        proof {
            assert(self.messages@.map_values(|m: Message| m@) =~= pre.push(mv));
        }
        self.vertical_scroll = self.vertical_scrollbar_content_length;
    }

    /// Drop the trailing message, if any.
    pub fn pop_message(&mut self)
        ensures
            final(self)@.messages == if old(self)@.messages.len() > 0 {
                old(self)@.messages.drop_last()
            } else {
                old(self)@.messages
            },
            final(self)@.vertical_scroll == old(self)@.vertical_scroll,
            final(self)@.content_length == old(self)@.content_length,
    {
        let ghost pre = self.messages@.map_values(|m: Message| m@);
        if self.messages.len() > 0 {
            self.messages.pop();
            proof {
                assert(self.messages@.map_values(|m: Message| m@) =~= pre.drop_last());
            }
        }
    }

    /// The trailing message, if any.
    pub fn get_last_message(&self) -> (r: Option<&Message>)
        ensures
            match r {
                Some(m) => self@.messages.len() > 0 && m@ == self@.messages.last(),
                None => self@.messages.len() == 0,
            },
    {
        if self.messages.len() > 0 {
            Some(&self.messages[self.messages.len() - 1])
        } else {
            None
        }
    }

    /// Move one line up, saturating at the top: at offset 0 it stays 0.
    pub fn scroll_up(&mut self)
        requires
            old(self).wf(),
        ensures
            final(self)@ == old(self)@.scrolled_up(),
            final(self)@.vertical_scroll == if old(self)@.vertical_scroll > 0 {
                old(self)@.vertical_scroll - 1
            } else {
                0int
            },
            final(self).wf(),
    {
        if self.vertical_scroll > 0 {
            self.vertical_scroll = self.vertical_scroll - 1;
        }
    }

    /// Move one line down, saturating at the scrollable excess: at
    /// content length it stays there.
    pub fn scroll_down(&mut self)
        requires
            old(self).wf(),
        ensures
            final(self)@ == old(self)@.scrolled_down(),
            final(self)@.vertical_scroll == if old(self)@.vertical_scroll + 1
                <= old(self)@.content_length {
                old(self)@.vertical_scroll + 1
            } else {
                old(self)@.content_length
            },
            final(self).wf(),
    {
        if self.vertical_scroll < self.vertical_scrollbar_content_length {
            self.vertical_scroll = self.vertical_scroll + 1;
        }
    }

    /// Jump straight to the bottom: the offset lands exactly on the
    /// scrollable excess, from any offset.
    pub fn scroll_to_bottom(&mut self)
        ensures
            final(self)@ == old(self)@.scrolled_to_bottom(),
            final(self)@.vertical_scroll == old(self)@.content_length,
            final(self).wf(),
    {
        self.vertical_scroll = self.vertical_scrollbar_content_length;
    }

    /// Replace the message list wholesale and reset the scroll state; the
    /// jump to the bottom is deferred to the next render pass.
    pub fn load_messages(&mut self, messages: Vec<Message>)
        ensures
            final(self)@ == old(self)@.loaded(messages@.map_values(|m: Message| m@)),
            final(self).wf(),
    {
        self.messages = messages;
        self.vertical_scroll = 0;
        self.vertical_scrollbar_content_length = 0;
    }

    /// Apply a streaming delta to the transcript tail. The scroll state is
    /// left alone: a mid-stream patch must not yank the viewport.
    pub fn patch_last_if_matching(&mut self, message: Message)
        ensures
            final(self)@ == old(self)@.patched(message@),
    {
        let ghost pre = self.messages@.map_values(|m: Message| m@);
        let ghost mv = message@;
        let n = self.messages.len();
        if n == 0 {
            return ;
        }
        let last_role = self.messages[n - 1].role;
        match last_role {
            Role::Assistant => {
                self.messages.pop();
                proof {
                    assert(self.messages@.map_values(|m: Message| m@) =~= pre.drop_last());
                }
                let ghost mid = self.messages@.map_values(|m: Message| m@);
                self.messages.push(message);
                proof {
                    assert(self.messages@.map_values(|m: Message| m@) =~= mid.push(mv));
                }
            },
            Role::User => {
                self.messages.push(message);
                proof {
                    assert(self.messages@.map_values(|m: Message| m@) =~= pre.push(mv));
                }
            },
            Role::System => {},
        }
    }

    /// Once-per-render recompute: wrap every message at the viewport width,
    /// derive the scrollable excess from the total wrapped line count, and
    /// clamp the offset into range.
    pub fn recompute_scroll(&mut self, viewport_width: usize, viewport_height: usize)
        ensures
            final(self)@.messages == old(self)@.messages,
            spec_total_wrapped_lines(old(self)@.messages, viewport_width as int) <= usize::MAX
                ==> final(self)@.content_length == spec_scroll_content_length(
                spec_total_wrapped_lines(old(self)@.messages, viewport_width as int),
                viewport_height as int,
            ),
            final(self)@.vertical_scroll == if old(self)@.vertical_scroll
                <= final(self)@.content_length {
                old(self)@.vertical_scroll
            } else {
                final(self)@.content_length
            },
            final(self).wf(),
    {
        let ghost msgs = self.messages@.map_values(|m: Message| m@);
        let ghost w = viewport_width as int;
        let n = self.messages.len();
        let mut total: usize = 0;
        let mut i: usize = 0;
        while i < n
            invariant
                i <= n,
                n == self.messages.len(),
                msgs == self.messages@.map_values(|m: Message| m@),
                w == viewport_width as int,
                total as int == if spec_total_wrapped_lines(msgs.take(i as int), w) <= usize::MAX {
                    spec_total_wrapped_lines(msgs.take(i as int), w)
                } else {
                    usize::MAX as int
                },
            decreases n - i,
        {
            let lines = wrap_text(self.messages[i].content.as_str(), viewport_width);
            let c = lines.len();
            proof {
                assert(msgs.take(i as int + 1).drop_last() =~= msgs.take(i as int));
                assert(msgs.take(i as int + 1).last() == msgs[i as int]);
                assert(msgs[i as int].content == self.messages@[i as int].content@);
                lemma_total_wrapped_lines_nonneg(msgs.take(i as int), w);
            }
            if total <= usize::MAX - c {
                total = total + c;
            } else {
                total = usize::MAX;
            }
            i = i + 1;
        }
        proof {
            assert(msgs.take(n as int) =~= msgs);
        }
        let visible = if viewport_height > 2 * BORDER_SIZE {
            viewport_height - 2 * BORDER_SIZE
        } else {
            0
        };
        self.vertical_scrollbar_content_length = if total > visible {
            total - visible
        } else {
            0
        };
        if self.vertical_scroll > self.vertical_scrollbar_content_length {
            self.vertical_scroll = self.vertical_scrollbar_content_length;
        }
    }
}

} // verus!
