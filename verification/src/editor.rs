//! A minimal line-editor model shared by the prompt and the popup: a text
//! buffer that keys append to, and the trimming applied when its content
//! is read out.

use vstd::prelude::*;

use crate::event::{KeyCode, KeyInput};

verus! {

/// The buffer after one key: printable characters and Enter append,
/// Backspace deletes the trailing character, anything else (and any key
/// with Ctrl held) leaves the buffer alone.
pub open spec fn spec_edited(buffer: Seq<char>, key: KeyInput) -> Seq<char> {
    if key.ctrl {
        buffer
    } else {
        match key.code {
            KeyCode::Char(c) => buffer.push(c),
            KeyCode::Enter => buffer.push('\n'),
            KeyCode::Backspace => if buffer.len() > 0 {
                buffer.drop_last()
            } else {
                buffer
            },
            _ => buffer,
        }
    }
}

/// Relies on String::push: appends one character at the end.
#[verifier::external_body]
pub(crate) fn push_char(s: &mut String, c: char)
    ensures
        final(s)@ == old(s)@.push(c),
{
    s.push(c);
}

/// Relies on String::pop: removes the trailing character, if any.
#[verifier::external_body]
pub(crate) fn pop_char(s: &mut String)
    ensures
        final(s)@ == if old(s)@.len() > 0 {
            old(s)@.drop_last()
        } else {
            old(s)@
        },
{
    let _ = s.pop();
}

/// Apply one key to a text buffer.
pub(crate) fn apply_key(buffer: &mut String, key: KeyInput)
    ensures
        final(buffer)@ == spec_edited(old(buffer)@, key),
{
    if key.ctrl {
        return ;
    }
    match key.code {
        KeyCode::Char(c) => push_char(buffer, c),
        KeyCode::Enter => push_char(buffer, '\n'),
        KeyCode::Backspace => pop_char(buffer),
        _ => {},
    }
}

/// Whitespace that trimming removes at either end of a buffer.
pub open spec fn spec_is_blank(c: char) -> bool {
    c == ' ' || c == '\t' || c == '\n' || c == '\r'
}

/// The buffer with leading whitespace removed.
pub open spec fn spec_trim_front(s: Seq<char>) -> Seq<char>
    decreases s.len(),
{
    if s.len() == 0 {
        s
    } else if spec_is_blank(s.first()) {
        spec_trim_front(s.drop_first())
    } else {
        s
    }
}

/// The buffer with trailing whitespace removed.
pub open spec fn spec_trim_back(s: Seq<char>) -> Seq<char>
    decreases s.len(),
{
    if s.len() == 0 {
        s
    } else if spec_is_blank(s.last()) {
        spec_trim_back(s.drop_last())
    } else {
        s
    }
}

/// The buffer with whitespace removed at both ends.
pub open spec fn spec_trim(s: Seq<char>) -> Seq<char> {
    spec_trim_back(spec_trim_front(s))
}

proof fn lemma_trim_front_subrange(s: Seq<char>, i: int)
    requires
        0 <= i <= s.len(),
        forall|k: int| 0 <= k < i ==> spec_is_blank(s[k]),
        i == s.len() || !spec_is_blank(s[i]),
    ensures
        spec_trim_front(s) == s.subrange(i, s.len() as int),
    decreases i,
{
    if i == 0 {
        assert(s.subrange(0, s.len() as int) =~= s);
    } else {
        lemma_trim_front_subrange(s.drop_first(), i - 1);
        assert(s.drop_first().subrange(i - 1, s.drop_first().len() as int) =~= s.subrange(
            i,
            s.len() as int,
        ));
    }
}

proof fn lemma_trim_back_subrange(s: Seq<char>, j: int)
    requires
        0 <= j <= s.len(),
        forall|k: int| j <= k < s.len() ==> spec_is_blank(s[k]),
        j == 0 || !spec_is_blank(s[j - 1]),
    ensures
        spec_trim_back(s) == s.subrange(0, j),
    decreases s.len(),
{
    if j == s.len() {
        assert(s.subrange(0, j) =~= s);
    } else {
        assert(spec_is_blank(s.last()));
        lemma_trim_back_subrange(s.drop_last(), j);
        assert(s.drop_last().subrange(0, j) =~= s.subrange(0, j));
    }
}

fn is_blank(c: char) -> (r: bool)
    ensures
        r == spec_is_blank(c),
{
    c == ' ' || c == '\t' || c == '\n' || c == '\r'
}

/// The buffer's content with whitespace removed at both ends, as a fresh
/// string.
pub fn trimmed(s: &str) -> (r: String)
    ensures
        r@ == spec_trim(s@),
{
    let n = s.unicode_len();
    let mut start: usize = 0;
    while start < n && is_blank(s.get_char(start))
        invariant
            0 <= start <= n,
            n == s@.len(),
            forall|k: int| 0 <= k < start ==> spec_is_blank(s@[k]),
        decreases n - start,
    {
        start = start + 1;
    }
    let mut end: usize = n;
    while end > start && is_blank(s.get_char(end - 1))
        invariant
            start <= end <= n,
            n == s@.len(),
            forall|k: int| end <= k < n ==> spec_is_blank(s@[k]),
        decreases end,
    {
        end = end - 1;
    }
    proof {
        lemma_trim_front_subrange(s@, start as int);
        let front = s@.subrange(start as int, n as int);
        lemma_trim_back_subrange(front, end - start);
        assert(front.subrange(0, end - start) =~= s@.subrange(start as int, end as int));
    }
    let part = s.substring_char(start, end);
    part.to_owned()
}

} // verus!
