//! How the secret is obtained.
//!
//! In batch mode one line of input is the secret. In interactive mode the
//! secret is typed, shown again, and used only once the user has confirmed
//! it: `Acquisition` is the state of that exchange. Reading and writing are
//! left to the caller; what is decided from the lines that were read is
//! decided here.

use vstd::prelude::*;
use vstd::string::StrSliceExecFns;
use vstd::utf8::encode_utf8;

use crate::error::Error;
use crate::sensitive::SecretBuffer;
use crate::sensitive::SensitiveText;
use crate::string_codec::into_utf8_bytes;

verus! {

/// Whether `c` has the Unicode property White_Space.
pub open spec fn is_whitespace(c: char) -> bool {
    let v = c as u32;
    ||| 0x09 <= v <= 0x0D
    ||| v == 0x20
    ||| v == 0x85
    ||| v == 0xA0
    ||| v == 0x1680
    ||| 0x2000 <= v <= 0x200A
    ||| v == 0x2028
    ||| v == 0x2029
    ||| v == 0x202F
    ||| v == 0x205F
    ||| v == 0x3000
}

/// `s` without the whitespace it starts with.
pub open spec fn trim_start(s: Seq<char>) -> Seq<char>
    decreases s.len(),
{
    if s.len() > 0 && is_whitespace(s.first()) {
        trim_start(s.drop_first())
    } else {
        s
    }
}

/// `s` without the whitespace it ends with.
pub open spec fn trim_end(s: Seq<char>) -> Seq<char>
    decreases s.len(),
{
    if s.len() > 0 && is_whitespace(s.last()) {
        trim_end(s.drop_last())
    } else {
        s
    }
}

/// `s` without the whitespace at either end.
pub open spec fn trimmed(s: Seq<char>) -> Seq<char> {
    trim_end(trim_start(s))
}

/// `c`, or its lower-case form if it is one of `A` to `Z`.
pub open spec fn ascii_lower(c: char) -> char {
    if 'A' <= c <= 'Z' {
        ((c as u32) + 32) as char
    } else {
        c
    }
}

/// Whether an answer to "Is this correct? [Y/n]" confirms: trimmed and
/// without regard to case, it is empty, `y` or `yes`.
pub open spec fn is_affirmative(answer: Seq<char>) -> bool {
    let word = trimmed(answer).map_values(|c: char| ascii_lower(c));
    word == ""@ || word == "y"@ || word == "yes"@
}

proof fn lemma_trim_start(s: Seq<char>, k: int)
    requires
        0 <= k <= s.len(),
        forall|i: int| 0 <= i < k ==> is_whitespace(s[i]),
        k == s.len() || !is_whitespace(s[k]),
    ensures
        trim_start(s) == s.skip(k),
    decreases k,
{
    if k == 0 {
        assert(s.skip(0) =~= s);
    } else {
        let rest = s.drop_first();
        assert forall|i: int| 0 <= i < k - 1 implies is_whitespace(rest[i]) by {
            assert(rest[i] == s[i + 1]);
        }
        lemma_trim_start(rest, k - 1);
        assert(rest.skip(k - 1) =~= s.skip(k));
    }
}

proof fn lemma_trim_end(s: Seq<char>, k: int)
    requires
        0 <= k <= s.len(),
        forall|i: int| k <= i < s.len() ==> is_whitespace(s[i]),
        k == 0 || !is_whitespace(s[k - 1]),
    ensures
        trim_end(s) == s.take(k),
    decreases s.len() - k,
{
    if k == s.len() {
        assert(s.take(k) =~= s);
    } else {
        let rest = s.drop_last();
        lemma_trim_end(rest, k);
        assert(rest.take(k) =~= s.take(k));
    }
}

fn is_whitespace_char(c: char) -> (white: bool)
    ensures
        white == is_whitespace(c),
{
    let v: u32 = c as u32;
    (0x09 <= v && v <= 0x0D) || v == 0x20 || v == 0x85 || v == 0xA0 || v == 0x1680 || (0x2000 <= v
        && v <= 0x200A) || v == 0x2028 || v == 0x2029 || v == 0x202F || v == 0x205F || v == 0x3000
}

/// The part of `line` between its leading and its trailing whitespace.
pub fn trim(line: &str) -> (inner: &str)
    ensures
        inner@ == trimmed(line@),
{
    let n = line.unicode_len();
    let mut start: usize = 0;
    while start < n
        invariant
            n == line@.len(),
            start <= n,
            forall|i: int| 0 <= i < start ==> is_whitespace(line@[i]),
        ensures
            start <= n,
            forall|i: int| 0 <= i < start ==> is_whitespace(line@[i]),
            start == n || !is_whitespace(line@[start as int]),
        decreases n - start,
    {
        if !is_whitespace_char(line.get_char(start)) {
            break ;
        }
        start += 1;
    }
    let mut end: usize = n;
    while end > start
        invariant
            n == line@.len(),
            start <= end <= n,
            forall|i: int| end <= i < n ==> is_whitespace(line@[i]),
        ensures
            start <= end <= n,
            forall|i: int| end <= i < n ==> is_whitespace(line@[i]),
            end == start || !is_whitespace(line@[end - 1]),
        decreases end,
    {
        if !is_whitespace_char(line.get_char(end - 1)) {
            break ;
        }
        end -= 1;
    }
    proof {
        let s = line@;
        let tail = s.skip(start as int);
        lemma_trim_start(s, start as int);
        assert forall|i: int| end - start <= i < tail.len() implies is_whitespace(tail[i]) by {
            assert(tail[i] == s[i + start]);
        }
        lemma_trim_end(tail, end - start);
        assert(tail.take(end - start) =~= s.subrange(start as int, end as int));
    }
    line.substring_char(start, end)
}

/// Whether `response` confirms the secret.
pub fn confirms(response: &str) -> (yes: bool)
    ensures
        yes == is_affirmative(response@),
{
    let word = trim(response);
    let n = word.unicode_len();
    proof {
        reveal_strlit("");
        reveal_strlit("y");
        reveal_strlit("yes");
        let lowered = word@.map_values(|c: char| ascii_lower(c));
        assert(lowered.len() == n);
        if n == 0 {
            assert(lowered =~= ""@);
        }
        if n == 1 {
            assert(lowered == "y"@ <==> lowered[0] == 'y') by {
                if lowered[0] == 'y' {
                    assert(lowered =~= "y"@);
                }
            }
        }
        if n == 3 {
            assert(lowered == "yes"@ <==> lowered[0] == 'y' && lowered[1] == 'e' && lowered[2]
                == 's') by {
                if lowered[0] == 'y' && lowered[1] == 'e' && lowered[2] == 's' {
                    assert(lowered =~= "yes"@);
                }
            }
        }
    }
    if n == 0 {
        true
    } else if n == 1 {
        let c = word.get_char(0);
        c == 'y' || c == 'Y'
    } else if n == 3 {
        let c0 = word.get_char(0);
        let c1 = word.get_char(1);
        let c2 = word.get_char(2);
        (c0 == 'y' || c0 == 'Y') && (c1 == 'e' || c1 == 'E') && (c2 == 's' || c2 == 'S')
    } else {
        false
    }
}

/// The secret that a line of input gives: the bytes of the line without the
/// whitespace around it.
pub fn secret_from_line(line: &str) -> (secret: SecretBuffer)
    ensures
        secret@ == encode_utf8(trimmed(line@)),
{
    SecretBuffer::new(into_utf8_bytes(trim(line)))
}

/// The state of an interactive acquisition.
#[derive(Debug)]
pub enum Acquisition {
    /// The secret has yet to be typed.
    Prompting,
    /// The secret was typed and awaits confirmation; it is held without the
    /// whitespace around it.
    Confirming(SensitiveText),
    /// The secret was confirmed.
    Accepted(SecretBuffer),
    /// The secret was not confirmed, and is gone.
    Rejected,
}

impl Acquisition {
    /// Whether `next` is the state after a line was typed as the secret.
    pub open spec fn typed(self, line: Seq<char>, next: Acquisition) -> bool {
        match self {
            Acquisition::Prompting => next matches Acquisition::Confirming(secret) && secret@
                == trimmed(line),
            _ => next == self,
        }
    }

    /// Whether `next` is the state after `response` was given to the
    /// question whether the secret is correct.
    pub open spec fn answered(self, response: Seq<char>, next: Acquisition) -> bool {
        match self {
            Acquisition::Confirming(secret) => if is_affirmative(response) {
                next matches Acquisition::Accepted(bytes) && bytes@ == encode_utf8(secret@)
            } else {
                next == Acquisition::Rejected
            },
            _ => next == self,
        }
    }

    /// An acquisition begins by asking for the secret.
    pub fn start() -> (begun: Acquisition)
        ensures
            begun == Acquisition::Prompting,
    {
        Acquisition::Prompting
    }

    /// Takes the line that was typed as the secret. Only `Prompting` awaits
    /// one; in any other state the line is dropped.
    pub fn on_secret(self, line: SensitiveText) -> (next: Acquisition)
        ensures
            self.typed(line@, next),
    {
        match self {
            Acquisition::Prompting => {
                let secret = trim(line.as_str()).to_owned();
                Acquisition::Confirming(SensitiveText::new(secret))
            },
            other => other,
        }
    }

    /// Takes the answer to the question whether the secret is correct. Only
    /// `Confirming` awaits one.
    pub fn on_answer(self, response: &str) -> (next: Acquisition)
        ensures
            self.answered(response@, next),
    {
        match self {
            Acquisition::Confirming(secret) => {
                if confirms(response) {
                    Acquisition::Accepted(SecretBuffer::new(into_utf8_bytes(secret.as_str())))
                } else {
                    Acquisition::Rejected
                }
            },
            other => other,
        }
    }

    /// The secret that awaits confirmation, for display, with the number of
    /// its characters.
    pub fn pending(&self) -> (shown: Option<(&str, usize)>)
        ensures
            match *self {
                Acquisition::Confirming(secret) => shown matches Some((text, count)) && text@
                    == secret@ && count == secret@.len(),
                _ => shown is None,
            },
    {
        match self {
            Acquisition::Confirming(secret) => {
                let text = secret.as_str();
                Some((text, text.unicode_len()))
            },
            _ => None,
        }
    }

    /// How the acquisition ended, once it has: with the secret, or with the
    /// user's refusal. `None` while it is under way.
    pub fn outcome(self) -> (ended: Option<Result<SecretBuffer, Error>>)
        ensures
            match self {
                Acquisition::Accepted(secret) => ended == Some(
                    Ok::<SecretBuffer, Error>(secret),
                ),
                Acquisition::Rejected => ended == Some(Err::<SecretBuffer, Error>(Error::Aborted)),
                _ => ended is None,
            },
    {
        match self {
            Acquisition::Accepted(secret) => Some(Ok(secret)),
            Acquisition::Rejected => Some(Err(Error::Aborted)),
            _ => None,
        }
    }
}

} // verus!
