//! GSSAPI statuses.

use vstd::prelude::*;

use crate::consts::{GSS_S_NAME_NOT_MN, GSS_S_UNAVAILABLE};
use crate::text;

verus! {

/// A GSSAPI failure, with the messages that the mechanism gives for it.
#[derive(Debug)]
pub struct GssError {
    pub major: u32,
    pub minor: u32,
    pub messages: Vec<String>,
}

/// A status is an error: it has calling-error or routine-error bits, which are
/// its upper half.
pub open spec fn is_failure(major: u32) -> bool {
    major >= 0x1_0000
}

/// Whether a major status is an error.
pub fn is_error(major: u32) -> (r: bool)
    ensures
        r == is_failure(major),
{
    assert(((major & 0xffff_0000) != 0) == (major >= 0x1_0000)) by (bit_vector);
    (major & 0xffff_0000) != 0
}

/// Turn a status into a result; the messages are those of an error.
pub fn check(major: u32, minor: u32, messages: Vec<String>) -> (r: Result<(), GssError>)
    ensures
        match r {
            Ok(_) => !is_failure(major),
            Err(e) => {
                &&& is_failure(major)
                &&& e.major == major && e.minor == minor && e.messages == messages
            },
        },
{
    if is_error(major) {
        Err(GssError { major, minor, messages })
    } else {
        Ok(())
    }
}

/// The texts of some strings.
pub open spec fn texts(s: Seq<String>) -> Seq<Seq<char>> {
    Seq::new(s.len(), |i: int| s[i]@)
}

/// Texts joined with a comma and a space.
pub open spec fn joined(parts: Seq<Seq<char>>) -> Seq<char>
    decreases parts.len(),
{
    if parts.len() == 0 {
        Seq::empty()
    } else if parts.len() == 1 {
        parts[0]
    } else {
        joined(parts.drop_last()) + ", "@ + parts.last()
    }
}

/// Join strings.
pub fn join(parts: &[String]) -> (r: String)
    ensures
        r@ == joined(texts(parts@)),
{
    let ghost all = texts(parts@);
    let mut out: String = "".to_owned();
    proof {
        reveal_strlit("");
        assert(out@ =~= Seq::empty());
        assert(all.take(0) =~= Seq::empty());
    }
    let mut i: usize = 0;
    while i < parts.len()
        invariant
            i <= parts@.len(),
            all == texts(parts@),
            out@ == joined(all.take(i as int)),
        decreases parts@.len() - i,
    {
        let ghost next = all.take(i + 1);
        assert(next.drop_last() =~= all.take(i as int));
        assert(next.last() == parts@[i as int]@);
        if i > 0 {
            out.push_str(", ");
        }
        out.push_str(parts[i].as_str());
        assert(out@ =~= joined(next));
        i += 1;
    }
    assert(all.take(i as int) =~= all);
    out
}

/// A hexadecimal digit, in lower case.
pub open spec fn hex_digit(d: int) -> char {
    if d < 10 {
        (48 + d) as char
    } else {
        (87 + d) as char
    }
}

/// The last `n` hexadecimal digits of a number.
pub open spec fn hex(v: nat, n: nat) -> Seq<char>
    decreases n,
{
    if n == 0 {
        Seq::empty()
    } else {
        hex(v / 16, (n - 1) as nat).push(hex_digit((v % 16) as int))
    }
}

fn push_hex(out: &mut String, v: u32, n: u32)
    ensures
        final(out)@ == old(out)@ + hex(v as nat, n as nat),
    decreases n,
{
    if n > 0 {
        push_hex(out, v / 16, n - 1);
        let d: u8 = (v % 16) as u8;
        let c: u8 = if d < 10 {
            48 + d
        } else {
            87 + d
        };
        out.push(c as char);
        assert(out@ =~= old(out)@ + hex(v as nat, n as nat));
    } else {
        assert(out@ =~= old(out)@ + hex(v as nat, 0));
    }
}

impl GssError {
    pub open spec fn text(self) -> Seq<char> {
        "gssapi error (major=0x"@ + hex(self.major as nat, 8) + " minor="@ + text::decimal(
            self.minor as nat,
        ) + "): "@ + joined(texts(self.messages@))
    }

    /// The failure as a text.
    pub fn message(&self) -> (r: String)
        ensures
            r@ == self.text(),
    {
        let mut out: String = "gssapi error (major=0x".to_owned();
        push_hex(&mut out, self.major, 8);
        out.push_str(" minor=");
        text::push_decimal(&mut out, self.minor as u64);
        out.push_str("): ");
        let messages = join(self.messages.as_slice());
        out.push_str(messages.as_str());
        assert(out@ =~= self.text());
        out
    }
}

/// The messages of a status, as the mechanism gives them one by one.
pub struct StatusMessages {
    pub messages: Vec<String>,
}

impl StatusMessages {
    /// Take what a call for the next message gave. Whether there is another: an
    /// error ends the messages, and so does a context of 0.
    pub fn take(&mut self, major: u32, message: String, message_context: u32) -> (r: bool)
        ensures
            if is_failure(major) {
                final(self).messages == old(self).messages && !r
            } else {
                &&& final(self).messages@ == old(self).messages@.push(message)
                &&& r == (message_context != 0)
            },
    {
        if is_error(major) {
            return false;
        }
        self.messages.push(message);
        message_context != 0
    }
}

/// The exported form of a name, from what the mechanism gave: a name that is not
/// a mechanism name has none.
pub fn exported(major: u32, minor: u32, messages: Vec<String>, token: Vec<u8>) -> (r: Result<
    Option<Vec<u8>>,
    GssError,
>)
    ensures
        if major == GSS_S_NAME_NOT_MN {
            r == Ok::<Option<Vec<u8>>, GssError>(None)
        } else if is_failure(major) {
            r matches Err(e) && e.major == major && e.minor == minor && e.messages == messages
        } else {
            r == Ok::<Option<Vec<u8>>, GssError>(Some(token))
        },
{
    if major == GSS_S_NAME_NOT_MN {
        return Ok(None);
    }
    match check(major, minor, messages) {
        Ok(_) => Ok(Some(token)),
        Err(e) => Err(e),
    }
}

/// The composite form likewise; a mechanism that cannot make one gives none.
pub fn exported_composite(
    major: u32,
    minor: u32,
    messages: Vec<String>,
    token: Vec<u8>,
) -> (r: Result<Option<Vec<u8>>, GssError>)
    ensures
        if major == GSS_S_NAME_NOT_MN || major == GSS_S_UNAVAILABLE {
            r == Ok::<Option<Vec<u8>>, GssError>(None)
        } else if is_failure(major) {
            r matches Err(e) && e.major == major && e.minor == minor && e.messages == messages
        } else {
            r == Ok::<Option<Vec<u8>>, GssError>(Some(token))
        },
{
    if major == GSS_S_NAME_NOT_MN || major == GSS_S_UNAVAILABLE {
        return Ok(None);
    }
    match check(major, minor, messages) {
        Ok(_) => Ok(Some(token)),
        Err(e) => Err(e),
    }
}

} // verus!
