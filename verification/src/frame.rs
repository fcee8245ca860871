//! SunRPC record-marking framing as used on the gssproxy Unix socket.
//!
//! Every message is preceded by a 4-byte big-endian length word whose top bit
//! (`FRAGMENT_BIT`) marks the last fragment. Only a single fragment is ever
//! used, so the body length is the low 31 bits.

use vstd::prelude::*;

use crate::rpc::{FRAGMENT_BIT, MAX_RPC_SIZE};
use crate::text;
use crate::xdr;

verus! {

/// Error returned while parsing a record header or body.
#[derive(Debug, Clone, Copy, PartialEq, Eq)]
pub enum FrameError {
    /// The fragment header did not have the last-fragment bit set (multiple
    /// fragments are not supported).
    MultiFragment,
    /// The advertised body length exceeds `MAX_RPC_SIZE`.
    TooLarge(usize),
}

impl FrameError {
    /// The text of [`FrameError::message`].
    pub open spec fn text(&self) -> Seq<char> {
        match self {
            FrameError::MultiFragment => "multi-fragment records are not supported"@,
            FrameError::TooLarge(n) => "record body too large: "@ + text::decimal(*n as nat)
                + " bytes"@,
        }
    }

    /// A description of the error.
    pub fn message(&self) -> (r: String)
        ensures
            r@ == self.text(),
    {
        match self {
            FrameError::MultiFragment => "multi-fragment records are not supported".to_owned(),
            FrameError::TooLarge(n) => {
                let mut s = "record body too large: ".to_owned();
                text::push_decimal(&mut s, *n as u64);
                s.push_str(" bytes");
                s
            },
        }
    }
}

/// The length word of a body of `len` bytes: the low 32 bits of the length,
/// with the top bit set.
pub open spec fn marked(len: usize) -> u32 {
    (len as u32) | FRAGMENT_BIT
}

/// Encode the 4-byte record-marking header for a body of `len` bytes.
pub fn encode_header(len: usize) -> (r: [u8; 4])
    ensures
        r@ == xdr::be32(marked(len)),
{
    xdr::word_bytes((len as u32) | FRAGMENT_BIT)
}

/// Prepend a record header to `body`, returning the full frame to write.
pub fn frame(body: &[u8]) -> (r: Vec<u8>)
    ensures
        r@ == xdr::be32(marked(body@.len() as usize)) + body@,
{
    let mut out: Vec<u8> = Vec::new();
    let header = encode_header(body.len());
    xdr::append_bytes(&mut out, header.as_slice());
    xdr::append_bytes(&mut out, body);
    assert(out@ =~= xdr::be32(marked(body@.len() as usize)) + body@);
    out
}

/// What a header word announces: the top bit must be set, and the low 31 bits
/// are a length of at most `MAX_RPC_SIZE`.
pub open spec fn announced(word: u32) -> Result<usize, FrameError> {
    if word < 0x8000_0000 {
        Err(FrameError::MultiFragment)
    } else if word - 0x8000_0000 > MAX_RPC_SIZE {
        Err(FrameError::TooLarge((word - 0x8000_0000) as usize))
    } else {
        Ok((word - 0x8000_0000) as usize)
    }
}

/// Parse a record-marking header word, validating the last-fragment bit and
/// the size cap. Returns the body length in bytes.
pub fn parse_header(word: u32) -> (r: Result<usize, FrameError>)
    ensures
        r == announced(word),
{
    assert((word & 0x8000_0000 == 0) <==> word < 0x8000_0000) by (bit_vector);
    assert(word >= 0x8000_0000 ==> word & !0x8000_0000u32 == word - 0x8000_0000) by (bit_vector);
    if word & FRAGMENT_BIT == 0 {
        return Err(FrameError::MultiFragment);
    }
    let len: usize = (word & !FRAGMENT_BIT) as usize;
    if len > MAX_RPC_SIZE {
        return Err(FrameError::TooLarge(len));
    }
    Ok(len)
}

/// The length of every body that may be sent is read back from its header.
pub proof fn header_reads_back(len: usize)
    requires
        len <= MAX_RPC_SIZE,
    ensures
        announced(marked(len)) == Ok::<usize, FrameError>(len),
{
    let w = len as u32;
    assert(w < 0x8000_0000u32 ==> (w | 0x8000_0000u32) == w + 0x8000_0000) by (bit_vector);
}

/// No length below the fragment bit is taken for another: the header of a body
/// that is too large says so.
pub proof fn oversized_header_is_rejected(len: usize)
    requires
        MAX_RPC_SIZE < len < 0x8000_0000,
    ensures
        announced(marked(len)) == Err::<usize, FrameError>(FrameError::TooLarge(len)),
{
    let w = len as u32;
    assert(w < 0x8000_0000u32 ==> (w | 0x8000_0000u32) == w + 0x8000_0000) by (bit_vector);
}

} // verus!
