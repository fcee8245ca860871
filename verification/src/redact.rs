//! Helpers for logging secret-bearing data safely.
//!
//! The gssx protocol carries credentials, tokens and key material, none of
//! which may reach a log. These helpers record the shape of a secret (its
//! length) without its contents.

use vstd::prelude::*;

use crate::text;

verus! {

/// A byte length that renders as `<N bytes>`. Construct it with [`len`] or
/// [`opt_len`].
#[derive(Clone, Copy)]
pub struct Len(usize);

impl Len {
    /// The length.
    pub closed spec fn count(&self) -> usize {
        self.0
    }

    /// The length as `<N bytes>`: the text depends on the length alone.
    pub fn render(&self) -> (r: String)
        ensures
            r@ == "<"@ + text::decimal(self.count() as nat) + " bytes>"@,
    {
        let mut s = "<".to_owned();
        text::push_decimal(&mut s, self.0 as u64);
        s.push_str(" bytes>");
        s
    }
}

/// Summarise a secret-bearing byte slice for logging.
pub fn len(bytes: &[u8]) -> (r: Len)
    ensures
        r.count() == bytes@.len(),
{
    Len(bytes.len())
}

/// Summarise an optional secret-bearing byte slice; an absent one is like an
/// empty one.
pub fn opt_len(bytes: Option<&[u8]>) -> (r: Len)
    ensures
        r.count() == match bytes {
            Some(b) => b@.len(),
            None => 0,
        },
{
    match bytes {
        Some(b) => Len(b.len()),
        None => Len(0),
    }
}

/// Whether a secret is present (non-empty).
pub fn present(bytes: &[u8]) -> (r: bool)
    ensures
        r == (bytes@.len() > 0),
{
    bytes.len() > 0
}

} // verus!
