//! Sealing of credential handles.
//!
//! A client is handed an encrypted blob in place of a live credential. Some
//! encryption types pad what they encrypt and do not say by how much, so that
//! plain text for these gets padding of its own, which can be told apart and
//! taken off again.

use vstd::prelude::*;

use crate::octets;
use crate::text;

verus! {

/// The least padding.
pub const ENC_MIN_PAD_LEN: u8 = 8;

/// A krb5 error code, with what has failed.
#[derive(Debug)]
pub struct SealError {
    pub code: i32,
    pub what: String,
}

impl SealError {
    pub open spec fn text(self) -> Seq<char> {
        self.what@ + " failed (krb5 error "@ + text::signed_decimal(self.code as int) + ")"@
    }

    /// The error as a text.
    pub fn message(&self) -> (r: String)
        ensures
            r@ == self.text(),
    {
        let mut out: String = self.what.as_str().to_owned();
        out.push_str(" failed (krb5 error ");
        text::push_signed(&mut out, self.code);
        out.push_str(")");
        assert(out@ =~= self.text());
        out
    }
}

/// A krb5 code other than 0 is an error.
pub fn check(code: i32, what: &str) -> (r: Result<(), SealError>)
    ensures
        match r {
            Ok(_) => code == 0,
            Err(e) => code != 0 && e.code == code && e.what@ == what@,
        },
{
    if code == 0 {
        Ok(())
    } else {
        Err(SealError { code, what: what.to_owned() })
    }
}

// ---- keys ----

/// The sealing key of a service.
#[derive(Debug)]
pub struct CredHandle {
    pub enctype: i32,
    pub key: Vec<u8>,
}

impl CredHandle {
    /// The key that was found in a keytab, or else the random one; without
    /// either it is an error.
    pub fn new(
        from_keytab: Option<(i32, Vec<u8>)>,
        ephemeral: Option<(i32, Vec<u8>)>,
    ) -> (r: Result<CredHandle, SealError>)
        ensures
            match (from_keytab, ephemeral) {
                (Some(k), _) => r matches Ok(h) && h.enctype == k.0 && h.key == k.1,
                (None, Some(k)) => r matches Ok(h) && h.enctype == k.0 && h.key == k.1,
                (None, None) => r matches Err(e) && e.code == 0 && e.what@ == "key derivation"@,
            },
    {
        match from_keytab {
            Some((enctype, key)) => Ok(CredHandle { enctype, key }),
            None => match ephemeral {
                Some((enctype, key)) => Ok(CredHandle { enctype, key }),
                None => Err(SealError { code: 0, what: "key derivation".to_owned() }),
            },
        }
    }
}

/// An encryption type is permitted.
pub open spec fn is_permitted(permitted: Seq<i32>, enctype: i32) -> bool {
    permitted.contains(enctype)
}

/// No entry of a keytab has a permitted encryption type.
pub open spec fn none_permitted(entries: Seq<(i32, Vec<u8>)>, permitted: Seq<i32>) -> bool {
    forall|j: int|
        0 <= j < entries.len() ==> !is_permitted(permitted, (#[trigger] entries[j]).0)
}

fn permits(permitted: &[i32], enctype: i32) -> (r: bool)
    ensures
        r == is_permitted(permitted@, enctype),
{
    let mut i: usize = 0;
    while i < permitted.len()
        invariant
            i <= permitted@.len(),
            forall|j: int| 0 <= j < i ==> permitted@[j] != enctype,
        decreases permitted@.len() - i,
    {
        if permitted[i] == enctype {
            assert(permitted@[i as int] == enctype);
            return true;
        }
        i += 1;
    }
    false
}

/// The key of a keytab that is sealed with: the first one of a permitted
/// encryption type.
pub fn derive_from_keytab(entries: &[(i32, Vec<u8>)], permitted: &[i32]) -> (r: Option<
    (i32, Vec<u8>),
>)
    ensures
        match r {
            Some(k) => exists|i: int|
                {
                    &&& 0 <= i < entries@.len()
                    &&& (#[trigger] entries@[i]).0 == k.0 && entries@[i].1@ == k.1@
                    &&& is_permitted(permitted@, k.0)
                    &&& forall|j: int|
                        0 <= j < i ==> !is_permitted(permitted@, (#[trigger] entries@[j]).0)
                },
            None => forall|j: int|
                0 <= j < entries@.len() ==> !is_permitted(permitted@, (#[trigger] entries@[j]).0),
        },
        r is None <==> none_permitted(entries@, permitted@),
{
    let mut i: usize = 0;
    while i < entries.len()
        invariant
            i <= entries@.len(),
            forall|j: int|
                0 <= j < i ==> !is_permitted(permitted@, (#[trigger] entries@[j]).0),
        decreases entries@.len() - i,
    {
        let enctype: i32 = entries[i].0;
        if permits(permitted, enctype) {
            let key = octets::copy(entries[i].1.as_slice());
            assert(entries@[i as int].0 == enctype && entries@[i as int].1@ == key@);
            return Some((enctype, key));
        }
        i += 1;
    }
    None
}

// ---- padding ----

/// What sealing has to know next, or what it does.
#[derive(Debug, Clone, Copy, PartialEq, Eq)]
pub enum SealStep {
    /// The length of the cipher text for this many bytes, whatever is sealed.
    Probe(usize),
    /// The length of the cipher text for this much more than the plain text.
    Length(usize),
    /// Encrypt with this much padding, into a cipher text of this length.
    Encrypt { pad: u8, cipherlen: usize },
}

/// How many lengths are probed for.
pub const PROBES: usize = 3;

/// The encryption type pads, going by the lengths that were probed for: those of
/// no byte, one byte and two bytes. Of one that pads, two texts of which one has
/// a byte more can be as long as each other when they are encrypted; of three in
/// a row, two are.
pub open spec fn pads(known: Seq<usize>) -> bool {
    known[0] == known[1] || known[1] == known[2]
}

/// The place of the first of some lengths, from `i` up to `end`, that is greater
/// than another.
pub open spec fn first_above(lengths: Seq<usize>, bound: usize, i: int, end: int) -> Option<int>
    decreases end - i,
{
    if i >= end {
        None
    } else if lengths[i] > bound {
        Some(i)
    } else {
        first_above(lengths, bound, i + 1, end)
    }
}

/// The step of sealing, given the lengths that were learnt so far, in the order
/// in which they are asked for.
///
/// The first ones are probed for, and tell whether the encryption type pads. Where
/// it does not, neither is there padding. Otherwise every plain text gets the
/// least padding, and as much more as still fits into the same cipher text: the
/// next length is that with the least padding, and up to fifteen more tell how far
/// it goes.
pub open spec fn seal_step(known: Seq<usize>) -> SealStep {
    if known.len() < PROBES {
        SealStep::Probe(known.len() as usize)
    } else if !pads(known) {
        if known.len() == PROBES {
            SealStep::Length(0)
        } else {
            SealStep::Encrypt { pad: 0, cipherlen: known[3] }
        }
    } else if known.len() == PROBES {
        SealStep::Length(ENC_MIN_PAD_LEN as usize)
    } else {
        let end = if known.len() < 19 {
            known.len() as int
        } else {
            19
        };
        match first_above(known, known[3], 4, end) {
            Some(i) => SealStep::Encrypt {
                pad: (ENC_MIN_PAD_LEN + (i - 4)) as u8,
                cipherlen: known[3],
            },
            None => if known.len() >= 19 {
                SealStep::Encrypt { pad: ENC_MIN_PAD_LEN, cipherlen: known[3] }
            } else {
                SealStep::Length((ENC_MIN_PAD_LEN + (known.len() - 4) + 1) as usize)
            },
        }
    }
}

/// Whether the encryption type pads.
fn is_padding(known: &[usize]) -> (r: bool)
    requires
        known@.len() >= PROBES,
    ensures
        r == pads(known@),
{
    known[0] == known[1] || known[1] == known[2]
}

/// The next step of sealing.
pub fn seal(known: &[usize]) -> (r: SealStep)
    ensures
        r == seal_step(known@),
{
    let n: usize = known.len();
    if n < PROBES {
        return SealStep::Probe(n);
    }
    if !is_padding(known) {
        if n == PROBES {
            return SealStep::Length(0);
        }
        return SealStep::Encrypt { pad: 0, cipherlen: known[3] };
    }
    if n == PROBES {
        return SealStep::Length(ENC_MIN_PAD_LEN as usize);
    }
    let end: usize = if n < 19 {
        n
    } else {
        19
    };
    let mut i: usize = 4;
    while i < end
        invariant
            4 <= i <= end <= 19,
            end <= known@.len(),
            n == known@.len(),
            pads(known@),
            end == if n < 19 {
                n
            } else {
                19
            },
            first_above(known@, known@[3], 4, end as int) == first_above(
                known@,
                known@[3],
                i as int,
                end as int,
            ),
        decreases end - i,
    {
        if known[i] > known[3] {
            let pad: u8 = ENC_MIN_PAD_LEN + (i as u8 - 4);
            return SealStep::Encrypt { pad, cipherlen: known[3] };
        }
        i += 1;
    }
    if n >= 19 {
        SealStep::Encrypt { pad: ENC_MIN_PAD_LEN, cipherlen: known[3] }
    } else {
        SealStep::Length(ENC_MIN_PAD_LEN as usize + (n - 4) + 1)
    }
}

/// What is encrypted: the plain text, followed by the padding, each byte of which
/// is its length.
pub open spec fn padded(plain: Seq<u8>, pad: u8) -> Seq<u8> {
    plain + Seq::new(pad as nat, |i: int| pad)
}

/// Put padding on a plain text.
pub fn put_padding(plain: &[u8], pad: u8) -> (r: Vec<u8>)
    ensures
        r@ == padded(plain@, pad),
{
    let mut out = octets::copy(plain);
    let mut i: u8 = 0;
    while i < pad
        invariant
            i <= pad,
            out@ == plain@ + Seq::new(i as nat, |j: int| pad),
        decreases pad - i,
    {
        out.push(pad);
        i += 1;
        assert(out@ =~= plain@ + Seq::new(i as nat, |j: int| pad));
    }
    out
}

/// A decrypted text ends in padding: its last byte says how much, at least the
/// least padding and at most the whole text, and all of the padding is that byte.
pub open spec fn ends_in_padding(data: Seq<u8>) -> bool {
    &&& data.len() > 0
    &&& ENC_MIN_PAD_LEN <= data.last() <= data.len()
    &&& forall|k: int| data.len() - data.last() <= k < data.len() ==> data[k] == data.last()
}

/// A decrypted text without its padding.
pub open spec fn stripped(data: Seq<u8>) -> Seq<u8> {
    if ends_in_padding(data) {
        data.take(data.len() - data.last())
    } else {
        data
    }
}

/// What was sealed, from the decrypted text: padding is taken off only where the
/// encryption type pads, since there is none otherwise.
pub open spec fn unsealed(known: Seq<usize>, data: Seq<u8>) -> Seq<u8> {
    if pads(known) {
        stripped(data)
    } else {
        data
    }
}

/// Take the padding off a decrypted text; the lengths are those that sealing probes
/// for.
pub fn unseal(known: &[usize], data: Vec<u8>) -> (r: Vec<u8>)
    requires
        known@.len() >= PROBES,
    ensures
        r@ == unsealed(known@, data@),
{
    if !is_padding(known) {
        return data;
    }
    let n: usize = data.len();
    if n == 0 {
        return data;
    }
    let pad: u8 = data[n - 1];
    if pad < ENC_MIN_PAD_LEN || pad as usize > n {
        return data;
    }
    let mut j: usize = 0;
    while j < pad as usize
        invariant
            j <= pad as usize <= n,
            n == data@.len(),
            n > 0,
            pad == data@.last(),
            pads(known@),
            forall|k: int| n - j <= k < n ==> data@[k] == pad,
        decreases pad as usize - j,
    {
        if data[n - 1 - j] != pad {
            assert(data@[n - 1 - j] != data@.last());
            return data;
        }
        j += 1;
    }
    let mut out = data;
    out.truncate(n - pad as usize);
    out
}

/// Taking the padding off undoes putting it on, for any plain text.
pub proof fn stripping_undoes_padding(plain: Seq<u8>, pad: u8)
    requires
        pad >= ENC_MIN_PAD_LEN,
    ensures
        stripped(padded(plain, pad)) == plain,
{
    let data = padded(plain, pad);
    assert(data.last() == pad);
    assert(ends_in_padding(data));
    assert(data.take(data.len() - pad) =~= plain);
}

/// Unsealing undoes sealing, for any plain text and whatever lengths sealing
/// learns: of what was encrypted, the lengths that are probed for give the plain
/// text back.
pub proof fn unsealing_undoes_sealing(plain: Seq<u8>, known: Seq<usize>)
    requires
        seal_step(known) is Encrypt,
    ensures
        unsealed(known, padded(plain, seal_step(known)->pad)) == plain,
        unsealed(known.take(PROBES as int), padded(plain, seal_step(known)->pad)) == plain,
{
    sealing_ends(known);
    let pad = seal_step(known)->pad;
    if pads(known) {
        stripping_undoes_padding(plain, pad);
    } else {
        assert(padded(plain, 0) =~= plain);
    }
}

/// Sealing asks for at most nineteen lengths. There is padding exactly where the
/// encryption type pads: between the least and fourteen bytes more.
pub proof fn sealing_ends(known: Seq<usize>)
    ensures
        known.len() >= 19 ==> seal_step(known) is Encrypt,
        seal_step(known) matches SealStep::Encrypt { pad, .. } ==> if pads(known) {
            ENC_MIN_PAD_LEN <= pad <= ENC_MIN_PAD_LEN + 14
        } else {
            pad == 0
        },
{
    if known.len() > PROBES {
        let end = if known.len() < 19 {
            known.len() as int
        } else {
            19
        };
        lemma_first_above(known, known[3], 4, end);
    }
}

proof fn lemma_first_above(lengths: Seq<usize>, bound: usize, i: int, end: int)
    ensures
        first_above(lengths, bound, i, end) matches Some(k) ==> i <= k < end && lengths[k] > bound,
    decreases end - i,
{
    if i < end {
        lemma_first_above(lengths, bound, i + 1, end);
    }
}

} // verus!
