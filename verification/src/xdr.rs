//! XDR (RFC 4506) as the gssx protocol uses it.
//!
//! A [`Shape`] is an XDR type and a [`Tree`] is a value of one. [`bytes`] says
//! how a tree looks on the wire and [`parse`] says what a byte string reads as,
//! error and resting position included. Every wire type of the crate names its
//! shape and gives the tree of each of its values; the encoder and the decoder
//! are held to [`bytes`] and [`parse`].
//!
//! * integers are big-endian, in 4-byte units;
//! * a 64-bit integer is two units, the high word first;
//! * a bool or an enum is one unit;
//! * opaque data is a 4-byte length, the data, and zeros up to a multiple of 4;
//! * an array is a 4-byte count and the elements;
//! * an optional value is a bool, and the value when the bool is true.

use vstd::prelude::*;

verus! {

/// Error returned while decoding an XDR stream.
#[derive(Debug, Clone, Copy, PartialEq, Eq)]
pub enum XdrError {
    /// Not enough bytes left in the buffer to decode the requested item.
    Eof,
    /// A boolean, enum or discriminant held a value outside the allowed range.
    InvalidValue(&'static str),
    /// A length field exceeded its maximum.
    TooLong,
}

impl XdrError {
    /// The text of [`XdrError::message`].
    pub open spec fn text(&self) -> Seq<char> {
        match self {
            XdrError::Eof => "unexpected end of XDR stream"@,
            XdrError::InvalidValue(what) => "invalid XDR value: "@ + what@,
            XdrError::TooLong => "XDR length exceeds maximum"@,
        }
    }

    /// A description of the error.
    pub fn message(&self) -> (r: String)
        ensures
            r@ == self.text(),
    {
        match self {
            XdrError::Eof => "unexpected end of XDR stream".to_owned(),
            XdrError::InvalidValue(what) => {
                let mut s = "invalid XDR value: ".to_owned();
                s.push_str(what);
                s
            },
            XdrError::TooLong => "XDR length exceeds maximum".to_owned(),
        }
    }
}

/// Result type for decoding.
pub type XdrResult<T> = Result<T, XdrError>;

// ---- the model ----

/// An XDR type.
pub enum Shape {
    /// One 4-byte unit.
    Word,
    /// Two 4-byte units, the high word first.
    Hyper,
    /// One unit that is 0 or 1.
    Bool,
    /// Length-prefixed bytes, padded to a multiple of 4.
    Opaque,
    /// A word that must be one of some values; the error for any other names
    /// what was expected.
    Enum(Seq<u32>, &'static str),
    /// Opaque data of at most so many bytes.
    Bounded(nat),
    /// A count and that many elements.
    Array(Box<Shape>),
    /// A bool, and the element when it is true.
    Optional(Box<Shape>),
    /// One value after another.
    Pair(Box<Shape>, Box<Shape>),
    /// A discriminant, and the arm with that number, or the default arm.
    Switch(Seq<Shape>, Box<Shape>),
    /// A word, followed by a further value when the word is the given one.
    Tail(u32, Box<Shape>),
    /// Nothing is accepted here; the error names what was expected.
    Reject(&'static str),
}

/// A value of an XDR type.
pub enum Tree {
    Word(u32),
    Hyper(u64),
    Bool(bool),
    Opaque(Seq<u8>),
    Array(Seq<Tree>),
    Absent,
    Present(Box<Tree>),
    Pair(Box<Tree>, Box<Tree>),
    Case(u32, Box<Tree>),
}

/// What reading at a position gives: a tree or an error, and where the reader
/// rests afterwards.
pub struct Parsed {
    pub val: Result<Tree, XdrError>,
    pub next: int,
}

/// What reading some array elements gives.
pub struct ParsedItems {
    pub val: Result<Seq<Tree>, XdrError>,
    pub next: int,
}

/// The four big-endian bytes of a word.
pub open spec fn be32(w: u32) -> Seq<u8> {
    seq![
        (w / 0x100_0000) as u8,
        ((w / 0x1_0000) % 0x100) as u8,
        ((w / 0x100) % 0x100) as u8,
        (w % 0x100) as u8,
    ]
}

/// The big-endian word at position `p`.
pub open spec fn word_at(b: Seq<u8>, p: int) -> u32 {
    (b[p] * 0x100_0000 + b[p + 1] * 0x1_0000 + b[p + 2] * 0x100 + b[p + 3]) as u32
}

/// The high and the low half of a 64-bit value.
pub open spec fn high_word(v: u64) -> u32 {
    (v / 0x1_0000_0000) as u32
}

pub open spec fn low_word(v: u64) -> u32 {
    (v % 0x1_0000_0000) as u32
}

pub open spec fn join_words(h: u32, l: u32) -> u64 {
    (h * 0x1_0000_0000 + l) as u64
}

/// How many zeros follow opaque data of a given length.
pub open spec fn pad_len(n: int) -> int {
    (4 - n % 4) % 4
}

pub open spec fn zeros(n: int) -> Seq<u8> {
    Seq::new(n as nat, |i: int| 0u8)
}

/// The arm of a switch that a discriminant selects.
pub open spec fn arm(arms: Seq<Shape>, other: Shape, tag: u32) -> Shape {
    if tag < arms.len() {
        arms[tag as int]
    } else {
        other
    }
}

/// The wire form of a tree. A length or count is written as its low 32 bits.
#[verifier::opaque]
pub open spec fn bytes(t: Tree) -> Seq<u8>
    decreases t,
{
    match t {
        Tree::Word(w) => be32(w),
        Tree::Hyper(v) => be32(high_word(v)) + be32(low_word(v)),
        Tree::Bool(x) => be32(if x { 1 } else { 0 }),
        Tree::Opaque(d) => be32(d.len() as u32) + d + zeros(pad_len(d.len() as int)),
        Tree::Array(s) => be32(s.len() as u32) + bytes_items(s),
        Tree::Absent => be32(0),
        Tree::Present(v) => be32(1) + bytes(*v),
        Tree::Pair(a, c) => bytes(*a) + bytes(*c),
        Tree::Case(tag, v) => be32(tag) + bytes(*v),
    }
}

/// The wire forms of some trees, one after another.
#[verifier::opaque]
pub open spec fn bytes_items(s: Seq<Tree>) -> Seq<u8>
    decreases s,
{
    if s.len() == 0 {
        Seq::empty()
    } else {
        bytes_items(s.drop_last()) + bytes(s.last())
    }
}

pub open spec fn parse_word(b: Seq<u8>, p: int) -> Result<u32, XdrError> {
    if b.len() - p < 4 {
        Err(XdrError::Eof)
    } else {
        Ok(word_at(b, p))
    }
}

pub open spec fn parse_bool(b: Seq<u8>, p: int) -> Parsed {
    match parse_word(b, p) {
        Err(e) => Parsed { val: Err(e), next: p },
        Ok(w) => Parsed {
            val: if w == 0 {
                Ok(Tree::Bool(false))
            } else if w == 1 {
                Ok(Tree::Bool(true))
            } else {
                Err(XdrError::InvalidValue("bool"))
            },
            next: p + 4,
        },
    }
}

pub open spec fn parse_hyper(b: Seq<u8>, p: int) -> Parsed {
    match parse_word(b, p) {
        Err(e) => Parsed { val: Err(e), next: p },
        Ok(h) => match parse_word(b, p + 4) {
            Err(e) => Parsed { val: Err(e), next: p + 4 },
            Ok(l) => Parsed { val: Ok(Tree::Hyper(join_words(h, l))), next: p + 8 },
        },
    }
}

/// The padding is skipped, whatever bytes it holds.
pub open spec fn parse_opaque(b: Seq<u8>, p: int) -> Parsed {
    match parse_word(b, p) {
        Err(e) => Parsed { val: Err(e), next: p },
        Ok(n) => if b.len() - (p + 4) < n {
            Parsed { val: Err(XdrError::Eof), next: p + 4 }
        } else if b.len() - (p + 4 + n) < pad_len(n as int) {
            Parsed { val: Err(XdrError::Eof), next: p + 4 + n }
        } else {
            Parsed {
                val: Ok(Tree::Opaque(b.subrange(p + 4, p + 4 + n))),
                next: p + 4 + n + pad_len(n as int),
            }
        },
    }
}

/// What the bytes `b` read as from position `p`, when a value of shape `s` is
/// expected there.
#[verifier::opaque]
pub open spec fn parse(s: Shape, b: Seq<u8>, p: int) -> Parsed
    decreases s, 0nat,
{
    match s {
        Shape::Word => match parse_word(b, p) {
            Err(e) => Parsed { val: Err(e), next: p },
            Ok(w) => Parsed { val: Ok(Tree::Word(w)), next: p + 4 },
        },
        Shape::Hyper => parse_hyper(b, p),
        Shape::Bool => parse_bool(b, p),
        Shape::Opaque => parse_opaque(b, p),
        Shape::Enum(allowed, what) => match parse_word(b, p) {
            Err(e) => Parsed { val: Err(e), next: p },
            Ok(w) => Parsed {
                val: if allowed.contains(w) {
                    Ok(Tree::Word(w))
                } else {
                    Err(XdrError::InvalidValue(what))
                },
                next: p + 4,
            },
        },
        Shape::Bounded(max) => {
            let q = parse_opaque(b, p);
            match q.val {
                Ok(Tree::Opaque(d)) => if d.len() > max {
                    Parsed { val: Err(XdrError::TooLong), next: q.next }
                } else {
                    q
                },
                _ => q,
            }
        },
        Shape::Array(e) => match parse_word(b, p) {
            Err(x) => Parsed { val: Err(x), next: p },
            Ok(n) => if n > b.len() - (p + 4) + 1 {
                Parsed { val: Err(XdrError::TooLong), next: p + 4 }
            } else {
                let items = parse_items(*e, n as nat, b, p + 4);
                match items.val {
                    Err(x) => Parsed { val: Err(x), next: items.next },
                    Ok(ts) => Parsed { val: Ok(Tree::Array(ts)), next: items.next },
                }
            },
        },
        Shape::Optional(e) => {
            let flag = parse_bool(b, p);
            match flag.val {
                Err(x) => flag,
                Ok(t) => if t == Tree::Bool(true) {
                    let q = parse(*e, b, flag.next);
                    match q.val {
                        Err(x) => q,
                        Ok(v) => Parsed { val: Ok(Tree::Present(Box::new(v))), next: q.next },
                    }
                } else {
                    Parsed { val: Ok(Tree::Absent), next: flag.next }
                },
            }
        },
        Shape::Pair(first, second) => {
            let q = parse(*first, b, p);
            match q.val {
                Err(x) => q,
                Ok(a) => {
                    let r = parse(*second, b, q.next);
                    match r.val {
                        Err(x) => r,
                        Ok(c) => Parsed {
                            val: Ok(Tree::Pair(Box::new(a), Box::new(c))),
                            next: r.next,
                        },
                    }
                },
            }
        },
        Shape::Switch(arms, other) => match parse_word(b, p) {
            Err(x) => Parsed { val: Err(x), next: p },
            Ok(tag) => {
                let q = if tag < arms.len() {
                    parse(arms[tag as int], b, p + 4)
                } else {
                    parse(*other, b, p + 4)
                };
                match q.val {
                    Err(x) => q,
                    Ok(v) => Parsed { val: Ok(Tree::Case(tag, Box::new(v))), next: q.next },
                }
            },
        },
        Shape::Tail(key, e) => match parse_word(b, p) {
            Err(x) => Parsed { val: Err(x), next: p },
            Ok(w) => if w == key {
                let q = parse(*e, b, p + 4);
                match q.val {
                    Err(x) => q,
                    Ok(v) => Parsed { val: Ok(Tree::Case(w, Box::new(v))), next: q.next },
                }
            } else {
                Parsed { val: Ok(Tree::Word(w)), next: p + 4 }
            },
        },
        Shape::Reject(what) => Parsed { val: Err(XdrError::InvalidValue(what)), next: p },
    }
}

/// What `n` elements of shape `e` read as, one after another.
#[verifier::opaque]
pub open spec fn parse_items(e: Shape, n: nat, b: Seq<u8>, p: int) -> ParsedItems
    decreases e, n,
{
    if n == 0 {
        ParsedItems { val: Ok(Seq::empty()), next: p }
    } else {
        let init = parse_items(e, (n - 1) as nat, b, p);
        match init.val {
            Err(x) => init,
            Ok(ts) => {
                let q = parse(e, b, init.next);
                match q.val {
                    Err(x) => ParsedItems { val: Err(x), next: q.next },
                    Ok(t) => ParsedItems { val: Ok(ts.push(t)), next: q.next },
                }
            },
        }
    }
}

/// A tree is a value of a shape.
#[verifier::opaque]
pub open spec fn fits(s: Shape, t: Tree) -> bool
    decreases t,
{
    match (s, t) {
        (Shape::Word, Tree::Word(_)) => true,
        (Shape::Hyper, Tree::Hyper(_)) => true,
        (Shape::Bool, Tree::Bool(_)) => true,
        (Shape::Opaque, Tree::Opaque(_)) => true,
        (Shape::Enum(allowed, what), Tree::Word(w)) => allowed.contains(w),
        (Shape::Bounded(max), Tree::Opaque(d)) => d.len() <= max,
        (Shape::Array(e), Tree::Array(ts)) => forall|i: int|
            0 <= i < ts.len() ==> fits(*e, #[trigger] ts[i]),
        (Shape::Optional(e), Tree::Absent) => true,
        (Shape::Optional(e), Tree::Present(v)) => fits(*e, *v),
        (Shape::Pair(x, y), Tree::Pair(a, c)) => fits(*x, *a) && fits(*y, *c),
        (Shape::Switch(arms, other), Tree::Case(tag, v)) => fits(arm(arms, *other, tag), *v),
        (Shape::Tail(key, e), Tree::Word(w)) => w != key,
        (Shape::Tail(key, e), Tree::Case(w, v)) => w == key && fits(*e, *v),
        _ => false,
    }
}

/// Every length and count of a tree fits in its 32-bit prefix.
#[verifier::opaque]
pub open spec fn sized(t: Tree) -> bool
    decreases t,
{
    match t {
        Tree::Opaque(d) => d.len() <= u32::MAX,
        Tree::Array(ts) => ts.len() <= u32::MAX && forall|i: int|
            0 <= i < ts.len() ==> sized(#[trigger] ts[i]),
        Tree::Present(v) => sized(*v),
        Tree::Pair(a, c) => sized(*a) && sized(*c),
        Tree::Case(tag, v) => sized(*v),
        _ => true,
    }
}

// ---- the encoder ----

/// Append `data` to `buf`.
pub fn append_bytes(buf: &mut Vec<u8>, data: &[u8])
    ensures
        final(buf)@ == old(buf)@ + data@,
{
    buf.extend_from_slice(data);
    assert(buf@ =~= old(buf)@ + data@);
}

/// The big-endian bytes of a word.
pub fn word_bytes(v: u32) -> (r: [u8; 4])
    ensures
        r@ == be32(v),
{
    let r: [u8; 4] = [
        (v / 0x100_0000) as u8,
        ((v / 0x1_0000) % 0x100) as u8,
        ((v / 0x100) % 0x100) as u8,
        (v % 0x100) as u8,
    ];
    assert(r@ =~= be32(v));
    r
}

/// Append-only XDR encoder backed by a growable byte buffer.
pub struct XdrEncoder {
    buf: Vec<u8>,
}

impl View for XdrEncoder {
    type V = Seq<u8>;

    closed spec fn view(&self) -> Seq<u8> {
        self.buf@
    }
}

impl Default for XdrEncoder {
    fn default() -> (r: Self)
        ensures
            r@ == Seq::<u8>::empty(),
    {
        XdrEncoder { buf: Vec::new() }
    }
}

impl XdrEncoder {
    pub fn new() -> (r: Self)
        ensures
            r@ == Seq::<u8>::empty(),
    {
        XdrEncoder { buf: Vec::new() }
    }

    pub fn with_capacity(cap: usize) -> (r: Self)
        ensures
            r@ == Seq::<u8>::empty(),
    {
        XdrEncoder { buf: Vec::with_capacity(cap) }
    }

    /// Current encoded length in bytes.
    pub fn position(&self) -> (r: usize)
        ensures
            r == self@.len(),
    {
        self.buf.len()
    }

    pub fn into_bytes(self) -> (r: Vec<u8>)
        ensures
            r@ == self@,
    {
        self.buf
    }

    pub fn as_bytes(&self) -> (r: &[u8])
        ensures
            r@ == self@,
    {
        self.buf.as_slice()
    }

    pub fn put_u32(&mut self, v: u32)
        ensures
            final(self)@ == old(self)@ + be32(v),
    {
        let w = word_bytes(v);
        append_bytes(&mut self.buf, w.as_slice());
    }

    pub fn put_i32(&mut self, v: i32)
        ensures
            final(self)@ == old(self)@ + be32(v as u32),
    {
        self.put_u32(v as u32);
    }

    /// The high 32 bits first, then the low 32 bits.
    pub fn put_u64(&mut self, v: u64)
        ensures
            final(self)@ == old(self)@ + bytes(Tree::Hyper(v)),
    {
        reveal(bytes);
        self.put_u32((v / 0x1_0000_0000) as u32);
        self.put_u32((v % 0x1_0000_0000) as u32);
        assert(self@ =~= old(self)@ + bytes(Tree::Hyper(v)));
    }

    /// An XDR bool is a 4-byte integer that is 1 (true) or 0 (false).
    pub fn put_bool(&mut self, v: bool)
        ensures
            final(self)@ == old(self)@ + bytes(Tree::Bool(v)),
    {
        reveal(bytes);
        self.put_u32(if v { 1 } else { 0 });
    }

    /// An XDR enum is encoded like a signed 4-byte integer.
    pub fn put_enum(&mut self, v: i32)
        ensures
            final(self)@ == old(self)@ + be32(v as u32),
    {
        self.put_i32(v);
    }

    /// Variable-length opaque or string: length prefix, data, zero padding.
    pub fn put_opaque(&mut self, data: &[u8])
        ensures
            final(self)@ == old(self)@ + bytes(Tree::Opaque(data@)),
    {
        reveal(bytes);
        self.put_u32(data.len() as u32);
        append_bytes(&mut self.buf, data);
        let pad: usize = (4 - (data.len() % 4)) % 4;
        let mut i: usize = 0;
        while i < pad
            invariant
                i <= pad,
                self@ == old(self)@ + be32(data@.len() as u32) + data@ + zeros(i as int),
            decreases pad - i,
        {
            self.buf.push(0);
            i += 1;
            assert(self@ =~= old(self)@ + be32(data@.len() as u32) + data@ + zeros(i as int));
        }
        assert(self@ =~= old(self)@ + bytes(Tree::Opaque(data@)));
    }
}

// ---- the decoder ----

/// Borrowing XDR decoder over a byte slice.
pub struct XdrDecoder<'a> {
    buf: &'a [u8],
    pos: usize,
}

impl<'a> XdrDecoder<'a> {
    /// The bytes being decoded.
    pub closed spec fn data(&self) -> Seq<u8> {
        self.buf@
    }

    /// How many of them have been consumed.
    pub closed spec fn at(&self) -> int {
        self.pos as int
    }

    #[verifier::type_invariant]
    spec fn in_bounds(self) -> bool {
        self.pos <= self.buf@.len()
    }

    pub fn new(buf: &'a [u8]) -> (r: Self)
        ensures
            r.data() == buf@,
            r.at() == 0,
    {
        XdrDecoder { buf, pos: 0 }
    }

    pub fn position(&self) -> (r: usize)
        ensures
            r == self.at(),
            r <= self.data().len(),
    {
        proof {
            use_type_invariant(self);
        }
        self.pos
    }

    pub fn remaining(&self) -> (r: usize)
        ensures
            r == self.data().len() - self.at(),
    {
        proof {
            use_type_invariant(self);
        }
        self.buf.len() - self.pos
    }

    /// The next `n` bytes.
    fn take(&mut self, n: usize) -> (r: XdrResult<&'a [u8]>)
        ensures
            final(self).data() == old(self).data(),
            0 <= old(self).at() <= old(self).data().len() <= usize::MAX,
            match r {
                Ok(out) => {
                    &&& old(self).data().len() - old(self).at() >= n
                    &&& final(self).at() == old(self).at() + n
                    &&& out@ == old(self).data().subrange(old(self).at(), old(self).at() + n)
                },
                Err(e) => {
                    &&& old(self).data().len() - old(self).at() < n
                    &&& final(self).at() == old(self).at()
                    &&& e == XdrError::Eof
                },
            },
    {
        proof {
            use_type_invariant(&*self);
        }
        let total: usize = self.buf.len();
        if total - self.pos < n {
            return Err(XdrError::Eof);
        }
        let out = vstd::slice::slice_subrange(self.buf, self.pos, self.pos + n);
        self.pos = self.pos + n;
        Ok(out)
    }

    pub fn get_u32(&mut self) -> (r: XdrResult<u32>)
        ensures
            final(self).data() == old(self).data(),
            r == parse_word(old(self).data(), old(self).at()),
            final(self).at() == old(self).at() + (if r is Ok { 4int } else { 0 }),
    {
        let b = self.take(4)?;
        Ok(b[0] as u32 * 0x100_0000 + b[1] as u32 * 0x1_0000 + b[2] as u32 * 0x100 + b[3] as u32)
    }

    pub fn get_i32(&mut self) -> (r: XdrResult<i32>)
        ensures
            final(self).data() == old(self).data(),
            match parse_word(old(self).data(), old(self).at()) {
                Ok(w) => r == Ok::<i32, XdrError>(w as i32),
                Err(e) => r == Err::<i32, XdrError>(e),
            },
            final(self).at() == old(self).at() + (if r is Ok { 4int } else { 0 }),
    {
        let w: u32 = self.get_u32()?;
        Ok(w as i32)
    }

    pub fn get_u64(&mut self) -> (r: XdrResult<u64>)
        ensures
            final(self).data() == old(self).data(),
            ({
                let q = parse_hyper(old(self).data(), old(self).at());
                &&& final(self).at() == q.next
                &&& match r {
                    Ok(v) => q.val == Ok::<Tree, XdrError>(Tree::Hyper(v)),
                    Err(e) => q.val == Err::<Tree, XdrError>(e),
                }
            }),
    {
        let h: u64 = self.get_u32()? as u64;
        let l: u64 = self.get_u32()? as u64;
        Ok(h * 0x1_0000_0000 + l)
    }

    pub fn get_bool(&mut self) -> (r: XdrResult<bool>)
        ensures
            final(self).data() == old(self).data(),
            ({
                let q = parse_bool(old(self).data(), old(self).at());
                &&& final(self).at() == q.next
                &&& match r {
                    Ok(v) => q.val == Ok::<Tree, XdrError>(Tree::Bool(v)),
                    Err(e) => q.val == Err::<Tree, XdrError>(e),
                }
            }),
    {
        let w: u32 = self.get_u32()?;
        match w {
            0 => Ok(false),
            1 => Ok(true),
            _ => Err(XdrError::InvalidValue("bool")),
        }
    }

    pub fn get_enum(&mut self) -> (r: XdrResult<i32>)
        ensures
            final(self).data() == old(self).data(),
            match parse_word(old(self).data(), old(self).at()) {
                Ok(w) => r == Ok::<i32, XdrError>(w as i32),
                Err(e) => r == Err::<i32, XdrError>(e),
            },
            final(self).at() == old(self).at() + (if r is Ok { 4int } else { 0 }),
    {
        self.get_i32()
    }

    /// Reads a variable-length opaque or string and consumes its padding.
    pub fn get_opaque(&mut self) -> (r: XdrResult<Vec<u8>>)
        ensures
            final(self).data() == old(self).data(),
            ({
                let q = parse_opaque(old(self).data(), old(self).at());
                &&& final(self).at() == q.next
                &&& match r {
                    Ok(v) => q.val == Ok::<Tree, XdrError>(Tree::Opaque(v@)),
                    Err(e) => q.val == Err::<Tree, XdrError>(e),
                }
            }),
    {
        let len: usize = self.get_u32()? as usize;
        let data = vstd::slice::slice_to_vec(self.take(len)?);
        let pad: usize = (4 - (len % 4)) % 4;
        self.take(pad)?;
        Ok(data)
    }
}

// ---- wire types ----

/// Types that have a wire form.
pub trait Xdr: Sized {
    /// The XDR type.
    spec fn shape() -> Shape;

    /// The XDR value.
    spec fn tree(&self) -> Tree;

    /// Each discriminant in the value belongs to the arm that it stands with.
    spec fn canonical(&self) -> bool;

    proof fn lemma_fits(&self)
        requires
            self.canonical(),
        ensures
            fits(Self::shape(), self.tree()),
    ;

    fn encode(&self, e: &mut XdrEncoder)
        ensures
            final(e)@ == old(e)@ + bytes(self.tree()),
    ;

    fn decode(d: &mut XdrDecoder) -> (r: XdrResult<Self>)
        ensures
            final(d).data() == old(d).data(),
            final(d).at() == parse(Self::shape(), old(d).data(), old(d).at()).next,
            match r {
                Ok(v) => parse(Self::shape(), old(d).data(), old(d).at()).val == Ok::<
                    Tree,
                    XdrError,
                >(v.tree()),
                Err(x) => parse(Self::shape(), old(d).data(), old(d).at()).val == Err::<
                    Tree,
                    XdrError,
                >(x),
            },
    ;
}

impl Xdr for u32 {
    open spec fn shape() -> Shape {
        Shape::Word
    }

    open spec fn tree(&self) -> Tree {
        Tree::Word(*self)
    }

    open spec fn canonical(&self) -> bool {
        true
    }

    proof fn lemma_fits(&self) {
        reveal(fits);
    }

    fn encode(&self, e: &mut XdrEncoder) {
        reveal(bytes);
        e.put_u32(*self);
    }

    fn decode(d: &mut XdrDecoder) -> (r: XdrResult<Self>) {
        reveal(parse);
        d.get_u32()
    }
}

impl Xdr for u64 {
    open spec fn shape() -> Shape {
        Shape::Hyper
    }

    open spec fn tree(&self) -> Tree {
        Tree::Hyper(*self)
    }

    open spec fn canonical(&self) -> bool {
        true
    }

    proof fn lemma_fits(&self) {
        reveal(fits);
    }

    fn encode(&self, e: &mut XdrEncoder) {
        e.put_u64(*self);
    }

    fn decode(d: &mut XdrDecoder) -> (r: XdrResult<Self>) {
        reveal(parse);
        d.get_u64()
    }
}

impl Xdr for bool {
    open spec fn shape() -> Shape {
        Shape::Bool
    }

    open spec fn tree(&self) -> Tree {
        Tree::Bool(*self)
    }

    open spec fn canonical(&self) -> bool {
        true
    }

    proof fn lemma_fits(&self) {
        reveal(fits);
    }

    fn encode(&self, e: &mut XdrEncoder) {
        e.put_bool(*self);
    }

    fn decode(d: &mut XdrDecoder) -> (r: XdrResult<Self>) {
        reveal(parse);
        d.get_bool()
    }
}

/// The tree of an array.
pub open spec fn array_tree<T: Xdr>(items: Seq<T>) -> Tree {
    Tree::Array(Seq::new(items.len(), |i: int| items[i].tree()))
}

/// The tree of an optional value.
pub open spec fn optional_tree<T: Xdr>(value: Option<T>) -> Tree {
    match value {
        Some(v) => Tree::Present(Box::new(v.tree())),
        None => Tree::Absent,
    }
}

proof fn lemma_bytes_items_step(s: Seq<Tree>)
    requires
        s.len() > 0,
    ensures
        bytes_items(s) == bytes_items(s.drop_last()) + bytes(s.last()),
{
    reveal(bytes);
    reveal(bytes_items);
}

/// One more element.
proof fn lemma_parse_items_step(e: Shape, n: nat, b: Seq<u8>, p: int)
    ensures
        ({
            let init = parse_items(e, n, b, p);
            let q = parse(e, b, init.next);
            parse_items(e, n + 1, b, p) == match (init.val, q.val) {
                (Err(x), _) => init,
                (Ok(ts), Err(x)) => ParsedItems { val: Err(x), next: q.next },
                (Ok(ts), Ok(t)) => ParsedItems { val: Ok(ts.push(t)), next: q.next },
            }
        }),
{
    reveal(parse);
    reveal(parse_items);
}

/// An array is its count and its elements.
proof fn lemma_parse_array(e: Shape, b: Seq<u8>, p: int)
    ensures
        parse(array_of(e), b, p) == match parse_word(b, p) {
            Err(x) => Parsed { val: Err(x), next: p },
            Ok(n) => if n > b.len() - (p + 4) + 1 {
                Parsed { val: Err(XdrError::TooLong), next: p + 4 }
            } else {
                let items = parse_items(e, n as nat, b, p + 4);
                match items.val {
                    Err(x) => Parsed { val: Err(x), next: items.next },
                    Ok(ts) => Parsed { val: Ok(Tree::Array(ts)), next: items.next },
                }
            },
        },
{
    reveal(parse);
    reveal(parse_items);
}

/// Once an element fails, every longer run fails in the same way.
proof fn lemma_items_stay_failed(e: Shape, k: nat, n: nat, b: Seq<u8>, p: int)
    requires
        k <= n,
        parse_items(e, k, b, p).val is Err,
    ensures
        parse_items(e, n, b, p) == parse_items(e, k, b, p),
    decreases n,
{
    if k < n {
        lemma_items_stay_failed(e, k, (n - 1) as nat, b, p);
        lemma_parse_items_step(e, (n - 1) as nat, b, p);
    }
}

/// A count followed by each element in order.
pub fn encode_array<T: Xdr>(e: &mut XdrEncoder, items: &[T])
    ensures
        final(e)@ == old(e)@ + bytes(array_tree(items@)),
{
    reveal(bytes);
    reveal(bytes_items);
    e.put_u32(items.len() as u32);
    let ghost head = old(e)@ + be32(items@.len() as u32);
    let ghost trees = Seq::new(items@.len(), |i: int| items@[i].tree());
    let mut i: usize = 0;
    assert(e@ =~= head + bytes_items(trees.take(0)));
    while i < items.len()
        invariant
            i <= items@.len(),
            trees == Seq::new(items@.len(), |i: int| items@[i].tree()),
            e@ == head + bytes_items(trees.take(i as int)),
        decreases items@.len() - i,
    {
        items[i].encode(e);
        assert(trees.take(i + 1).drop_last() =~= trees.take(i as int));
        assert(trees.take(i + 1).last() == items@[i as int].tree());
        proof {
            lemma_bytes_items_step(trees.take(i + 1));
        }
        assert(e@ =~= head + bytes_items(trees.take(i + 1)));
        i += 1;
    }
    assert(trees.take(i as int) =~= trees);
    assert(e@ =~= old(e)@ + bytes(array_tree(items@)));
}

/// Reads an array. A count larger than the bytes that are left allow is
/// refused before anything is allocated for it.
pub fn decode_array<T: Xdr>(d: &mut XdrDecoder) -> (r: XdrResult<Vec<T>>)
    ensures
        final(d).data() == old(d).data(),
        ({
            let q = parse(array_of(T::shape()), old(d).data(), old(d).at());
            &&& final(d).at() == q.next
            &&& match r {
                Ok(v) => q.val == Ok::<Tree, XdrError>(array_tree(v@)),
                Err(e) => q.val == Err::<Tree, XdrError>(e),
            }
        }),
{
    let ghost b = d.data();
    let ghost p = d.at();
    proof {
        lemma_parse_array(T::shape(), b, p);
    }
    let count: usize = d.get_u32()? as usize;
    let left: usize = d.remaining();
    if count > 0 && count - 1 > left {
        return Err(XdrError::TooLong);
    }
    let mut out: Vec<T> = Vec::with_capacity(if count < 1024 { count } else { 1024 });
    let mut i: usize = 0;
    reveal(parse_items);
    assert(Seq::new(out@.len(), |j: int| out@[j].tree()) =~= Seq::<Tree>::empty());
    while i < count
        invariant
            i <= count,
            d.data() == b,
            b == old(d).data(),
            p == old(d).at(),
            out@.len() == i,
            parse_word(b, p) == Ok::<u32, XdrError>(count as u32),
            count <= u32::MAX,
            count <= b.len() - (p + 4) + 1,
            ({
                let items = parse_items(T::shape(), i as nat, b, p + 4);
                &&& items.val == Ok::<Seq<Tree>, XdrError>(
                    Seq::new(out@.len(), |j: int| out@[j].tree()),
                )
                &&& d.at() == items.next
            }),
        decreases count - i,
    {
        let ghost before = Seq::new(out@.len(), |j: int| out@[j].tree());
        proof {
            lemma_parse_items_step(T::shape(), i as nat, b, p + 4);
        }
        match T::decode(d) {
            Err(x) => {
                proof {
                    lemma_items_stay_failed(T::shape(), (i + 1) as nat, count as nat, b, p + 4);
                    lemma_parse_array(T::shape(), b, p);
                }
                return Err(x);
            },
            Ok(v) => {
                out.push(v);
                i += 1;
                assert(Seq::new(out@.len(), |j: int| out@[j].tree()) =~= before.push(v.tree()));
            },
        }
    }
    Ok(out)
}

/// A bool, then the value when present.
pub fn encode_optional<T: Xdr>(e: &mut XdrEncoder, value: &Option<T>)
    ensures
        final(e)@ == old(e)@ + bytes(optional_tree(*value)),
{
    reveal(bytes);
    match value {
        Some(v) => {
            e.put_bool(true);
            v.encode(e);
            assert(e@ =~= old(e)@ + bytes(optional_tree(*value)));
        },
        None => {
            e.put_bool(false);
        },
    }
}

pub fn decode_optional<T: Xdr>(d: &mut XdrDecoder) -> (r: XdrResult<Option<T>>)
    ensures
        final(d).data() == old(d).data(),
        ({
            let q = parse(optional_of(T::shape()), old(d).data(), old(d).at());
            &&& final(d).at() == q.next
            &&& match r {
                Ok(v) => q.val == Ok::<Tree, XdrError>(optional_tree(v)),
                Err(e) => q.val == Err::<Tree, XdrError>(e),
            }
        }),
{
    reveal(parse);
    if d.get_bool()? {
        Ok(Some(T::decode(d)?))
    } else {
        Ok(None)
    }
}

// ---- records ----

/// The shape of a record whose first field has shape `a` and whose further
/// fields have shape `c`.
pub open spec fn pair(a: Shape, c: Shape) -> Shape {
    Shape::Pair(Box::new(a), Box::new(c))
}

/// The tree of such a record.
pub open spec fn both(a: Tree, c: Tree) -> Tree {
    Tree::Pair(Box::new(a), Box::new(c))
}

pub open spec fn array_of(e: Shape) -> Shape {
    Shape::Array(Box::new(e))
}

pub open spec fn optional_of(e: Shape) -> Shape {
    Shape::Optional(Box::new(e))
}

/// What a record reads as, from what its first field and its further fields
/// read as.
pub open spec fn then_parse(q: Parsed, second: Shape, b: Seq<u8>) -> Parsed {
    match q.val {
        Err(x) => q,
        Ok(a) => {
            let r = parse(second, b, q.next);
            match r.val {
                Err(x) => r,
                Ok(c) => Parsed { val: Ok(both(a, c)), next: r.next },
            }
        },
    }
}

/// A record is read field by field.
pub broadcast proof fn lemma_parse_pair(a: Shape, c: Shape, b: Seq<u8>, p: int)
    ensures
        #[trigger] parse(pair(a, c), b, p) == then_parse(parse(a, b, p), c, b),
{
    reveal(parse);
}

/// A record is written field by field.
pub broadcast proof fn lemma_bytes_pair(a: Tree, c: Tree)
    ensures
        #[trigger] bytes(both(a, c)) == bytes(a) + bytes(c),
{
    reveal(bytes);
}

/// Appending piece by piece is appending the whole.
pub broadcast proof fn lemma_append(a: Seq<u8>, c: Seq<u8>, d: Seq<u8>)
    ensures
        #[trigger] ((a + c) + d) == a + (c + d),
{
    assert((a + c) + d =~= a + (c + d));
}

/// A record fits field by field.
pub broadcast proof fn lemma_fits_pair(x: Shape, y: Shape, a: Tree, c: Tree)
    ensures
        #[trigger] fits(pair(x, y), both(a, c)) == (fits(x, a) && fits(y, c)),
{
    reveal(fits);
}

/// An array fits element by element.
pub proof fn lemma_fits_array<T: Xdr>(items: Seq<T>)
    requires
        forall|i: int| 0 <= i < items.len() ==> (#[trigger] items[i]).canonical(),
    ensures
        fits(array_of(T::shape()), array_tree(items)),
{
    reveal(fits);
    let ts = Seq::new(items.len(), |i: int| items[i].tree());
    assert forall|i: int| 0 <= i < ts.len() implies fits(T::shape(), #[trigger] ts[i]) by {
        items[i].lemma_fits();
    }
}

/// An optional value fits when the value does.
pub proof fn lemma_fits_optional<T: Xdr>(value: Option<T>)
    requires
        value matches Some(v) ==> v.canonical(),
    ensures
        fits(optional_of(T::shape()), optional_tree(value)),
{
    reveal(fits);
    if let Some(v) = value {
        v.lemma_fits();
    }
}

/// Arrays of alike elements are alike.
pub proof fn lemma_same_trees<T: Xdr>(a: Seq<T>, c: Seq<T>)
    requires
        a.len() == c.len(),
        forall|i: int| #![auto] 0 <= i < a.len() ==> a[i].tree() == c[i].tree(),
    ensures
        array_tree(a) == array_tree(c),
{
    assert(Seq::new(a.len(), |i: int| a[i].tree()) =~= Seq::new(c.len(), |i: int| c[i].tree()));
}

/// A word survives a trip through its signed form.
pub proof fn lemma_signed_word(w: u32)
    by (bit_vector)
    ensures
        (w as i32) as u32 == w,
        w < 0x8000_0000 ==> (w as i32) == w,
        w >= 0x8000_0000 ==> (w as i32) < 0,
{
}

/// A signed word survives a trip through its unsigned form.
pub proof fn lemma_unsigned_word(v: i32)
    by (bit_vector)
    ensures
        (v as u32) as i32 == v,
        v >= 0 ==> (v as u32) == v,
        v < 0 ==> (v as u32) >= 0x8000_0000,
{
}

// ---- unions ----

pub broadcast proof fn lemma_parse_plain_word(b: Seq<u8>, p: int)
    ensures
        #[trigger] parse(Shape::Word, b, p) == match parse_word(b, p) {
            Err(e) => Parsed { val: Err(e), next: p },
            Ok(w) => Parsed { val: Ok(Tree::Word(w)), next: p + 4 },
        },
{
    reveal(parse);
}

/// A union is read as its discriminant and the arm that it selects.
pub broadcast proof fn lemma_parse_switch(arms: Seq<Shape>, other: Box<Shape>, b: Seq<u8>, p: int)
    ensures
        #[trigger] parse(Shape::Switch(arms, other), b, p) == match parse_word(b, p) {
            Err(x) => Parsed { val: Err(x), next: p },
            Ok(tag) => {
                let q = parse(arm(arms, *other, tag), b, p + 4);
                match q.val {
                    Err(x) => q,
                    Ok(v) => Parsed { val: Ok(Tree::Case(tag, Box::new(v))), next: q.next },
                }
            },
        },
{
    reveal(parse);
}

pub broadcast proof fn lemma_parse_tail(key: u32, e: Box<Shape>, b: Seq<u8>, p: int)
    ensures
        #[trigger] parse(Shape::Tail(key, e), b, p) == match parse_word(b, p) {
            Err(x) => Parsed { val: Err(x), next: p },
            Ok(w) => if w == key {
                let q = parse(*e, b, p + 4);
                match q.val {
                    Err(x) => q,
                    Ok(v) => Parsed { val: Ok(Tree::Case(w, Box::new(v))), next: q.next },
                }
            } else {
                Parsed { val: Ok(Tree::Word(w)), next: p + 4 }
            },
        },
{
    reveal(parse);
}

pub broadcast proof fn lemma_parse_reject(what: &'static str, b: Seq<u8>, p: int)
    ensures
        #[trigger] parse(Shape::Reject(what), b, p) == (Parsed {
            val: Err(XdrError::InvalidValue(what)),
            next: p,
        }),
{
    reveal(parse);
}

pub broadcast proof fn lemma_bytes_word(w: u32)
    ensures
        #[trigger] bytes(Tree::Word(w)) == be32(w),
{
    reveal(bytes);
}

pub broadcast proof fn lemma_bytes_case(tag: u32, v: Box<Tree>)
    ensures
        #[trigger] bytes(Tree::Case(tag, v)) == be32(tag) + bytes(*v),
{
    reveal(bytes);
}

pub broadcast proof fn lemma_fits_word(w: u32)
    ensures
        #[trigger] fits(Shape::Word, Tree::Word(w)),
{
    reveal(fits);
}

pub broadcast proof fn lemma_fits_switch(
    arms: Seq<Shape>,
    other: Box<Shape>,
    tag: u32,
    v: Box<Tree>,
)
    ensures
        #[trigger] fits(Shape::Switch(arms, other), Tree::Case(tag, v)) == fits(
            arm(arms, *other, tag),
            *v,
        ),
{
    reveal(fits);
}

pub broadcast proof fn lemma_fits_tail_word(key: u32, e: Box<Shape>, w: u32)
    ensures
        #[trigger] fits(Shape::Tail(key, e), Tree::Word(w)) == (w != key),
{
    reveal(fits);
}

pub broadcast proof fn lemma_fits_tail_case(key: u32, e: Box<Shape>, w: u32, v: Box<Tree>)
    ensures
        #[trigger] fits(Shape::Tail(key, e), Tree::Case(w, v)) == (w == key && fits(*e, *v)),
{
    reveal(fits);
}

pub broadcast proof fn lemma_sized_word(w: u32)
    ensures
        #[trigger] sized(Tree::Word(w)),
{
    reveal(sized);
}

pub broadcast proof fn lemma_sized_opaque(d: Seq<u8>)
    ensures
        #[trigger] sized(Tree::Opaque(d)) == (d.len() <= u32::MAX),
{
    reveal(sized);
}

pub broadcast proof fn lemma_sized_pair(a: Tree, c: Tree)
    ensures
        #[trigger] sized(both(a, c)) == (sized(a) && sized(c)),
{
    reveal(sized);
}

pub broadcast proof fn lemma_sized_case(tag: u32, v: Box<Tree>)
    ensures
        #[trigger] sized(Tree::Case(tag, v)) == sized(*v),
{
    reveal(sized);
}

pub broadcast group group_unions {
    lemma_parse_plain_word,
    lemma_parse_switch,
    lemma_parse_tail,
    lemma_parse_reject,
    lemma_bytes_word,
    lemma_bytes_case,
    lemma_fits_word,
    lemma_fits_switch,
    lemma_fits_tail_word,
    lemma_fits_tail_case,
    lemma_sized_word,
    lemma_sized_opaque,
    lemma_sized_pair,
    lemma_sized_case,
}

pub broadcast group group_records {
    lemma_parse_pair,
    lemma_bytes_pair,
    lemma_append,
    lemma_fits_pair,
}

} // verus!
