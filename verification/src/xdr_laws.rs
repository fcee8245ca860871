//! Laws of the XDR codec: what is written is read back, with exactly the bytes
//! that were written consumed, whatever follows.

use vstd::prelude::*;

use crate::xdr;
use crate::xdr::{Parsed, ParsedItems, Shape, Tree, Xdr, XdrError};

verus! {

/// The bytes `x` stand in `b` at position `p`.
pub open spec fn occurs(b: Seq<u8>, p: int, x: Seq<u8>) -> bool {
    &&& 0 <= p
    &&& p + x.len() <= b.len()
    &&& b.subrange(p, p + x.len()) == x
}

proof fn lemma_occurs_split(b: Seq<u8>, p: int, x: Seq<u8>, y: Seq<u8>)
    requires
        occurs(b, p, x + y),
    ensures
        occurs(b, p, x),
        occurs(b, p + x.len(), y),
{
    let whole = b.subrange(p, p + x.len() + y.len());
    assert(b.subrange(p, p + x.len()) =~= whole.subrange(0, x.len() as int));
    assert(whole.subrange(0, x.len() as int) =~= x);
    assert(b.subrange(p + x.len(), p + x.len() + y.len()) =~= whole.subrange(
        x.len() as int,
        whole.len() as int,
    ));
    assert(whole.subrange(x.len() as int, whole.len() as int) =~= y);
}

/// A word reads back.
pub proof fn lemma_word(b: Seq<u8>, p: int, w: u32)
    requires
        occurs(b, p, xdr::be32(w)),
    ensures
        xdr::parse_word(b, p) == Ok::<u32, XdrError>(w),
{
    let x = b.subrange(p, p + 4);
    assert(x == xdr::be32(w));
    assert(x[0] == b[p] && x[1] == b[p + 1] && x[2] == b[p + 2] && x[3] == b[p + 3]);
}

/// Every wire form takes at least one unit.
proof fn lemma_at_least_a_unit(s: Shape, t: Tree)
    requires
        xdr::fits(s, t),
    ensures
        xdr::bytes(t).len() >= 4,
    decreases t,
{
    reveal(xdr::bytes);
    reveal(xdr::bytes_items);
    reveal(xdr::fits);
    match (s, t) {
        (Shape::Pair(x, y), Tree::Pair(a, c)) => {
            lemma_at_least_a_unit(*x, *a);
        },
        _ => {},
    }
}

/// So an array takes at least as many bytes as it has elements.
proof fn lemma_items_at_least_units(e: Shape, ts: Seq<Tree>)
    requires
        forall|i: int| 0 <= i < ts.len() ==> xdr::fits(e, #[trigger] ts[i]),
    ensures
        xdr::bytes_items(ts).len() >= 4 * ts.len(),
    decreases ts.len(),
{
    reveal(xdr::bytes);
    reveal(xdr::bytes_items);
    if ts.len() > 0 {
        lemma_items_at_least_units(e, ts.drop_last());
        lemma_at_least_a_unit(e, ts.last());
    }
}

/// A wire form that stands somewhere in a byte string reads back there.
proof fn lemma_reads_back(s: Shape, t: Tree, b: Seq<u8>, p: int)
    requires
        xdr::fits(s, t),
        xdr::sized(t),
        occurs(b, p, xdr::bytes(t)),
    ensures
        xdr::parse(s, b, p) == (Parsed { val: Ok(t), next: p + xdr::bytes(t).len() }),
    decreases t,
{
    reveal(xdr::bytes);
    reveal(xdr::bytes_items);
    reveal(xdr::parse);
    reveal(xdr::parse_items);
    reveal(xdr::fits);
    reveal(xdr::sized);
    match (s, t) {
        (Shape::Word, Tree::Word(w)) => {
            lemma_word(b, p, w);
        },
        (Shape::Hyper, Tree::Hyper(v)) => {
            lemma_occurs_split(b, p, xdr::be32(xdr::high_word(v)), xdr::be32(xdr::low_word(v)));
            lemma_word(b, p, xdr::high_word(v));
            lemma_word(b, p + 4, xdr::low_word(v));
            assert(xdr::join_words(xdr::high_word(v), xdr::low_word(v)) == v);
        },
        (Shape::Bool, Tree::Bool(x)) => {
            lemma_word(b, p, if x { 1 } else { 0 });
        },
        (Shape::Opaque, Tree::Opaque(d)) => {
            let n = d.len() as u32;
            let pad = xdr::zeros(xdr::pad_len(d.len() as int));
            lemma_occurs_split(b, p, xdr::be32(n) + d, pad);
            lemma_occurs_split(b, p, xdr::be32(n), d);
            lemma_word(b, p, n);
        },
        (Shape::Enum(allowed, what), Tree::Word(w)) => {
            lemma_word(b, p, w);
        },
        (Shape::Bounded(max), Tree::Opaque(d)) => {
            let n = d.len() as u32;
            let pad = xdr::zeros(xdr::pad_len(d.len() as int));
            lemma_occurs_split(b, p, xdr::be32(n) + d, pad);
            lemma_occurs_split(b, p, xdr::be32(n), d);
            lemma_word(b, p, n);
        },
        (Shape::Array(e), Tree::Array(ts)) => {
            let n = ts.len() as u32;
            lemma_occurs_split(b, p, xdr::be32(n), xdr::bytes_items(ts));
            lemma_word(b, p, n);
            lemma_items_at_least_units(*e, ts);
            lemma_items_read_back(*e, ts, b, p + 4);
        },
        (Shape::Optional(e), Tree::Absent) => {
            lemma_word(b, p, 0);
        },
        (Shape::Optional(e), Tree::Present(v)) => {
            lemma_occurs_split(b, p, xdr::be32(1), xdr::bytes(*v));
            lemma_word(b, p, 1);
            lemma_reads_back(*e, *v, b, p + 4);
        },
        (Shape::Pair(x, y), Tree::Pair(a, c)) => {
            lemma_occurs_split(b, p, xdr::bytes(*a), xdr::bytes(*c));
            lemma_reads_back(*x, *a, b, p);
            lemma_reads_back(*y, *c, b, p + xdr::bytes(*a).len());
        },
        (Shape::Switch(arms, other), Tree::Case(tag, v)) => {
            lemma_occurs_split(b, p, xdr::be32(tag), xdr::bytes(*v));
            lemma_word(b, p, tag);
            lemma_reads_back(xdr::arm(arms, *other, tag), *v, b, p + 4);
        },
        (Shape::Tail(key, e), Tree::Word(w)) => {
            lemma_word(b, p, w);
        },
        (Shape::Tail(key, e), Tree::Case(w, v)) => {
            lemma_occurs_split(b, p, xdr::be32(w), xdr::bytes(*v));
            lemma_word(b, p, w);
            lemma_reads_back(*e, *v, b, p + 4);
        },
        _ => {},
    }
}

proof fn lemma_items_read_back(e: Shape, ts: Seq<Tree>, b: Seq<u8>, p: int)
    requires
        forall|i: int| 0 <= i < ts.len() ==> xdr::fits(e, #[trigger] ts[i]),
        forall|i: int| 0 <= i < ts.len() ==> xdr::sized(#[trigger] ts[i]),
        occurs(b, p, xdr::bytes_items(ts)),
    ensures
        xdr::parse_items(e, ts.len(), b, p) == (ParsedItems {
            val: Ok(ts),
            next: p + xdr::bytes_items(ts).len(),
        }),
    decreases ts,
{
    reveal(xdr::bytes);
    reveal(xdr::bytes_items);
    reveal(xdr::parse);
    reveal(xdr::parse_items);
    if ts.len() > 0 {
        let init = ts.drop_last();
        lemma_occurs_split(b, p, xdr::bytes_items(init), xdr::bytes(ts.last()));
        lemma_items_read_back(e, init, b, p);
        lemma_reads_back(e, ts.last(), b, p + xdr::bytes_items(init).len());
        assert(init.push(ts.last()) =~= ts);
    } else {
        assert(ts =~= Seq::empty());
    }
}

/// What was read fits, and its wire form is as long as what was consumed.
#[verifier::rlimit(60)]
proof fn lemma_read_fits(s: Shape, b: Seq<u8>, p: int)
    requires
        0 <= p <= b.len(),
        xdr::parse(s, b, p).val is Ok,
    ensures
        xdr::fits(s, xdr::parse(s, b, p).val->Ok_0),
        xdr::sized(xdr::parse(s, b, p).val->Ok_0),
        xdr::parse(s, b, p).next == p + xdr::bytes(xdr::parse(s, b, p).val->Ok_0).len(),
        xdr::parse(s, b, p).next <= b.len(),
    decreases s, 0nat,
{
    reveal(xdr::bytes);
    reveal(xdr::bytes_items);
    reveal(xdr::parse);
    reveal(xdr::parse_items);
    reveal(xdr::fits);
    reveal(xdr::sized);
    match s {
        Shape::Array(e) => {
            lemma_items_read_fit(*e, xdr::word_at(b, p) as nat, b, p + 4);
        },
        Shape::Optional(e) => {
            if xdr::word_at(b, p) == 1 {
                lemma_read_fits(*e, b, p + 4);
            }
        },
        Shape::Pair(x, y) => {
            lemma_read_fits(*x, b, p);
            lemma_read_fits(*y, b, xdr::parse(*x, b, p).next);
        },
        Shape::Switch(arms, other) => {
            let tag = xdr::word_at(b, p);
            if tag < arms.len() {
                lemma_read_fits(arms[tag as int], b, p + 4);
            } else {
                lemma_read_fits(*other, b, p + 4);
            }
        },
        Shape::Tail(key, e) => {
            if xdr::word_at(b, p) == key {
                lemma_read_fits(*e, b, p + 4);
            }
        },
        _ => {},
    }
}

proof fn lemma_items_read_fit(e: Shape, n: nat, b: Seq<u8>, p: int)
    requires
        0 <= p <= b.len(),
        xdr::parse_items(e, n, b, p).val is Ok,
    ensures
        ({
            let ts = xdr::parse_items(e, n, b, p).val->Ok_0;
            &&& ts.len() == n
            &&& forall|i: int| 0 <= i < ts.len() ==> xdr::fits(e, #[trigger] ts[i])
            &&& forall|i: int| 0 <= i < ts.len() ==> xdr::sized(#[trigger] ts[i])
            &&& xdr::parse_items(e, n, b, p).next == p + xdr::bytes_items(ts).len()
            &&& xdr::parse_items(e, n, b, p).next <= b.len()
        }),
    decreases e, n,
{
    reveal(xdr::bytes);
    reveal(xdr::bytes_items);
    reveal(xdr::parse);
    reveal(xdr::parse_items);
    if n > 0 {
        let m = (n - 1) as nat;
        lemma_items_read_fit(e, m, b, p);
        let init = xdr::parse_items(e, m, b, p);
        lemma_read_fits(e, b, init.next);
        let ts = xdr::parse_items(e, n, b, p).val->Ok_0;
        assert(ts.drop_last() =~= init.val->Ok_0);
    }
}

/// More bytes after what was read change nothing.
proof fn lemma_read_ignores_rest(s: Shape, b: Seq<u8>, p: int, rest: Seq<u8>)
    requires
        0 <= p <= b.len(),
        xdr::parse(s, b, p).val is Ok,
    ensures
        xdr::parse(s, b + rest, p) == xdr::parse(s, b, p),
    decreases s, 0nat,
{
    reveal(xdr::parse);
    reveal(xdr::parse_items);
    let c = b + rest;
    assert forall|q: int| 0 <= q && b.len() - q >= 4 implies #[trigger] xdr::parse_word(c, q)
        == xdr::parse_word(b, q) by {
        assert(c[q] == b[q] && c[q + 1] == b[q + 1] && c[q + 2] == b[q + 2] && c[q + 3] == b[q
            + 3]);
    }
    match s {
        Shape::Word => {
            assert(xdr::parse_word(c, p) == xdr::parse_word(b, p));
        },
        Shape::Hyper => {
            assert(xdr::parse_word(c, p) == xdr::parse_word(b, p));
            assert(xdr::parse_word(c, p + 4) == xdr::parse_word(b, p + 4));
        },
        Shape::Bool => {
            assert(xdr::parse_word(c, p) == xdr::parse_word(b, p));
        },
        Shape::Opaque => {
            assert(xdr::parse_word(c, p) == xdr::parse_word(b, p));
            let n = xdr::word_at(b, p);
            assert(c.subrange(p + 4, p + 4 + n) =~= b.subrange(p + 4, p + 4 + n));
        },
        Shape::Enum(allowed, what) => {
            assert(xdr::parse_word(c, p) == xdr::parse_word(b, p));
        },
        Shape::Bounded(max) => {
            assert(xdr::parse_word(c, p) == xdr::parse_word(b, p));
            let n = xdr::word_at(b, p);
            assert(c.subrange(p + 4, p + 4 + n) =~= b.subrange(p + 4, p + 4 + n));
        },
        Shape::Array(e) => {
            assert(xdr::parse_word(c, p) == xdr::parse_word(b, p));
            lemma_items_read_ignore_rest(*e, xdr::word_at(b, p) as nat, b, p + 4, rest);
        },
        Shape::Optional(e) => {
            assert(xdr::parse_word(c, p) == xdr::parse_word(b, p));
            if xdr::word_at(b, p) == 1 {
                lemma_read_ignores_rest(*e, b, p + 4, rest);
            }
        },
        Shape::Pair(x, y) => {
            lemma_read_ignores_rest(*x, b, p, rest);
            lemma_read_fits(*x, b, p);
            lemma_read_ignores_rest(*y, b, xdr::parse(*x, b, p).next, rest);
        },
        Shape::Switch(arms, other) => {
            assert(xdr::parse_word(c, p) == xdr::parse_word(b, p));
            let tag = xdr::word_at(b, p);
            if tag < arms.len() {
                lemma_read_ignores_rest(arms[tag as int], b, p + 4, rest);
            } else {
                lemma_read_ignores_rest(*other, b, p + 4, rest);
            }
        },
        Shape::Tail(key, e) => {
            assert(xdr::parse_word(c, p) == xdr::parse_word(b, p));
            if xdr::word_at(b, p) == key {
                lemma_read_ignores_rest(*e, b, p + 4, rest);
            }
        },
        Shape::Reject(what) => {},
    }
}

proof fn lemma_items_read_ignore_rest(e: Shape, n: nat, b: Seq<u8>, p: int, rest: Seq<u8>)
    requires
        0 <= p <= b.len(),
        xdr::parse_items(e, n, b, p).val is Ok,
    ensures
        xdr::parse_items(e, n, b + rest, p) == xdr::parse_items(e, n, b, p),
    decreases e, n,
{
    reveal(xdr::parse);
    reveal(xdr::parse_items);
    if n > 0 {
        let m = (n - 1) as nat;
        lemma_items_read_ignore_rest(e, m, b, p, rest);
        lemma_items_read_fit(e, m, b, p);
        lemma_read_ignores_rest(e, b, xdr::parse_items(e, m, b, p).next, rest);
    }
}

/// What was written reads back, whatever follows it.
pub proof fn tree_reads_back(s: Shape, t: Tree, rest: Seq<u8>)
    requires
        xdr::fits(s, t),
        xdr::sized(t),
    ensures
        xdr::parse(s, xdr::bytes(t) + rest, 0) == (Parsed {
            val: Ok(t),
            next: xdr::bytes(t).len() as int,
        }),
{
    let b = xdr::bytes(t) + rest;
    assert(b.subrange(0, xdr::bytes(t).len() as int) =~= xdr::bytes(t));
    lemma_reads_back(s, t, b, 0);
}

/// What was written after other bytes reads back from where it starts.
pub proof fn tree_reads_back_at(s: Shape, t: Tree, before: Seq<u8>, rest: Seq<u8>)
    requires
        xdr::fits(s, t),
        xdr::sized(t),
    ensures
        xdr::parse(s, before + xdr::bytes(t) + rest, before.len() as int) == (Parsed {
            val: Ok(t),
            next: (before.len() + xdr::bytes(t).len()) as int,
        }),
{
    let b = before + xdr::bytes(t) + rest;
    let p = before.len() as int;
    assert(b.subrange(p, p + xdr::bytes(t).len()) =~= xdr::bytes(t));
    lemma_reads_back(s, t, b, p);
}

/// What was read, written again, takes as many bytes as were consumed and reads
/// as the same tree.
pub proof fn reread_is_stable(s: Shape, b: Seq<u8>, p: int)
    requires
        0 <= p <= b.len(),
        xdr::parse(s, b, p).val is Ok,
    ensures
        ({
            let q = xdr::parse(s, b, p);
            let again = xdr::bytes(q.val->Ok_0);
            &&& q.next - p == again.len()
            &&& q.next <= b.len()
            &&& xdr::parse(s, again, 0) == (Parsed { val: q.val, next: again.len() as int })
        }),
{
    lemma_read_fits(s, b, p);
    let t = xdr::parse(s, b, p).val->Ok_0;
    tree_reads_back(s, t, Seq::empty());
    assert(xdr::bytes(t) + Seq::<u8>::empty() =~= xdr::bytes(t));
}

/// No proper prefix of what was written is accepted.
pub proof fn prefix_is_rejected(s: Shape, t: Tree, k: int)
    requires
        xdr::fits(s, t),
        xdr::sized(t),
        0 <= k < xdr::bytes(t).len(),
    ensures
        xdr::parse(s, xdr::bytes(t).take(k), 0).val is Err,
{
    let whole = xdr::bytes(t);
    let part = whole.take(k);
    if xdr::parse(s, part, 0).val is Ok {
        lemma_read_fits(s, part, 0);
        lemma_read_ignores_rest(s, part, 0, whole.skip(k));
        assert(part + whole.skip(k) =~= whole);
        tree_reads_back(s, t, Seq::empty());
        assert(whole + Seq::<u8>::empty() =~= whole);
    }
}

/// No proper prefix of what was written is accepted behind other bytes either.
pub proof fn prefix_is_rejected_at(s: Shape, t: Tree, before: Seq<u8>, k: int)
    requires
        xdr::fits(s, t),
        xdr::sized(t),
        0 <= k < xdr::bytes(t).len(),
    ensures
        xdr::parse(s, before + xdr::bytes(t).take(k), before.len() as int).val is Err,
{
    let whole = xdr::bytes(t);
    let part = before + whole.take(k);
    let p = before.len() as int;
    if xdr::parse(s, part, p).val is Ok {
        lemma_read_fits(s, part, p);
        lemma_read_ignores_rest(s, part, p, whole.skip(k));
        assert(part + whole.skip(k) =~= before + whole + Seq::<u8>::empty());
        tree_reads_back_at(s, t, before, Seq::empty());
    }
}

/// What is accepted does not depend on the bytes after it.
pub proof fn rest_is_ignored(s: Shape, b: Seq<u8>, p: int, rest: Seq<u8>)
    requires
        0 <= p <= b.len(),
        xdr::parse(s, b, p).val is Ok,
    ensures
        xdr::parse(s, b + rest, p) == xdr::parse(s, b, p),
{
    lemma_read_ignores_rest(s, b, p, rest);
}

/// Decoding undoes encoding. The decoded value is the one that was encoded, and
/// exactly its bytes are consumed, whatever bytes follow.
pub proof fn decode_undoes_encode<T: Xdr>(v: T, rest: Seq<u8>)
    requires
        v.canonical(),
        xdr::sized(v.tree()),
    ensures
        xdr::parse(T::shape(), xdr::bytes(v.tree()) + rest, 0) == (Parsed {
            val: Ok(v.tree()),
            next: xdr::bytes(v.tree()).len() as int,
        }),
{
    v.lemma_fits();
    tree_reads_back(T::shape(), v.tree(), rest);
}

/// Values with the same wire form are the same value.
pub proof fn encoding_is_injective<T: Xdr>(v: T, w: T)
    requires
        v.canonical(),
        w.canonical(),
        xdr::sized(v.tree()),
        xdr::sized(w.tree()),
        xdr::bytes(v.tree()) == xdr::bytes(w.tree()),
    ensures
        v.tree() == w.tree(),
{
    decode_undoes_encode(v, Seq::empty());
    decode_undoes_encode(w, Seq::empty());
}

/// Accepted bytes, encoded again, take as many bytes as were consumed, and they
/// read as the same value.
pub proof fn reencoding_is_stable<T: Xdr>(b: Seq<u8>, p: int)
    requires
        0 <= p <= b.len(),
        xdr::parse(T::shape(), b, p).val is Ok,
    ensures
        ({
            let q = xdr::parse(T::shape(), b, p);
            let again = xdr::bytes(q.val->Ok_0);
            &&& q.next - p == again.len()
            &&& q.next <= b.len()
            &&& xdr::parse(T::shape(), again, 0) == (Parsed {
                val: q.val,
                next: again.len() as int,
            })
        }),
{
    reread_is_stable(T::shape(), b, p);
}

/// A truncated encoding is never accepted.
pub proof fn truncation_is_rejected<T: Xdr>(v: T, k: int)
    requires
        v.canonical(),
        xdr::sized(v.tree()),
        0 <= k < xdr::bytes(v.tree()).len(),
    ensures
        xdr::parse(T::shape(), xdr::bytes(v.tree()).take(k), 0).val is Err,
{
    v.lemma_fits();
    prefix_is_rejected(T::shape(), v.tree(), k);
}

/// What a decoder accepts does not depend on the bytes after it.
pub proof fn decoding_ignores_the_rest<T: Xdr>(b: Seq<u8>, p: int, rest: Seq<u8>)
    requires
        0 <= p <= b.len(),
        xdr::parse(T::shape(), b, p).val is Ok,
    ensures
        xdr::parse(T::shape(), b + rest, p) == xdr::parse(T::shape(), b, p),
{
    rest_is_ignored(T::shape(), b, p, rest);
}

proof fn lemma_aligned(t: Tree)
    ensures
        xdr::bytes(t).len() % 4 == 0,
    decreases t,
{
    reveal(xdr::bytes);
    reveal(xdr::bytes_items);
    match t {
        Tree::Array(ts) => {
            lemma_items_aligned(ts);
        },
        Tree::Present(v) => {
            lemma_aligned(*v);
        },
        Tree::Pair(a, c) => {
            lemma_aligned(*a);
            lemma_aligned(*c);
        },
        Tree::Case(tag, v) => {
            lemma_aligned(*v);
        },
        _ => {},
    }
}

proof fn lemma_items_aligned(ts: Seq<Tree>)
    ensures
        xdr::bytes_items(ts).len() % 4 == 0,
    decreases ts,
{
    reveal(xdr::bytes);
    reveal(xdr::bytes_items);
    if ts.len() > 0 {
        lemma_items_aligned(ts.drop_last());
        lemma_aligned(ts.last());
    }
}

/// Every encoding is a whole number of 4-byte units.
pub proof fn encoding_is_aligned<T: Xdr>(v: T)
    ensures
        xdr::bytes(v.tree()).len() % 4 == 0,
{
    lemma_aligned(v.tree());
}

/// A word takes one unit and a double word two, the high word first; a flag takes
/// one, which is 0 or 1.
pub proof fn primitives_take_their_units(w: u32, v: u64, x: bool)
    ensures
        xdr::bytes(w.tree()) == xdr::be32(w),
        xdr::bytes(v.tree()) == xdr::be32(xdr::high_word(v)) + xdr::be32(xdr::low_word(v)),
        xdr::bytes(x.tree()) == xdr::be32(
            if x {
                1
            } else {
                0
            },
        ),
{
    reveal(xdr::bytes);
}

/// A byte string that is read stands in the bytes it is read from: whatever length
/// is announced, it never has more bytes than there are.
pub proof fn opaque_stands_in_the_bytes(b: Seq<u8>, p: int)
    requires
        0 <= p <= b.len(),
        xdr::parse(Shape::Opaque, b, p).val is Ok,
    ensures
        ({
            let q = xdr::parse(Shape::Opaque, b, p);
            let t = q.val->Ok_0;
            &&& t is Opaque
            &&& p + 4 + t->Opaque_0.len() <= q.next <= b.len()
            &&& t->Opaque_0 == b.subrange(p + 4, p + 4 + t->Opaque_0.len())
        }),
{
    reveal(xdr::parse);
}

} // verus!
