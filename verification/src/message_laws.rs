//! Writing and reading piece by piece, whole messages, and what is said of them.

use vstd::prelude::*;

use crate::codec;
use crate::frame;
use crate::frame::FrameError;
use crate::gssx::Opaque;
use crate::octets;
use crate::proc::{ArgIndicateMechs, ArgInitSecContext};
use crate::redact;
use crate::redact::Len;
use crate::rpc::{CallHeader, Message, OpaqueAuth, ReplyBody};
use crate::text;
use crate::wire_laws;
use crate::xdr;
use crate::xdr::{Tree, Xdr, XdrDecoder, XdrEncoder, XdrError, XdrResult};
use crate::xdr_laws;

verus! {

// ---- writing ----

/// An encoder begins empty, tells how much it holds, and gives it out.
pub proof fn what_an_encoder_holds(
    fresh: XdrEncoder,
    roomy: XdrEncoder,
    cap: usize,
    e: &XdrEncoder,
    n: usize,
    shown: &[u8],
    whole: XdrEncoder,
    out: Vec<u8>,
)
    requires
        call_ensures(XdrEncoder::new, (), fresh),
        call_ensures(XdrEncoder::with_capacity, (cap,), roomy),
        call_ensures(XdrEncoder::position, (e,), n),
        call_ensures(XdrEncoder::as_bytes, (e,), shown),
        call_ensures(XdrEncoder::into_bytes, (whole,), out),
    ensures
        fresh@.len() == 0 && roomy@.len() == 0,
        n == e@.len(),
        shown@ == e@,
        out@ == whole@,
{
}

/// Each piece is written behind what was there, in its own form.
pub proof fn pieces_are_written(
    a: &mut XdrEncoder,
    w: u32,
    b: &mut XdrEncoder,
    v: u64,
    c: &mut XdrEncoder,
    x: bool,
    d: &mut XdrEncoder,
    data: &[u8],
)
    requires
        call_ensures(XdrEncoder::put_u32, (a, w), ()),
        call_ensures(XdrEncoder::put_u64, (b, v), ()),
        call_ensures(XdrEncoder::put_bool, (c, x), ()),
        call_ensures(XdrEncoder::put_opaque, (d, data), ()),
    ensures
        final(a)@ == old(a)@ + wire_laws::word(w),
        final(b)@ == old(b)@ + wire_laws::long(v),
        final(c)@ == old(c)@ + wire_laws::flag(x),
        final(d)@ == old(d)@ + wire_laws::octet_string(data@),
{
    broadcast use wire_laws::group_pieces;

    assert(xdr::be32(w) =~= wire_laws::word(w));
}

/// A signed number is written as the word with its bits.
pub proof fn signed_words_are_written(
    a: &mut XdrEncoder,
    b: &mut XdrEncoder,
    i: i32,
    word: [u8; 4],
    w: u32,
    buf: &mut Vec<u8>,
    data: &[u8],
)
    requires
        call_ensures(XdrEncoder::put_i32, (a, i), ()),
        call_ensures(XdrEncoder::put_enum, (b, i), ()),
        call_ensures(xdr::word_bytes, (w,), word),
        call_ensures(xdr::append_bytes, (buf, data), ()),
    ensures
        i >= 0 ==> final(a)@ == old(a)@ + wire_laws::word(i as u32),
        i == -1 ==> final(a)@ == old(a)@ + wire_laws::word(u32::MAX),
        i >= 0 ==> final(b)@ == old(b)@ + wire_laws::word(i as u32),
        word@ == wire_laws::word(w),
        final(buf)@ == old(buf)@ + data@,
{
    assert(xdr::be32(i as u32) =~= wire_laws::word(i as u32));
    assert(xdr::be32(w) =~= wire_laws::word(w));
    assert((-1i32) as u32 == u32::MAX) by (bit_vector);
}

// ---- reading ----

/// A decoder begins at the front, and tells where it is and how much is left.
pub proof fn where_a_decoder_is(buf: &[u8], fresh: XdrDecoder, d: &XdrDecoder, n: usize, left: usize)
    requires
        call_ensures(XdrDecoder::new, (buf,), fresh),
        call_ensures(XdrDecoder::position, (d,), n),
        call_ensures(XdrDecoder::remaining, (d,), left),
    ensures
        fresh.data() == buf@ && fresh.at() == 0,
        n == d.at(),
        n + left == d.data().len(),
{
}

/// A word is read where four bytes are left, and is passed; otherwise the end is reported and
/// nothing is passed.
pub proof fn words_are_read(
    d: &mut XdrDecoder,
    r: XdrResult<u32>,
    w: u32,
)
    requires
        call_ensures(XdrDecoder::get_u32, (d,), r),
        0 <= old(d).at() <= old(d).data().len(),
    ensures
        old(d).data().len() - old(d).at() < 4 ==> r == Err::<u32, XdrError>(XdrError::Eof)
            && final(d).at() == old(d).at(),
        old(d).data().len() - old(d).at() >= 4 && old(d).data().subrange(
            old(d).at(),
            old(d).at() + 4,
        ) == wire_laws::word(w) ==> r == Ok::<u32, XdrError>(w) && final(d).at() == old(d).at()
            + 4,
        final(d).data() == old(d).data(),
{
    let b = old(d).data();
    let p = old(d).at();
    if b.len() - p >= 4 && b.subrange(p, p + 4) == wire_laws::word(w) {
        assert(wire_laws::word(w) =~= xdr::be32(w));
        xdr_laws::lemma_word(b, p, w);
    }
}

/// A flag is read from 0 and 1, and no other word is one.
pub proof fn flags_are_read(d: &mut XdrDecoder, r: XdrResult<bool>, w: u32)
    requires
        call_ensures(XdrDecoder::get_bool, (d,), r),
        0 <= old(d).at() <= old(d).data().len() - 4,
        old(d).data().subrange(old(d).at(), old(d).at() + 4) == wire_laws::word(w),
    ensures
        w == 0 ==> r == Ok::<bool, XdrError>(false),
        w == 1 ==> r == Ok::<bool, XdrError>(true),
        w > 1 ==> r == Err::<bool, XdrError>(XdrError::InvalidValue("bool")),
        final(d).at() == old(d).at() + 4,
{
    assert(wire_laws::word(w) =~= xdr::be32(w));
    xdr_laws::lemma_word(old(d).data(), old(d).at(), w);
}

/// Signed words are read with their sign.
pub proof fn signed_words_are_read(
    a: &mut XdrDecoder,
    r: XdrResult<i32>,
    b: &mut XdrDecoder,
    q: XdrResult<i32>,
    w: u32,
)
    requires
        call_ensures(XdrDecoder::get_i32, (a,), r),
        0 <= old(a).at() <= old(a).data().len() - 4,
        old(a).data().subrange(old(a).at(), old(a).at() + 4) == wire_laws::word(w),
        call_ensures(XdrDecoder::get_enum, (b,), q),
        old(b).data() == old(a).data() && old(b).at() == old(a).at(),
    ensures
        r is Ok && q is Ok && r->Ok_0 == q->Ok_0,
        w < 0x8000_0000 ==> r->Ok_0 == w,
        w == u32::MAX ==> r->Ok_0 == -1,
        final(a).at() == old(a).at() + 4,
{
    assert(wire_laws::word(w) =~= xdr::be32(w));
    xdr_laws::lemma_word(old(a).data(), old(a).at(), w);
    assert(u32::MAX as i32 == -1i32) by (bit_vector);
}

/// Long words and byte strings are read as they are written, and passed.
pub proof fn longer_pieces_are_read(
    a: &mut XdrDecoder,
    r: XdrResult<u64>,
    v: u64,
    b: &mut XdrDecoder,
    q: XdrResult<Vec<u8>>,
    data: Seq<u8>,
    rest: Seq<u8>,
)
    requires
        call_ensures(XdrDecoder::get_u64, (a,), r),
        old(a).at() == 0,
        call_ensures(XdrDecoder::get_opaque, (b,), q),
        old(b).at() == 0,
        data.len() <= u32::MAX,
    ensures
        old(a).data() == wire_laws::long(v) + rest ==> r == Ok::<u64, XdrError>(v)
            && final(a).at() == 8,
        old(b).data() == wire_laws::octet_string(data) + rest ==> q is Ok && q->Ok_0@ == data
            && final(b).at() == wire_laws::octet_string(data).len(),
{
    broadcast use wire_laws::group_pieces;

    reveal(xdr::fits);
    reveal(xdr::sized);
    reveal(xdr::parse);
    xdr_laws::tree_reads_back(xdr::Shape::Hyper, Tree::Hyper(v), rest);
    xdr_laws::tree_reads_back(xdr::Shape::Opaque, Tree::Opaque(data), rest);
}

/// A byte string is filled up to a multiple of four, with whatever bytes; they must be there.
pub proof fn filling_is_passed_over(
    d: &mut XdrDecoder,
    r: XdrResult<Vec<u8>>,
    data: Seq<u8>,
    fill: Seq<u8>,
    rest: Seq<u8>,
)
    requires
        call_ensures(XdrDecoder::get_opaque, (d,), r),
        old(d).at() == 0,
        data.len() <= u32::MAX,
        old(d).data() == wire_laws::word(data.len() as u32) + data + fill + rest,
    ensures
        fill.len() == wire_laws::filler(data.len()).len() ==> r is Ok && r->Ok_0@ == data
            && final(d).at() == 4 + data.len() + fill.len(),
        fill.len() + rest.len() < wire_laws::filler(data.len()).len() ==> r == Err::<
            Vec<u8>,
            XdrError,
        >(XdrError::Eof),
{
    let b = old(d).data();
    let n = data.len() as u32;
    assert(wire_laws::word(n) =~= xdr::be32(n));
    assert(b.subrange(0, 4) =~= xdr::be32(n));
    xdr_laws::lemma_word(b, 0, n);
    assert(b.subrange(4, 4 + n) =~= data);
    assert(xdr::pad_len(n as int) == wire_laws::filler(data.len()).len());
}

/// Each failure to read says what it is.
pub proof fn reading_that_fails(e: &XdrError, m: String, f: &FrameError, n: String)
    requires
        call_ensures(XdrError::message, (e,), m),
        call_ensures(FrameError::message, (f,), n),
    ensures
        *e is Eof ==> m@ == "unexpected end of XDR stream"@,
        *e is TooLong ==> m@ == "XDR length exceeds maximum"@,
        *e matches XdrError::InvalidValue(what) ==> m@ == "invalid XDR value: "@ + what@,
        *f is MultiFragment ==> n@ == "multi-fragment records are not supported"@,
        *f matches FrameError::TooLarge(len) ==> n@ == "record body too large: "@ + text::decimal(
            len as nat,
        ) + " bytes"@,
{
}

// ---- byte strings ----

/// A byte string on the wire is the bytes that it is made of.
pub proof fn byte_strings_hold_their_bytes(
    data: Vec<u8>,
    a: Opaque,
    slice: &[u8],
    b: Opaque,
    o: &Opaque,
    shown: &[u8],
    empty: bool,
)
    requires
        call_ensures(Opaque::new, (data,), a),
        call_ensures(Opaque::from_slice, (slice,), b),
        call_ensures(Opaque::as_slice, (o,), shown),
        call_ensures(Opaque::is_empty, (o,), empty),
    ensures
        a@ == data@ && b@ == slice@ && shown@ == o@,
        empty <==> o@.len() == 0,
{
}

/// A byte string begins with another where something follows it, and copies of some are the
/// same, in order.
pub proof fn beginnings_and_copies(
    a: &[u8],
    prefix: &[u8],
    r: bool,
    tail: Seq<u8>,
    items: &[Vec<u8>],
    copies: Vec<Vec<u8>>,
    i: int,
)
    requires
        call_ensures(octets::starts_with, (a, prefix), r),
        call_ensures(octets::copy_all, (items,), copies),
    ensures
        a@ == prefix@ + tail ==> r,
        r ==> a@.len() >= prefix@.len() && a@.take(prefix@.len() as int) == prefix@,
        copies@.len() == items@.len(),
        0 <= i < items@.len() ==> copies@[i]@ == items@[i]@,
{
    if a@ == prefix@ + tail {
        assert(a@.subrange(0, prefix@.len() as int) =~= prefix@);
    }
    if r {
        assert(a@.take(prefix@.len() as int) =~= prefix@);
    }
    let x = octets::views(items@);
    let y = octets::views(copies@);
    assert(x.len() == items@.len() && y.len() == copies@.len());
    if 0 <= i < items@.len() {
        assert(x[i] == items@[i]@ && y[i] == copies@[i]@);
    }
}

// ---- envelopes ----

/// A call is for the program in its version, and carries no authentication; a reply to it is
/// accepted and successful.
pub proof fn envelopes(
    none: OpaqueAuth,
    proc_num: u32,
    h: CallHeader,
    xid: u32,
    call: Message,
    reply: Message,
)
    requires
        call_ensures(OpaqueAuth::none, (), none),
        call_ensures(CallHeader::new, (proc_num,), h),
        call_ensures(Message::call, (xid, proc_num), call),
        call_ensures(Message::reply_success, (xid,), reply),
    ensures
        none.flavor == 0 && none.body@.len() == 0,
        h.rpcvers == 2 && h.prog == 400112 && h.vers == 1 && h.proc_num == proc_num,
        h.cred.flavor == 0 && h.cred.body@.len() == 0,
        h.verf.flavor == 0 && h.verf.body@.len() == 0,
        call.xid == xid && call.is_call && call.call is Some && call.call->Some_0.proc_num
            == proc_num,
        reply.xid == xid && !reply.is_call && reply.reply is Some && reply.reply->Some_0
            is AcceptedSuccess,
{
}

/// What was encoded is decoded as the same message, and nothing behind it is touched.
pub proof fn messages_come_back(
    m: &Message,
    e: &mut XdrEncoder,
    d: &mut XdrDecoder,
    r: XdrResult<Message>,
    rest: Seq<u8>,
)
    requires
        m.canonical(),
        call_ensures(Message::encode, (m, e), ()),
        call_ensures(Message::decode, (d,), r),
        old(e)@.len() == 0,
        old(d).at() == 0,
        old(d).data() == final(e)@ + rest,
    ensures
        r is Ok,
        xdr::bytes(r->Ok_0.tree()) == xdr::bytes(m.tree()),
        final(d).at() == final(e)@.len(),
{
    m.lemma_fits();
    xdr_laws::tree_reads_back(Message::shape(), m.tree(), rest);
    assert(final(e)@ =~= xdr::bytes(m.tree()));
}

/// Messages with valid authentication can be encoded and decoded.
pub proof fn messages_with_valid_parts(a: OpaqueAuth, h: CallHeader, m: Message)
    ensures
        (a.flavor == 0 || a.flavor == 1 || a.flavor == 2 || a.flavor == 3 || a.flavor == 6)
            && a.body@.len() <= 400 ==> a.canonical(),
        h.cred.canonical() && h.verf.canonical() ==> h.canonical(),
        m.is_call && m.call is Some && m.reply is None && m.call->Some_0.canonical()
            ==> m.canonical(),
        !m.is_call && m.call is None && m.reply is Some ==> {
            &&& m.reply->Some_0 matches ReplyBody::AcceptedSuccess { verf } ==> (verf.canonical()
                ==> m.canonical())
            &&& m.reply->Some_0 matches ReplyBody::ProgMismatch { verf, info }
                ==> (verf.canonical() ==> m.canonical())
            &&& m.reply->Some_0 matches ReplyBody::AcceptedOther { verf, status }
                ==> (verf.canonical() && status != 0 && status != 2 ==> m.canonical())
            &&& m.reply->Some_0 is Denied ==> m.canonical()
        },
{
}

/// The header of a frame is the length with the last-fragment bit.
pub proof fn header_of_a_frame(len: usize, r: [u8; 4])
    requires
        call_ensures(frame::encode_header, (len,), r),
        len <= 0x7fff_ffff,
    ensures
        r@ == wire_laws::word((0x8000_0000 + len) as u32),
{
    let l = len as u32;
    assert(l <= 0x7fff_ffffu32 ==> (l | 0x8000_0000u32) == l + 0x8000_0000u32) by (bit_vector);
    assert(xdr::be32(frame::marked(len)) =~= wire_laws::word(frame::marked(len)));
}

// ---- measuring ----

/// The request that asks for mechanisms is empty; the one that initiates holds a token of so
/// many zeros, for krb5, and nothing else.
pub proof fn requests_to_measure(a: ArgIndicateMechs, n: usize, b: ArgInitSecContext, i: int)
    requires
        call_ensures(codec::indicate_mechs_arg, (), a),
        n <= isize::MAX,
        call_ensures(codec::init_sec_context_arg, (n,), b),
    ensures
        a.blank(),
        b.mech_type@ == crate::consts::KRB5_MECH_OID@,
        b.input_token is Some,
        b.input_token->Some_0@.len() == n,
        0 <= i < n ==> b.input_token->Some_0@[i] == 0,
        b.context_handle is None && b.cred_handle is None && b.target_name is None
            && b.input_cb is None,
        b.req_flags == 0 && b.time_req == 0 && b.options@.len() == 0,
{
    crate::consts_laws::oids_of_mechanisms();
}

/// An encoded request is a call with number 1 and its own procedure, and is read again;
/// one that is cut short is not.
pub proof fn measured_requests(
    a: &ArgIndicateMechs,
    x: Vec<u8>,
    b: &ArgInitSecContext,
    y: Vec<u8>,
    cut: &[u8],
    p: bool,
    k: int,
    whole: &[u8],
    q: bool,
)
    requires
        call_ensures(codec::encode_indicate_mechs, (a,), x),
        call_ensures(codec::encode_init_sec_context, (b,), y),
        xdr::sized(a.tree()),
        xdr::sized(b.tree()),
        call_ensures(codec::decode_init_sec_context, (cut,), p),
        0 <= k < y@.len(),
        cut@ == y@.take(k),
        call_ensures(codec::decode_indicate_mechs, (whole,), q),
        whole@ == x@,
    ensures
        x@ == wire_laws::word(1) + wire_laws::word(0) + wire_laws::word(2) + wire_laws::word(
            400112,
        ) + wire_laws::word(1) + wire_laws::word(1) + wire_laws::no_auth() + wire_laws::no_auth()
            + wire_laws::wire(*a),
        y@ == wire_laws::word(1) + wire_laws::word(0) + wire_laws::word(2) + wire_laws::word(
            400112,
        ) + wire_laws::word(1) + wire_laws::word(8) + wire_laws::no_auth() + wire_laws::no_auth()
            + wire_laws::wire(*b),
        !p,
        q,
{
    wire_laws::lemma_call_bytes(1, 1);
    wire_laws::lemma_call_bytes(1, 8);
    wire_laws::arg_indicate_mechs_on_the_wire(*a);
    wire_laws::arg_init_sec_context_on_the_wire(*b);
    codec::shortened_request_is_not_read(crate::proc::GssxProc::InitSecContext, *b, k);
    codec::encoded_request_is_read(crate::proc::GssxProc::IndicateMechs, *a, Seq::empty());
    assert(x@ + Seq::<u8>::empty() =~= x@);
}

/// Of a secret only its length is shown.
pub proof fn secrets_are_measured(
    bytes: &[u8],
    l: Len,
    opt: Option<&[u8]>,
    o: Len,
    p: bool,
    s: &Len,
    shown: String,
)
    requires
        call_ensures(redact::len, (bytes,), l),
        call_ensures(redact::opt_len, (opt,), o),
        call_ensures(redact::present, (bytes,), p),
        call_ensures(Len::render, (s,), shown),
    ensures
        l.count() == bytes@.len(),
        opt is Some ==> o.count() == opt->Some_0@.len(),
        opt is None ==> o.count() == 0,
        p <==> bytes@.len() > 0,
        shown@ == "<"@ + text::decimal(s.count() as nat) + " bytes>"@,
{
}

} // verus!
