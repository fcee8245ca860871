//! The wire form of every message, byte by byte and field by field, and what a
//! reader refuses.

use vstd::prelude::*;

use crate::frame;
use crate::frame::FrameError;
use crate::gssx::{
    GssxCallCtx, GssxCb, GssxCred, GssxCredElement, GssxCtx, GssxHandle, GssxMechAttr,
    GssxMechInfo, GssxName, GssxNameAttr, GssxOption, GssxStatus, Opaque,
};
use crate::proc::{
    ArgAcceptSecContext, ArgAcquireCred, ArgExportCred, ArgGetCallContext, ArgGetMic,
    ArgImportAndCanonName, ArgImportCred, ArgIndicateMechs, ArgInitSecContext,
    ArgReleaseHandle, ArgStoreCred, ArgUnwrap, ArgVerifyMic, ArgWrap, ArgWrapSizeLimit,
    GssxProc, ResAcceptSecContext, ResAcquireCred, ResExportCred, ResGetCallContext, ResGetMic,
    ResImportAndCanonName, ResImportCred, ResIndicateMechs, ResInitSecContext,
    ResReleaseHandle, ResStoreCred, ResUnwrap, ResVerifyMic, ResWrap, ResWrapSizeLimit,
};
use crate::rpc;
use crate::rpc::{AcceptStatus, AuthFlavor, CallHeader, Message, OpaqueAuth, ReplyBody};
use crate::xdr;
use crate::xdr::{Shape, Tree, Xdr, XdrDecoder, XdrEncoder, XdrError, XdrResult};
use crate::xdr_laws;

verus! {

// ---- the pieces ----

/// The encoding of a value.
pub open spec fn wire<T: Xdr>(v: T) -> Seq<u8> {
    xdr::bytes(v.tree())
}

/// Four bytes, the most significant first.
pub open spec fn word(w: u32) -> Seq<u8> {
    seq![
        (w / 0x100_0000) as u8,
        ((w / 0x1_0000) % 0x100) as u8,
        ((w / 0x100) % 0x100) as u8,
        (w % 0x100) as u8,
    ]
}

/// Eight bytes, the most significant first.
pub open spec fn long(v: u64) -> Seq<u8> {
    seq![
        (v / 0x100_0000_0000_0000) as u8,
        ((v / 0x1_0000_0000_0000) % 0x100) as u8,
        ((v / 0x100_0000_0000) % 0x100) as u8,
        ((v / 0x1_0000_0000) % 0x100) as u8,
        ((v / 0x100_0000) % 0x100) as u8,
        ((v / 0x1_0000) % 0x100) as u8,
        ((v / 0x100) % 0x100) as u8,
        (v % 0x100) as u8,
    ]
}

/// Four bytes, the last of which is 1 or 0.
pub open spec fn flag(x: bool) -> Seq<u8> {
    if x {
        seq![0u8, 0u8, 0u8, 1u8]
    } else {
        seq![0u8, 0u8, 0u8, 0u8]
    }
}

/// The zeros behind so many bytes, up to a multiple of four.
pub open spec fn filler(n: nat) -> Seq<u8> {
    if n % 4 == 1 {
        seq![0u8, 0u8, 0u8]
    } else if n % 4 == 2 {
        seq![0u8, 0u8]
    } else if n % 4 == 3 {
        seq![0u8]
    } else {
        Seq::empty()
    }
}

/// Bytes behind their number, filled up.
pub open spec fn octet_string(d: Seq<u8>) -> Seq<u8> {
    word(d.len() as u32) + d + filler(d.len())
}

/// Encodings one after another.
pub open spec fn row<T: Xdr>(items: Seq<T>) -> Seq<u8>
    decreases items.len(),
{
    if items.len() == 0 {
        Seq::empty()
    } else {
        row(items.drop_last()) + wire(items.last())
    }
}

/// Values behind their number.
pub open spec fn list<T: Xdr>(items: Seq<T>) -> Seq<u8> {
    word(items.len() as u32) + row(items)
}

/// A flag, and the value where there is one.
pub open spec fn maybe<T: Xdr>(v: Option<T>) -> Seq<u8> {
    match v {
        Some(x) => flag(true) + wire(x),
        None => flag(false),
    }
}

pub broadcast proof fn lemma_word_piece(w: u32)
    ensures
        #[trigger] xdr::bytes(Tree::Word(w)) == word(w),
{
    reveal(xdr::bytes);
}

proof fn lemma_halves(v: u64)
    ensures
        xdr::be32(xdr::high_word(v)) + xdr::be32(xdr::low_word(v)) == long(v),
{
    let h = xdr::high_word(v);
    let l = xdr::low_word(v);
    assert(h == v / 0x1_0000_0000);
    assert(l == v % 0x1_0000_0000);
    assert((v / 0x1_0000_0000) / 0x100_0000 == v / 0x100_0000_0000_0000 && (v / 0x1_0000_0000)
        / 0x1_0000 == v / 0x1_0000_0000_0000 && (v / 0x1_0000_0000) / 0x100 == v
        / 0x100_0000_0000) by (bit_vector);
    assert((v % 0x1_0000_0000) / 0x100_0000 == (v / 0x100_0000) % 0x100 && ((v % 0x1_0000_0000)
        / 0x1_0000) % 0x100 == (v / 0x1_0000) % 0x100 && ((v % 0x1_0000_0000) / 0x100) % 0x100 == (v
        / 0x100) % 0x100 && (v % 0x1_0000_0000) % 0x100 == v % 0x100) by (bit_vector);
    assert(xdr::be32(h) + xdr::be32(l) =~= long(v));
}

pub broadcast proof fn lemma_long_piece(v: u64)
    ensures
        #[trigger] xdr::bytes(Tree::Hyper(v)) == long(v),
{
    reveal(xdr::bytes);
    lemma_halves(v);
}

pub broadcast proof fn lemma_flag_piece(x: bool)
    ensures
        #[trigger] xdr::bytes(Tree::Bool(x)) == flag(x),
{
    reveal(xdr::bytes);
    assert(xdr::bytes(Tree::Bool(x)) =~= flag(x));
}

pub broadcast proof fn lemma_string_piece(d: Seq<u8>)
    ensures
        #[trigger] xdr::bytes(Tree::Opaque(d)) == octet_string(d),
{
    reveal(xdr::bytes);
    assert(xdr::zeros(xdr::pad_len(d.len() as int)) =~= filler(d.len()));
    assert(xdr::be32(d.len() as u32) =~= word(d.len() as u32));
}

proof fn lemma_row<T: Xdr>(items: Seq<T>)
    ensures
        xdr::bytes_items(xdr::array_tree(items)->Array_0) == row(items),
    decreases items.len(),
{
    reveal(xdr::bytes);
    reveal(xdr::bytes_items);
    let ts = xdr::array_tree(items)->Array_0;
    if items.len() > 0 {
        let init = items.drop_last();
        lemma_row(init);
        assert(ts.drop_last() =~= xdr::array_tree(init)->Array_0);
        assert(ts.last() == items.last().tree());
    }
}

pub broadcast proof fn lemma_list_piece<T: Xdr>(items: Seq<T>)
    ensures
        #[trigger] xdr::bytes(xdr::array_tree(items)) == list(items),
{
    reveal(xdr::bytes);
    reveal(xdr::bytes_items);
    lemma_row(items);
    assert(xdr::be32(items.len() as u32) =~= word(items.len() as u32));
}

pub broadcast proof fn lemma_maybe_piece<T: Xdr>(v: Option<T>)
    ensures
        #[trigger] xdr::bytes(xdr::optional_tree(v)) == maybe(v),
{
    reveal(xdr::bytes);
    assert(xdr::be32(1) =~= flag(true));
    assert(xdr::be32(0) =~= flag(false));
}

pub broadcast group group_pieces {
    lemma_word_piece,
    lemma_long_piece,
    lemma_flag_piece,
    lemma_string_piece,
    lemma_list_piece,
    lemma_maybe_piece,
}

// ---- writing and reading ----

/// Encoding puts the encoding of the value behind what was written before.
pub proof fn encoding_is_appended<T: Xdr>(v: &T, e: &mut XdrEncoder)
    requires
        call_ensures(T::encode, (v, e), ()),
    ensures
        final(e)@ == old(e)@ + wire(*v),
{
}

/// What stands at the decoder as the encoding of a value is decoded as a value with
/// that encoding, and the decoder comes to rest behind it.
pub proof fn encoding_is_decoded<T: Xdr>(v: T, d: &mut XdrDecoder, r: XdrResult<T>, rest: Seq<u8>)
    requires
        call_ensures(T::decode, (d,), r),
        v.canonical(),
        xdr::sized(v.tree()),
        old(d).at() == 0,
        old(d).data() == wire(v) + rest,
    ensures
        r is Ok,
        wire(r->Ok_0) == wire(v),
        final(d).at() == wire(v).len(),
        final(d).data() == old(d).data(),
{
    xdr_laws::decode_undoes_encode(v, rest);
}

/// Numbers are written with the most significant byte first, a flag as 1 or 0, and
/// a byte string behind its length, filled up to a multiple of four.
pub proof fn plain_values_on_the_wire(w: u32, v: u64, i: i32, x: bool, o: Opaque)
    ensures
        wire(w) == word(w),
        wire(v) == long(v),
        wire(i) == word(i as u32),
        wire(x) == flag(x),
        wire(o) == octet_string(o@),
{
    broadcast use group_pieces;

}

/// A word that is neither 0 nor 1 is no flag.
pub proof fn other_flags_are_refused(w: u32, rest: Seq<u8>)
    requires
        w > 1,
    ensures
        xdr::parse(Shape::Bool, word(w) + rest, 0).val == Err::<Tree, XdrError>(
            XdrError::InvalidValue("bool"),
        ),
{
    reveal(xdr::parse);
    let b = word(w) + rest;
    assert(b.subrange(0, 4) =~= xdr::be32(w));
    xdr_laws::lemma_word(b, 0, w);
}

/// A byte string that is announced as longer than what follows is not there.
pub proof fn missing_bytes_are_noticed(n: u32, rest: Seq<u8>)
    requires
        rest.len() < n,
    ensures
        xdr::parse(Shape::Opaque, word(n) + rest, 0).val == Err::<Tree, XdrError>(XdrError::Eof),
{
    reveal(xdr::parse);
    let b = word(n) + rest;
    assert(b.subrange(0, 4) =~= xdr::be32(n));
    xdr_laws::lemma_word(b, 0, n);
}

/// A list that is announced with more elements than there are bytes to follow, but
/// for one, is refused as too long.
pub proof fn impossible_counts_are_refused(e: Shape, n: u32, rest: Seq<u8>)
    requires
        n > rest.len() + 1,
    ensures
        xdr::parse(xdr::array_of(e), word(n) + rest, 0).val == Err::<Tree, XdrError>(
            XdrError::TooLong,
        ),
{
    reveal(xdr::parse);
    reveal(xdr::parse_items);
    let b = word(n) + rest;
    assert(b.subrange(0, 4) =~= xdr::be32(n));
    xdr_laws::lemma_word(b, 0, n);
}

/// Fewer than four bytes are no number.
pub proof fn short_words_are_noticed(b: Seq<u8>)
    requires
        b.len() < 4,
    ensures
        xdr::parse(Shape::Word, b, 0).val == Err::<Tree, XdrError>(XdrError::Eof),
        xdr::parse(Shape::Hyper, b, 0).val == Err::<Tree, XdrError>(XdrError::Eof),
        xdr::parse(Shape::Bool, b, 0).val == Err::<Tree, XdrError>(XdrError::Eof),
        xdr::parse(Shape::Opaque, b, 0).val == Err::<Tree, XdrError>(XdrError::Eof),
{
    reveal(xdr::parse);
}

// ---- frames ----

/// A frame is the length of the body with the top bit set, and the body.
pub proof fn frame_on_the_wire(body: &[u8], r: Vec<u8>)
    requires
        call_ensures(frame::frame, (body,), r),
        body@.len() < 0x8000_0000,
    ensures
        r@ == word((0x8000_0000 + body@.len()) as u32) + body@,
{
    let w = body@.len() as u32;
    assert(w < 0x8000_0000u32 ==> (w | 0x8000_0000u32) == w + 0x8000_0000) by (bit_vector);
    assert(xdr::be32(w | 0x8000_0000u32) =~= word((0x8000_0000 + body@.len()) as u32));
}

/// A header announces a body of at most a mebibyte, as the last fragment; any other
/// header is refused.
pub proof fn header_is_read(w: u32, r: Result<usize, FrameError>)
    requires
        call_ensures(frame::parse_header, (w,), r),
    ensures
        r is Ok <==> 0x8000_0000 <= w <= 0x8010_0000,
        r matches Ok(n) ==> n == w - 0x8000_0000,
        w < 0x8000_0000 <==> r == Err::<usize, FrameError>(FrameError::MultiFragment),
        r matches Err(FrameError::TooLarge(n)) ==> n == w - 0x8000_0000 && n > 0x10_0000,
{
}

// ---- envelopes ----

/// An authentication: its flavor, and its body.
pub proof fn opaque_auth_on_the_wire(v: OpaqueAuth)
    ensures
        wire(v) == word(v.flavor as u32) + octet_string(v.body@),
{
    broadcast use {xdr::group_records, group_pieces};

    reveal(<OpaqueAuth as Xdr>::tree);
}

/// An authentication that is read is of one of the flavors 0, 1, 2, 3 and 6, and
/// has at most 400 bytes; one that is so is read.
pub proof fn authentication_is_checked(v: OpaqueAuth, d: &mut XdrDecoder, r: XdrResult<OpaqueAuth>)
    requires
        call_ensures(<OpaqueAuth as Xdr>::decode, (d,), r),
    ensures
        r matches Ok(a) ==> {
            &&& a.flavor == 0 || a.flavor == 1 || a.flavor == 2 || a.flavor == 3 || a.flavor == 6
            &&& a.body@.len() <= 400
        },
        (v.flavor == 0 || v.flavor == 1 || v.flavor == 2 || v.flavor == 3 || v.flavor == 6)
            && v.body@.len() <= 400 ==> v.canonical(),
{
}

/// The header of a call: the versions, the program, the procedure and the
/// authentications.
pub proof fn call_header_on_the_wire(v: CallHeader)
    ensures
        wire(v) == word(v.rpcvers) + word(v.prog) + word(v.vers) + word(v.proc_num) + wire(v.cred)
            + wire(v.verf),
{
    broadcast use {xdr::group_records, group_pieces};

    reveal(<CallHeader as Xdr>::tree);
}

/// A complete message: its xid, 0 and the header of a call, or 1 and the body of a
/// reply. An accepted reply is 0, the verifier and its status, which is 0 for a
/// success, and 2 with the lowest and the highest version for a version that is
/// not served; a denied one is 1 and two words.
pub proof fn message_on_the_wire(m: Message)
    ensures
        m.is_call && m.call is Some ==> xdr::bytes(m.tree()) == word(m.xid) + word(0) + wire(
            m.call->0,
        ),
        !m.is_call && m.reply is Some ==> match m.reply->0 {
            ReplyBody::AcceptedSuccess { verf } => xdr::bytes(m.tree()) == word(m.xid) + word(1)
                + word(0) + wire(verf) + word(0),
            ReplyBody::ProgMismatch { verf, info } => xdr::bytes(m.tree()) == word(m.xid) + word(1)
                + word(0) + wire(verf) + word(2) + word(info.low) + word(info.high),
            ReplyBody::AcceptedOther { verf, status } => xdr::bytes(m.tree()) == word(m.xid)
                + word(1) + word(0) + wire(verf) + word(status as u32),
            ReplyBody::Denied { reject_status, value } => xdr::bytes(m.tree()) == word(m.xid)
                + word(1) + word(1) + word(reject_status as u32) + word(value as u32),
        },
{
    broadcast use {xdr::group_records, xdr::group_unions, group_pieces};

    reveal(Message::tree);
    reveal(ReplyBody::tree);
    assert forall|w: u32| #[trigger] xdr::be32(w) == word(w) by {
        assert(xdr::be32(w) =~= word(w));
    }
}

/// A message that is neither a call nor a reply is refused.
pub proof fn other_messages_are_refused(xid: u32, kind: u32, rest: Seq<u8>)
    requires
        kind > 1,
    ensures
        xdr::parse(Message::shape(), word(xid) + word(kind) + rest, 0).val == Err::<
            Tree,
            XdrError,
        >(XdrError::InvalidValue("msg_type")),
{
    broadcast use {xdr::group_records, xdr::group_unions};

    reveal(Message::shape);
    let b = word(xid) + word(kind) + rest;
    assert(b.subrange(0, 4) =~= xdr::be32(xid));
    assert(b.subrange(4, 8) =~= xdr::be32(kind));
    xdr_laws::lemma_word(b, 0, xid);
    xdr_laws::lemma_word(b, 4, kind);
    let s = Shape::Switch(
        seq![CallHeader::shape(), ReplyBody::shape()],
        Box::new(Shape::Reject("msg_type")),
    );
    assert(xdr::parse(s, b, 4).val == Err::<Tree, XdrError>(XdrError::InvalidValue("msg_type")));
}

/// A reply that is neither accepted nor denied is refused.
pub proof fn other_replies_are_refused(xid: u32, status: u32, rest: Seq<u8>)
    requires
        status > 1,
    ensures
        xdr::parse(Message::shape(), word(xid) + word(1) + word(status) + rest, 0).val == Err::<
            Tree,
            XdrError,
        >(XdrError::InvalidValue("reply_status")),
{
    broadcast use {xdr::group_records, xdr::group_unions};

    reveal(Message::shape);
    reveal(ReplyBody::shape);
    let b = word(xid) + word(1) + word(status) + rest;
    assert(b.subrange(0, 4) =~= xdr::be32(xid));
    assert(b.subrange(4, 8) =~= xdr::be32(1));
    assert(b.subrange(8, 12) =~= xdr::be32(status));
    xdr_laws::lemma_word(b, 0, xid);
    xdr_laws::lemma_word(b, 4, 1);
    xdr_laws::lemma_word(b, 8, status);
    assert(xdr::parse(ReplyBody::shape(), b, 8).val == Err::<Tree, XdrError>(
        XdrError::InvalidValue("reply_status"),
    ));
    let s = Shape::Switch(
        seq![CallHeader::shape(), ReplyBody::shape()],
        Box::new(Shape::Reject("msg_type")),
    );
    assert(xdr::parse(s, b, 4).val == Err::<Tree, XdrError>(
        XdrError::InvalidValue("reply_status"),
    ));
}

/// No authentication.
pub open spec fn no_auth() -> Seq<u8> {
    word(0) + word(0)
}

pub proof fn lemma_no_auth()
    ensures
        xdr::bytes(rpc::no_auth_tree()) == no_auth(),
{
    broadcast use {xdr::group_records, group_pieces};

    assert(octet_string(Seq::empty()) =~= word(0));
}

/// A request is a call, under its xid, of version 2 of RPC, program 400112, version
/// 1, with the number of the procedure and no authentication; the argument follows.
pub proof fn request_on_the_wire<A: Xdr>(xid: u32, proc_num: u32, arg: &A, r: Vec<u8>)
    requires
        call_ensures(rpc::encode_request::<A>, (xid, proc_num, arg), r),
    ensures
        r@ == word(xid) + word(0) + word(2) + word(400112) + word(1) + word(proc_num) + no_auth()
            + no_auth() + wire(*arg),
{
    lemma_call_bytes(xid, proc_num);
}

pub proof fn lemma_call_bytes(xid: u32, proc_num: u32)
    ensures
        xdr::bytes(rpc::call_tree(xid, proc_num)) == word(xid) + word(0) + word(2) + word(400112)
            + word(1) + word(proc_num) + no_auth() + no_auth(),
{
    broadcast use {xdr::group_records, xdr::group_unions, group_pieces};

    lemma_no_auth();
    assert(xdr::be32(0) =~= word(0));
}

/// A successful reply is an accepted one, under its xid, without authentication; the
/// result follows.
pub proof fn reply_on_the_wire<R: Xdr>(xid: u32, res: &R, r: Vec<u8>)
    requires
        call_ensures(rpc::encode_reply::<R>, (xid, res), r),
    ensures
        r@ == word(xid) + word(1) + word(0) + no_auth() + word(0) + wire(*res),
{
    lemma_success_bytes(xid);
}

proof fn lemma_success_bytes(xid: u32)
    ensures
        xdr::bytes(rpc::success_tree(xid)) == word(xid) + word(1) + word(0) + no_auth() + word(0),
{
    broadcast use {xdr::group_records, xdr::group_unions, group_pieces};

    lemma_no_auth();
    assert(xdr::be32(0) =~= word(0));
    assert(xdr::be32(1) =~= word(1));
}

/// The numbers of the authentication flavors, both ways.
pub proof fn flavor_numbers(f: AuthFlavor, n: i32, v: i32, back: XdrResult<AuthFlavor>)
    requires
        call_ensures(AuthFlavor::to_i32, (f,), n),
        call_ensures(AuthFlavor::from_i32, (v,), back),
    ensures
        f is Null ==> n == 0,
        f is Sys ==> n == 1,
        f is Short ==> n == 2,
        f is Dh ==> n == 3,
        f is RpcSecGss ==> n == 6,
        v == n ==> back == Ok::<AuthFlavor, XdrError>(f),
        v < 0 || v == 4 || v == 5 || v > 6 ==> back is Err,
{
}

/// The numbers of the statuses of an accepted call.
pub proof fn accept_status_numbers(s: AcceptStatus, n: i32)
    requires
        call_ensures(AcceptStatus::to_i32, (s,), n),
    ensures
        s is Success ==> n == 0,
        s is ProgUnavail ==> n == 1,
        s is ProgMismatch ==> n == 2,
        s is ProcUnavail ==> n == 3,
        s is GarbageArgs ==> n == 4,
        s is SystemErr ==> n == 5,
{
}

/// The numbers of the procedures, both ways: no other number has a procedure.
pub proof fn procedure_numbers(p: GssxProc, n: u32, v: u32, back: Option<GssxProc>)
    requires
        call_ensures(GssxProc::to_u32, (p,), n),
        call_ensures(GssxProc::from_u32, (v,), back),
    ensures
        p is IndicateMechs ==> n == 1,
        p is GetCallContext ==> n == 2,
        p is ImportAndCanonName ==> n == 3,
        p is ExportCred ==> n == 4,
        p is ImportCred ==> n == 5,
        p is AcquireCred ==> n == 6,
        p is StoreCred ==> n == 7,
        p is InitSecContext ==> n == 8,
        p is AcceptSecContext ==> n == 9,
        p is ReleaseHandle ==> n == 10,
        p is GetMic ==> n == 11,
        p is VerifyMic ==> n == 12,
        p is Wrap ==> n == 13,
        p is Unwrap ==> n == 14,
        p is WrapSizeLimit ==> n == 15,
        v == n ==> back == Some(p),
        v == 0 || v > 15 ==> back is None,
{
}

// ---- records ----

/// A handle is 0 and a context, 1 and a credential, or another number and bytes.
pub proof fn gssx_handle_on_the_wire(v: GssxHandle)
    ensures
        match v {
            GssxHandle::SecCtx(c) => wire(v) == word(0) + wire(c),
            GssxHandle::Cred(c) => wire(v) == word(1) + wire(c),
            GssxHandle::Extensions { handle_type, data } => wire(v) == word(handle_type as u32)
                + octet_string(data@),
        },
{
    broadcast use {xdr::group_records, xdr::group_unions, group_pieces};

    reveal(<GssxHandle as Xdr>::tree);
    assert forall|w: u32| #[trigger] xdr::be32(w) == word(w) by {
        assert(xdr::be32(w) =~= word(w));
    }
}

/// The encoding of [`GssxOption`] is that of its fields in this order: option,
/// value.
pub proof fn gssx_option_on_the_wire(v: GssxOption)
    ensures
        wire(v) == octet_string(v.option@)
            + octet_string(v.value@),
{
    broadcast use {xdr::group_records, group_pieces};

    reveal(<GssxOption as Xdr>::tree);
}

/// The encoding of [`GssxMechAttr`] is that of its fields in this order: attr,
/// name, short desc, long desc, extensions.
pub proof fn gssx_mech_attr_on_the_wire(v: GssxMechAttr)
    ensures
        wire(v) == octet_string(v.attr@)
            + octet_string(v.name@)
            + octet_string(v.short_desc@)
            + octet_string(v.long_desc@)
            + list(v.extensions@),
{
    broadcast use {xdr::group_records, group_pieces};

    reveal(<GssxMechAttr as Xdr>::tree);
}

/// The encoding of [`GssxMechInfo`] is that of its fields in this order: mech, name
/// types, mech attrs, known mech attrs, cred options, sec ctx options, saslname
/// sasl mech name, saslname mech name, saslname mech desc, extensions.
#[verifier::rlimit(80)]
pub proof fn gssx_mech_info_on_the_wire(v: GssxMechInfo)
    ensures
        wire(v) == octet_string(v.mech@)
            + list(v.name_types@)
            + list(v.mech_attrs@)
            + list(v.known_mech_attrs@)
            + list(v.cred_options@)
            + list(v.sec_ctx_options@)
            + octet_string(v.saslname_sasl_mech_name@)
            + octet_string(v.saslname_mech_name@)
            + octet_string(v.saslname_mech_desc@)
            + list(v.extensions@),
{
    broadcast use {xdr::group_records, group_pieces};

    reveal(<GssxMechInfo as Xdr>::tree);
}

/// The encoding of [`GssxNameAttr`] is that of its fields in this order: attr,
/// value, extensions.
pub proof fn gssx_name_attr_on_the_wire(v: GssxNameAttr)
    ensures
        wire(v) == octet_string(v.attr@)
            + octet_string(v.value@)
            + list(v.extensions@),
{
    broadcast use {xdr::group_records, group_pieces};

    reveal(<GssxNameAttr as Xdr>::tree);
}

/// The encoding of [`GssxStatus`] is that of its fields in this order: major
/// status, mech, minor status, major status string, minor status string, server
/// ctx, options.
pub proof fn gssx_status_on_the_wire(v: GssxStatus)
    ensures
        wire(v) == long(v.major_status)
            + octet_string(v.mech@)
            + long(v.minor_status)
            + octet_string(v.major_status_string@)
            + octet_string(v.minor_status_string@)
            + octet_string(v.server_ctx@)
            + list(v.options@),
{
    broadcast use {xdr::group_records, group_pieces};

    reveal(<GssxStatus as Xdr>::tree);
}

/// The encoding of [`GssxCallCtx`] is that of its fields in this order: locale,
/// server ctx, options.
pub proof fn gssx_call_ctx_on_the_wire(v: GssxCallCtx)
    ensures
        wire(v) == octet_string(v.locale@)
            + octet_string(v.server_ctx@)
            + list(v.options@),
{
    broadcast use {xdr::group_records, group_pieces};

    reveal(<GssxCallCtx as Xdr>::tree);
}

/// The encoding of [`GssxName`] is that of its fields in this order: display name,
/// name type, exported name, exported composite name, name attributes, extensions.
pub proof fn gssx_name_on_the_wire(v: GssxName)
    ensures
        wire(v) == octet_string(v.display_name@)
            + octet_string(v.name_type@)
            + octet_string(v.exported_name@)
            + octet_string(v.exported_composite_name@)
            + list(v.name_attributes@)
            + list(v.extensions@),
{
    broadcast use {xdr::group_records, group_pieces};

    reveal(<GssxName as Xdr>::tree);
}

/// The encoding of [`GssxCredElement`] is that of its fields in this order: mn,
/// mech, cred usage, initiator time rec, acceptor time rec, options.
pub proof fn gssx_cred_element_on_the_wire(v: GssxCredElement)
    ensures
        wire(v) == wire(v.mn)
            + octet_string(v.mech@)
            + word(v.cred_usage as u32)
            + long(v.initiator_time_rec)
            + long(v.acceptor_time_rec)
            + list(v.options@),
{
    broadcast use {xdr::group_records, group_pieces};

    reveal(<GssxCredElement as Xdr>::tree);
}

/// The encoding of [`GssxCred`] is that of its fields in this order: desired name,
/// elements, cred handle reference, needs release.
pub proof fn gssx_cred_on_the_wire(v: GssxCred)
    ensures
        wire(v) == wire(v.desired_name)
            + list(v.elements@)
            + octet_string(v.cred_handle_reference@)
            + flag(v.needs_release),
{
    broadcast use {xdr::group_records, group_pieces};

    reveal(<GssxCred as Xdr>::tree);
}

/// The encoding of [`GssxCtx`] is that of its fields in this order: exported
/// context token, state, needs release, mech, src name, targ name, lifetime, ctx
/// flags, locally initiated, open, options.
#[verifier::rlimit(80)]
pub proof fn gssx_ctx_on_the_wire(v: GssxCtx)
    ensures
        wire(v) == octet_string(v.exported_context_token@)
            + octet_string(v.state@)
            + flag(v.needs_release)
            + octet_string(v.mech@)
            + wire(v.src_name)
            + wire(v.targ_name)
            + long(v.lifetime)
            + long(v.ctx_flags)
            + flag(v.locally_initiated)
            + flag(v.open)
            + list(v.options@),
{
    broadcast use {xdr::group_records, group_pieces};

    reveal(<GssxCtx as Xdr>::tree);
}

/// The encoding of [`GssxCb`] is that of its fields in this order: initiator
/// addrtype, initiator address, acceptor addrtype, acceptor address, application
/// data.
pub proof fn gssx_cb_on_the_wire(v: GssxCb)
    ensures
        wire(v) == long(v.initiator_addrtype)
            + octet_string(v.initiator_address@)
            + long(v.acceptor_addrtype)
            + octet_string(v.acceptor_address@)
            + octet_string(v.application_data@),
{
    broadcast use {xdr::group_records, group_pieces};

    reveal(<GssxCb as Xdr>::tree);
}

/// The encoding of [`ArgReleaseHandle`] is that of its fields in this order: call
/// ctx, cred handle.
pub proof fn arg_release_handle_on_the_wire(v: ArgReleaseHandle)
    ensures
        wire(v) == wire(v.call_ctx)
            + wire(v.cred_handle),
{
    broadcast use {xdr::group_records, group_pieces};

    reveal(<ArgReleaseHandle as Xdr>::tree);
}

/// The encoding of [`ResReleaseHandle`] is that of its fields in this order:
/// status.
pub proof fn res_release_handle_on_the_wire(v: ResReleaseHandle)
    ensures
        wire(v) == wire(v.status),
{
    broadcast use {xdr::group_records, group_pieces};

    reveal(<ResReleaseHandle as Xdr>::tree);
}

/// The encoding of [`ArgIndicateMechs`] is that of its fields in this order: call
/// ctx.
pub proof fn arg_indicate_mechs_on_the_wire(v: ArgIndicateMechs)
    ensures
        wire(v) == wire(v.call_ctx),
{
    broadcast use {xdr::group_records, group_pieces};

    reveal(<ArgIndicateMechs as Xdr>::tree);
}

/// The encoding of [`ResIndicateMechs`] is that of its fields in this order:
/// status, mechs, mech attr descs, supported extensions, options.
pub proof fn res_indicate_mechs_on_the_wire(v: ResIndicateMechs)
    ensures
        wire(v) == wire(v.status)
            + list(v.mechs@)
            + list(v.mech_attr_descs@)
            + list(v.supported_extensions@)
            + list(v.options@),
{
    broadcast use {xdr::group_records, group_pieces};

    reveal(<ResIndicateMechs as Xdr>::tree);
}

/// The encoding of [`ArgImportAndCanonName`] is that of its fields in this order:
/// call ctx, input name, mech, name attributes, options.
pub proof fn arg_import_and_canon_name_on_the_wire(v: ArgImportAndCanonName)
    ensures
        wire(v) == wire(v.call_ctx)
            + wire(v.input_name)
            + octet_string(v.mech@)
            + list(v.name_attributes@)
            + list(v.options@),
{
    broadcast use {xdr::group_records, group_pieces};

    reveal(<ArgImportAndCanonName as Xdr>::tree);
}

/// The encoding of [`ResImportAndCanonName`] is that of its fields in this order:
/// status, output name, options.
pub proof fn res_import_and_canon_name_on_the_wire(v: ResImportAndCanonName)
    ensures
        wire(v) == wire(v.status)
            + maybe(v.output_name)
            + list(v.options@),
{
    broadcast use {xdr::group_records, group_pieces};

    reveal(<ResImportAndCanonName as Xdr>::tree);
}

/// The encoding of [`ArgGetCallContext`] is that of its fields in this order: call
/// ctx, options.
pub proof fn arg_get_call_context_on_the_wire(v: ArgGetCallContext)
    ensures
        wire(v) == wire(v.call_ctx)
            + list(v.options@),
{
    broadcast use {xdr::group_records, group_pieces};

    reveal(<ArgGetCallContext as Xdr>::tree);
}

/// The encoding of [`ResGetCallContext`] is that of its fields in this order:
/// status, server call ctx, options.
pub proof fn res_get_call_context_on_the_wire(v: ResGetCallContext)
    ensures
        wire(v) == wire(v.status)
            + octet_string(v.server_call_ctx@)
            + list(v.options@),
{
    broadcast use {xdr::group_records, group_pieces};

    reveal(<ResGetCallContext as Xdr>::tree);
}

/// The encoding of [`ArgAcquireCred`] is that of its fields in this order: call
/// ctx, input cred handle, add cred to input handle, desired name, time req,
/// desired mechs, cred usage, initiator time req, acceptor time req, options.
#[verifier::rlimit(80)]
pub proof fn arg_acquire_cred_on_the_wire(v: ArgAcquireCred)
    ensures
        wire(v) == wire(v.call_ctx)
            + maybe(v.input_cred_handle)
            + flag(v.add_cred_to_input_handle)
            + maybe(v.desired_name)
            + long(v.time_req)
            + list(v.desired_mechs@)
            + word(v.cred_usage as u32)
            + long(v.initiator_time_req)
            + long(v.acceptor_time_req)
            + list(v.options@),
{
    broadcast use {xdr::group_records, group_pieces};

    reveal(<ArgAcquireCred as Xdr>::tree);
}

/// The encoding of [`ResAcquireCred`] is that of its fields in this order: status,
/// output cred handle, options.
pub proof fn res_acquire_cred_on_the_wire(v: ResAcquireCred)
    ensures
        wire(v) == wire(v.status)
            + maybe(v.output_cred_handle)
            + list(v.options@),
{
    broadcast use {xdr::group_records, group_pieces};

    reveal(<ResAcquireCred as Xdr>::tree);
}

/// The encoding of [`ArgExportCred`] is that of its fields in this order: call ctx,
/// input cred handle, cred usage, options.
pub proof fn arg_export_cred_on_the_wire(v: ArgExportCred)
    ensures
        wire(v) == wire(v.call_ctx)
            + wire(v.input_cred_handle)
            + word(v.cred_usage as u32)
            + list(v.options@),
{
    broadcast use {xdr::group_records, group_pieces};

    reveal(<ArgExportCred as Xdr>::tree);
}

/// The encoding of [`ResExportCred`] is that of its fields in this order: status,
/// usage exported, exported handle, options.
pub proof fn res_export_cred_on_the_wire(v: ResExportCred)
    ensures
        wire(v) == wire(v.status)
            + word(v.usage_exported as u32)
            + maybe(v.exported_handle)
            + list(v.options@),
{
    broadcast use {xdr::group_records, group_pieces};

    reveal(<ResExportCred as Xdr>::tree);
}

/// The encoding of [`ArgImportCred`] is that of its fields in this order: call ctx,
/// exported handle, options.
pub proof fn arg_import_cred_on_the_wire(v: ArgImportCred)
    ensures
        wire(v) == wire(v.call_ctx)
            + octet_string(v.exported_handle@)
            + list(v.options@),
{
    broadcast use {xdr::group_records, group_pieces};

    reveal(<ArgImportCred as Xdr>::tree);
}

/// The encoding of [`ResImportCred`] is that of its fields in this order: status,
/// output cred handle, options.
pub proof fn res_import_cred_on_the_wire(v: ResImportCred)
    ensures
        wire(v) == wire(v.status)
            + maybe(v.output_cred_handle)
            + list(v.options@),
{
    broadcast use {xdr::group_records, group_pieces};

    reveal(<ResImportCred as Xdr>::tree);
}

/// The encoding of [`ArgStoreCred`] is that of its fields in this order: call ctx,
/// input cred handle, cred usage, desired mech, overwrite cred, default cred,
/// options.
pub proof fn arg_store_cred_on_the_wire(v: ArgStoreCred)
    ensures
        wire(v) == wire(v.call_ctx)
            + wire(v.input_cred_handle)
            + word(v.cred_usage as u32)
            + octet_string(v.desired_mech@)
            + flag(v.overwrite_cred)
            + flag(v.default_cred)
            + list(v.options@),
{
    broadcast use {xdr::group_records, group_pieces};

    reveal(<ArgStoreCred as Xdr>::tree);
}

/// The encoding of [`ResStoreCred`] is that of its fields in this order: status,
/// elements stored, cred usage stored, options.
pub proof fn res_store_cred_on_the_wire(v: ResStoreCred)
    ensures
        wire(v) == wire(v.status)
            + list(v.elements_stored@)
            + word(v.cred_usage_stored as u32)
            + list(v.options@),
{
    broadcast use {xdr::group_records, group_pieces};

    reveal(<ResStoreCred as Xdr>::tree);
}

/// The encoding of [`ArgInitSecContext`] is that of its fields in this order: call
/// ctx, context handle, cred handle, target name, mech type, req flags, time req,
/// input cb, input token, options.
#[verifier::rlimit(80)]
pub proof fn arg_init_sec_context_on_the_wire(v: ArgInitSecContext)
    ensures
        wire(v) == wire(v.call_ctx)
            + maybe(v.context_handle)
            + maybe(v.cred_handle)
            + maybe(v.target_name)
            + octet_string(v.mech_type@)
            + long(v.req_flags)
            + long(v.time_req)
            + maybe(v.input_cb)
            + maybe(v.input_token)
            + list(v.options@),
{
    broadcast use {xdr::group_records, group_pieces};

    reveal(<ArgInitSecContext as Xdr>::tree);
}

/// The encoding of [`ResInitSecContext`] is that of its fields in this order:
/// status, context handle, output token, options.
pub proof fn res_init_sec_context_on_the_wire(v: ResInitSecContext)
    ensures
        wire(v) == wire(v.status)
            + maybe(v.context_handle)
            + maybe(v.output_token)
            + list(v.options@),
{
    broadcast use {xdr::group_records, group_pieces};

    reveal(<ResInitSecContext as Xdr>::tree);
}

/// The encoding of [`ArgAcceptSecContext`] is that of its fields in this order:
/// call ctx, context handle, cred handle, input token, input cb, ret deleg cred,
/// options.
pub proof fn arg_accept_sec_context_on_the_wire(v: ArgAcceptSecContext)
    ensures
        wire(v) == wire(v.call_ctx)
            + maybe(v.context_handle)
            + maybe(v.cred_handle)
            + octet_string(v.input_token@)
            + maybe(v.input_cb)
            + flag(v.ret_deleg_cred)
            + list(v.options@),
{
    broadcast use {xdr::group_records, group_pieces};

    reveal(<ArgAcceptSecContext as Xdr>::tree);
}

/// The encoding of [`ResAcceptSecContext`] is that of its fields in this order:
/// status, context handle, output token, delegated cred handle, options.
pub proof fn res_accept_sec_context_on_the_wire(v: ResAcceptSecContext)
    ensures
        wire(v) == wire(v.status)
            + maybe(v.context_handle)
            + maybe(v.output_token)
            + maybe(v.delegated_cred_handle)
            + list(v.options@),
{
    broadcast use {xdr::group_records, group_pieces};

    reveal(<ResAcceptSecContext as Xdr>::tree);
}

/// The encoding of [`ArgGetMic`] is that of its fields in this order: call ctx,
/// context handle, qop req, message buffer.
pub proof fn arg_get_mic_on_the_wire(v: ArgGetMic)
    ensures
        wire(v) == wire(v.call_ctx)
            + wire(v.context_handle)
            + long(v.qop_req)
            + octet_string(v.message_buffer@),
{
    broadcast use {xdr::group_records, group_pieces};

    reveal(<ArgGetMic as Xdr>::tree);
}

/// The encoding of [`ResGetMic`] is that of its fields in this order: status,
/// context handle, token buffer, qop state.
pub proof fn res_get_mic_on_the_wire(v: ResGetMic)
    ensures
        wire(v) == wire(v.status)
            + maybe(v.context_handle)
            + octet_string(v.token_buffer@)
            + maybe(v.qop_state),
{
    broadcast use {xdr::group_records, group_pieces};

    reveal(<ResGetMic as Xdr>::tree);
}

/// The encoding of [`ArgVerifyMic`] is that of its fields in this order: call ctx,
/// context handle, message buffer, token buffer.
pub proof fn arg_verify_mic_on_the_wire(v: ArgVerifyMic)
    ensures
        wire(v) == wire(v.call_ctx)
            + wire(v.context_handle)
            + octet_string(v.message_buffer@)
            + octet_string(v.token_buffer@),
{
    broadcast use {xdr::group_records, group_pieces};

    reveal(<ArgVerifyMic as Xdr>::tree);
}

/// The encoding of [`ResVerifyMic`] is that of its fields in this order: status,
/// context handle, qop state.
pub proof fn res_verify_mic_on_the_wire(v: ResVerifyMic)
    ensures
        wire(v) == wire(v.status)
            + maybe(v.context_handle)
            + maybe(v.qop_state),
{
    broadcast use {xdr::group_records, group_pieces};

    reveal(<ResVerifyMic as Xdr>::tree);
}

/// The encoding of [`ArgWrap`] is that of its fields in this order: call ctx,
/// context handle, conf req, message buffer, qop state.
pub proof fn arg_wrap_on_the_wire(v: ArgWrap)
    ensures
        wire(v) == wire(v.call_ctx)
            + wire(v.context_handle)
            + flag(v.conf_req)
            + list(v.message_buffer@)
            + long(v.qop_state),
{
    broadcast use {xdr::group_records, group_pieces};

    reveal(<ArgWrap as Xdr>::tree);
}

/// The encoding of [`ResWrap`] is that of its fields in this order: status, context
/// handle, token buffer, conf state, qop state.
pub proof fn res_wrap_on_the_wire(v: ResWrap)
    ensures
        wire(v) == wire(v.status)
            + maybe(v.context_handle)
            + list(v.token_buffer@)
            + maybe(v.conf_state)
            + maybe(v.qop_state),
{
    broadcast use {xdr::group_records, group_pieces};

    reveal(<ResWrap as Xdr>::tree);
}

/// The encoding of [`ArgUnwrap`] is that of its fields in this order: call ctx,
/// context handle, token buffer, qop state.
pub proof fn arg_unwrap_on_the_wire(v: ArgUnwrap)
    ensures
        wire(v) == wire(v.call_ctx)
            + wire(v.context_handle)
            + list(v.token_buffer@)
            + long(v.qop_state),
{
    broadcast use {xdr::group_records, group_pieces};

    reveal(<ArgUnwrap as Xdr>::tree);
}

/// The encoding of [`ResUnwrap`] is that of its fields in this order: status,
/// context handle, message buffer, conf state, qop state.
pub proof fn res_unwrap_on_the_wire(v: ResUnwrap)
    ensures
        wire(v) == wire(v.status)
            + maybe(v.context_handle)
            + list(v.message_buffer@)
            + maybe(v.conf_state)
            + maybe(v.qop_state),
{
    broadcast use {xdr::group_records, group_pieces};

    reveal(<ResUnwrap as Xdr>::tree);
}

/// The encoding of [`ArgWrapSizeLimit`] is that of its fields in this order: call
/// ctx, context handle, conf req, qop state, req output size.
pub proof fn arg_wrap_size_limit_on_the_wire(v: ArgWrapSizeLimit)
    ensures
        wire(v) == wire(v.call_ctx)
            + wire(v.context_handle)
            + flag(v.conf_req)
            + long(v.qop_state)
            + long(v.req_output_size),
{
    broadcast use {xdr::group_records, group_pieces};

    reveal(<ArgWrapSizeLimit as Xdr>::tree);
}

/// The encoding of [`ResWrapSizeLimit`] is that of its fields in this order:
/// status, max input size.
pub proof fn res_wrap_size_limit_on_the_wire(v: ResWrapSizeLimit)
    ensures
        wire(v) == wire(v.status)
            + long(v.max_input_size),
{
    broadcast use {xdr::group_records, group_pieces};

    reveal(<ResWrapSizeLimit as Xdr>::tree);
}

} // verus!
