//! Requests to measure the wire codec with.

use vstd::prelude::*;

use crate::gssx::Opaque;
use crate::octets;
use crate::proc::{ArgIndicateMechs, ArgInitSecContext, GssxProc};
use crate::rpc;
use crate::rpc::Message;
use crate::xdr;
use crate::xdr::{Xdr, XdrDecoder};
use crate::xdr_laws;

verus! {

/// The krb5 mechanism, 1.2.840.113554.1.2.2, in DER.
pub const KRB5_OID: [u8; 9] = [0x2a, 0x86, 0x48, 0x86, 0xf7, 0x12, 0x01, 0x02, 0x02];

/// A buffer of this size holds any of the requests.
pub const SCRATCH: usize = 2 * 1024 * 1024;

/// The transaction that the requests belong to.
pub const CODEC_XID: u32 = 1;

/// An empty argument.
pub fn indicate_mechs_arg() -> (r: ArgIndicateMechs)
    ensures
        r.blank(),
{
    ArgIndicateMechs::default()
}

/// An argument that holds the krb5 mechanism and a token of zeros, and nothing
/// else.
pub open spec fn holds_token(arg: ArgInitSecContext, payload_len: nat) -> bool {
    &&& arg.call_ctx.blank()
    &&& arg.context_handle is None
    &&& arg.cred_handle is None
    &&& arg.target_name is None
    &&& arg.mech_type@ == KRB5_OID@
    &&& arg.req_flags == 0
    &&& arg.time_req == 0
    &&& arg.input_cb is None
    &&& arg.input_token is Some
    &&& arg.input_token->Some_0@ == xdr::zeros(payload_len as int)
    &&& arg.options@.len() == 0
}

/// An argument with the krb5 mechanism and a token of `payload_len` zeros.
pub fn init_sec_context_arg(payload_len: usize) -> (r: ArgInitSecContext)
    requires
        payload_len <= isize::MAX,
    ensures
        holds_token(r, payload_len as nat),
{
    let mut arg = ArgInitSecContext::default();
    let oid = KRB5_OID;
    arg.mech_type = Opaque::new(octets::copy(oid.as_slice()));
    let token: Vec<u8> = vec![0u8; payload_len];
    assert(token@ =~= xdr::zeros(payload_len as int));
    arg.input_token = Some(Opaque::new(token));
    arg
}

/// The bytes of a request.
pub open spec fn request<A: Xdr>(p: GssxProc, arg: A) -> Seq<u8> {
    xdr::bytes(rpc::call_tree(CODEC_XID, p.number())) + xdr::bytes(arg.tree())
}

/// An envelope can be read from the bytes, and an argument after it.
pub open spec fn reads_as<A: Xdr>(b: Seq<u8>) -> bool {
    let q = xdr::parse(Message::shape(), b, 0);
    q.val is Ok && xdr::parse(A::shape(), b, q.next).val is Ok
}

/// Encode a request for the mechanisms.
pub fn encode_indicate_mechs(arg: &ArgIndicateMechs) -> (r: Vec<u8>)
    ensures
        r@ == request(GssxProc::IndicateMechs, *arg),
{
    rpc::encode_request(CODEC_XID, GssxProc::IndicateMechs.to_u32(), arg)
}

/// Encode a request to initiate a context.
pub fn encode_init_sec_context(arg: &ArgInitSecContext) -> (r: Vec<u8>)
    ensures
        r@ == request(GssxProc::InitSecContext, *arg),
{
    rpc::encode_request(CODEC_XID, GssxProc::InitSecContext.to_u32(), arg)
}

/// Whether a request for the mechanisms can be read.
pub fn decode_indicate_mechs(bytes: &[u8]) -> (r: bool)
    ensures
        r == reads_as::<ArgIndicateMechs>(bytes@),
{
    let mut d = XdrDecoder::new(bytes);
    Message::decode(&mut d).is_ok() && ArgIndicateMechs::decode(&mut d).is_ok()
}

/// Whether a request to initiate a context can be read.
pub fn decode_init_sec_context(bytes: &[u8]) -> (r: bool)
    ensures
        r == reads_as::<ArgInitSecContext>(bytes@),
{
    let mut d = XdrDecoder::new(bytes);
    Message::decode(&mut d).is_ok() && ArgInitSecContext::decode(&mut d).is_ok()
}

/// Every request that is encoded can be read, whatever follows it.
pub proof fn encoded_request_is_read<A: Xdr>(p: GssxProc, arg: A, rest: Seq<u8>)
    requires
        arg.canonical(),
        xdr::sized(arg.tree()),
    ensures
        reads_as::<A>(request(p, arg) + rest),
{
    rpc::request_reads_back(CODEC_XID, p.number(), arg, rest);
}

/// No request that is cut short can be read.
pub proof fn shortened_request_is_not_read<A: Xdr>(p: GssxProc, arg: A, k: int)
    requires
        arg.canonical(),
        xdr::sized(arg.tree()),
        0 <= k < request(p, arg).len(),
    ensures
        !reads_as::<A>(request(p, arg).take(k)),
{
    let e = xdr::bytes(rpc::call_tree(CODEC_XID, p.number()));
    let a = xdr::bytes(arg.tree());
    let b = request(p, arg).take(k);
    rpc::lemma_call_fits(CODEC_XID, p.number());
    if k < e.len() {
        assert(b =~= e.take(k));
        xdr_laws::prefix_is_rejected(
            Message::shape(),
            rpc::call_tree(CODEC_XID, p.number()),
            k,
        );
    } else {
        let rest = a.take(k - e.len());
        assert(b =~= e + rest);
        rpc::call_envelope_reads_back(CODEC_XID, p.number(), rest);
        arg.lemma_fits();
        xdr_laws::prefix_is_rejected_at(A::shape(), arg.tree(), e, k - e.len());
    }
}

} // verus!
