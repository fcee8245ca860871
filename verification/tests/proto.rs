//! The wire format.

use gssproxy::frame::{encode_header, frame, parse_header, FrameError};
use gssproxy::gssx::{GssxCred, GssxCtx, GssxHandle, GssxName, GssxOption, GssxStatus, Opaque};
use gssproxy::proc::{
    ArgIndicateMechs, ArgInitSecContext, ArgWrap, GssxProc, ResInitSecContext, ResWrap,
};
use gssproxy::redact::{len, opt_len, present};
use gssproxy::rpc::{
    encode_reply, encode_request, AuthFlavor, Message, OpaqueAuth, ReplyBody, FRAGMENT_BIT,
    GSSPROXY, GSSPROXYVERS, MAX_AUTH_BODY, MAX_RPC_SIZE, RPC_VERS,
};
use gssproxy::xdr::{
    decode_array, decode_optional, encode_array, encode_optional, Xdr, XdrDecoder, XdrEncoder,
    XdrError,
};

fn roundtrip<T: Xdr + PartialEq + std::fmt::Debug>(v: &T) {
    let mut e = XdrEncoder::new();
    v.encode(&mut e);
    let mut d = XdrDecoder::new(e.as_bytes());
    let got = T::decode(&mut d).unwrap();
    assert_eq!(&got, v);
    assert_eq!(d.remaining(), 0, "decoder did not consume entire buffer");
}

#[test]
fn u32_roundtrip_and_layout() {
    let mut e = XdrEncoder::new();
    e.put_u32(0x01020304);
    assert_eq!(e.as_bytes(), &[0x01, 0x02, 0x03, 0x04]);
    let mut d = XdrDecoder::new(e.as_bytes());
    assert_eq!(d.get_u32().unwrap(), 0x01020304);
}

#[test]
fn u64_high_word_first() {
    let mut e = XdrEncoder::new();
    e.put_u64(0x0102030405060708);
    assert_eq!(e.as_bytes(), &[0x01, 0x02, 0x03, 0x04, 0x05, 0x06, 0x07, 0x08]);
    let mut d = XdrDecoder::new(e.as_bytes());
    assert_eq!(d.get_u64().unwrap(), 0x0102030405060708);
}

#[test]
fn opaque_is_length_prefixed_and_padded() {
    let mut e = XdrEncoder::new();
    e.put_opaque(b"abc");
    // length 3, 'a','b','c', one pad byte -> 8 bytes total
    assert_eq!(e.as_bytes(), &[0, 0, 0, 3, b'a', b'b', b'c', 0]);
    let mut d = XdrDecoder::new(e.as_bytes());
    assert_eq!(d.get_opaque().unwrap(), b"abc");
    assert_eq!(d.remaining(), 0);
}

#[test]
fn empty_opaque_has_no_padding() {
    let mut e = XdrEncoder::new();
    e.put_opaque(b"");
    assert_eq!(e.as_bytes(), &[0, 0, 0, 0]);
}

#[test]
fn bool_values() {
    let mut e = XdrEncoder::new();
    e.put_bool(true);
    e.put_bool(false);
    assert_eq!(e.as_bytes(), &[0, 0, 0, 1, 0, 0, 0, 0]);
}

#[test]
fn call_header_roundtrip() {
    let mut e = XdrEncoder::new();
    let msg = Message::call(0xdeadbeef, 8);
    msg.encode(&mut e);
    let mut d = XdrDecoder::new(e.as_bytes());
    let got = Message::decode(&mut d).unwrap();
    assert_eq!(got, msg);
    let call = got.call.unwrap();
    assert_eq!(call.prog, GSSPROXY);
    assert_eq!(call.vers, GSSPROXYVERS);
    assert_eq!(call.proc_num, 8);
    assert_eq!(call.rpcvers, RPC_VERS);
}

#[test]
fn reply_success_roundtrip() {
    let mut e = XdrEncoder::new();
    Message::reply_success(7).encode(&mut e);
    let mut d = XdrDecoder::new(e.as_bytes());
    let got = Message::decode(&mut d).unwrap();
    assert_eq!(got.xid, 7);
    assert!(!got.is_call);
    assert!(matches!(got.reply, Some(ReplyBody::AcceptedSuccess { .. })));
    // No trailing bytes: a success reply envelope has no result body here.
    assert_eq!(d.remaining(), 0);
}

#[test]
fn proc_numbers() {
    assert_eq!(GssxProc::from_u32(8), Some(GssxProc::InitSecContext));
    assert_eq!(GssxProc::from_u32(0), None);
    assert_eq!(GssxProc::from_u32(16), None);
    assert_eq!(GssxProc::InitSecContext.to_u32(), 8);
}

#[test]
fn init_sec_context_roundtrip() {
    let arg = ArgInitSecContext {
        mech_type: Opaque::new(vec![1, 2, 3]),
        req_flags: 0x3e,
        input_token: Some(Opaque::new(b"token".to_vec())),
        ..Default::default()
    };
    roundtrip(&arg);
    let res = ResInitSecContext {
        status: GssxStatus {
            major_status: 0,
            ..Default::default()
        },
        context_handle: Some(GssxCtx::default()),
        output_token: Some(Opaque::new(b"out".to_vec())),
        options: vec![],
    };
    roundtrip(&res);
}

#[test]
fn wrap_unwrap_roundtrip() {
    let arg = ArgWrap {
        conf_req: true,
        message_buffer: vec![Opaque::new(b"hello".to_vec())],
        qop_state: 0,
        ..Default::default()
    };
    roundtrip(&arg);
    let res = ResWrap {
        token_buffer: vec![Opaque::new(b"wrapped".to_vec())],
        conf_state: Some(true),
        qop_state: Some(0),
        ..Default::default()
    };
    roundtrip(&res);
}

#[test]
fn name_roundtrip() {
    let n = GssxName {
        display_name: Opaque::new(b"user@REALM".to_vec()),
        name_type: Opaque::new(vec![0x2a, 0x86, 0x48]),
        exported_name: Opaque::default(),
        exported_composite_name: Opaque::default(),
        name_attributes: vec![],
        extensions: vec![GssxOption {
            option: Opaque::new(b"k".to_vec()),
            value: Opaque::new(b"v".to_vec()),
        }],
    };
    roundtrip(&n);
}

#[test]
fn handle_union_variants() {
    roundtrip(&GssxHandle::Cred(GssxCred::default()));
    roundtrip(&GssxHandle::SecCtx(GssxCtx::default()));
    roundtrip(&GssxHandle::Extensions {
        handle_type: 7,
        data: Opaque::new(b"x".to_vec()),
    });
}

#[test]
fn ctx_roundtrip() {
    let c = GssxCtx {
        exported_context_token: Opaque::new(b"tok".to_vec()),
        ctx_flags: 0x1122334455667788,
        lifetime: 3600,
        open: true,
        locally_initiated: true,
        ..Default::default()
    };
    roundtrip(&c);
}

#[test]
fn request_envelope_then_arg() {
    let arg = ArgInitSecContext::default();
    let body = encode_request(42, GssxProc::InitSecContext.to_u32(), &arg);
    let mut d = XdrDecoder::new(&body);
    let msg = Message::decode(&mut d).unwrap();
    assert_eq!(msg.xid, 42);
    assert!(msg.is_call);
    assert_eq!(msg.call.unwrap().proc_num, 8);
    // Remaining bytes decode as the argument.
    let got = ArgInitSecContext::decode(&mut d).unwrap();
    assert_eq!(got, arg);
}

#[test]
fn golden_indicate_mechs_request() {
    // This locks the envelope layout, and the program number 400112 = 0x61AF0.
    let body =
        encode_request(1, GssxProc::IndicateMechs.to_u32(), &ArgIndicateMechs::default());
    let expected: &[u8] = &[
        0x00, 0x00, 0x00, 0x01, // xid = 1
        0x00, 0x00, 0x00, 0x00, // msg type = CALL
        0x00, 0x00, 0x00, 0x02, // rpcvers = 2
        0x00, 0x06, 0x1A, 0xF0, // prog = 400112
        0x00, 0x00, 0x00, 0x01, // vers = 1
        0x00, 0x00, 0x00, 0x01, // proc = 1 (INDICATE_MECHS)
        0x00, 0x00, 0x00, 0x00, // cred flavor = AUTH_NONE
        0x00, 0x00, 0x00, 0x00, // cred body length = 0
        0x00, 0x00, 0x00, 0x00, // verf flavor = AUTH_NONE
        0x00, 0x00, 0x00, 0x00, // verf body length = 0
        // ArgIndicateMechs = call_ctx { locale="", server_ctx="", options=[] }
        0x00, 0x00, 0x00, 0x00, // locale length = 0
        0x00, 0x00, 0x00, 0x00, // server_ctx length = 0
        0x00, 0x00, 0x00, 0x00, // options count = 0
    ];
    assert_eq!(body, expected);
}

#[test]
fn reply_envelope_then_res() {
    let res = ResInitSecContext::default();
    let body = encode_reply(42, &res);
    let mut d = XdrDecoder::new(&body);
    let msg = Message::decode(&mut d).unwrap();
    assert_eq!(msg.xid, 42);
    assert!(!msg.is_call);
    let got = ResInitSecContext::decode(&mut d).unwrap();
    assert_eq!(got, res);
}

#[test]
fn header_roundtrip() {
    let h = encode_header(5);
    let word = u32::from_be_bytes(h);
    assert_eq!(parse_header(word).unwrap(), 5);
}

#[test]
fn rejects_missing_fragment_bit() {
    assert_eq!(parse_header(5), Err(FrameError::MultiFragment));
}

#[test]
fn rejects_oversized() {
    let word = ((MAX_RPC_SIZE as u32) + 1) | FRAGMENT_BIT;
    assert!(matches!(parse_header(word), Err(FrameError::TooLarge(_))));
}

#[test]
fn frame_prepends_header() {
    let f = frame(b"hi");
    assert_eq!(&f[4..], b"hi");
    assert_eq!(
        parse_header(u32::from_be_bytes([f[0], f[1], f[2], f[3]])).unwrap(),
        2
    );
}

#[test]
fn renders_only_length() {
    assert_eq!(len(b"super-secret-token").render(), "<18 bytes>");
    assert_eq!(len(&[]).render(), "<0 bytes>");
    assert_eq!(opt_len(None).render(), "<0 bytes>");
    assert_eq!(opt_len(Some(b"abcd")).render(), "<4 bytes>");
}

#[test]
fn never_contains_payload() {
    let secret = b"AKIA-pretend-this-is-a-key";
    let rendered = format!("{} {}", len(secret).render(), opt_len(Some(secret)).render());
    assert!(!rendered.contains("AKIA"));
    assert!(rendered.contains("26 bytes"));
}

#[test]
fn present_reports_emptiness_only() {
    assert!(present(b"x"));
    assert!(!present(b""));
}

#[test]
fn header_of_the_largest_body_reads_back() {
    assert_eq!(encode_header(MAX_RPC_SIZE), [0x80, 0x10, 0x00, 0x00]);
    assert_eq!(parse_header(0x8010_0000), Ok(MAX_RPC_SIZE));
    assert_eq!(
        parse_header(0x8010_0001),
        Err(FrameError::TooLarge(MAX_RPC_SIZE + 1))
    );
    assert_eq!(parse_header(u32::MAX), Err(FrameError::TooLarge(0x7fff_ffff)));
}

#[test]
fn frame_errors_are_described() {
    assert_eq!(
        FrameError::MultiFragment.message(),
        "multi-fragment records are not supported"
    );
    assert_eq!(
        FrameError::TooLarge(1048577).message(),
        "record body too large: 1048577 bytes"
    );
}

#[test]
fn decode_errors_are_described() {
    assert_eq!(XdrError::Eof.message(), "unexpected end of XDR stream");
    assert_eq!(
        XdrError::InvalidValue("bool").message(),
        "invalid XDR value: bool"
    );
    assert_eq!(XdrError::TooLong.message(), "XDR length exceeds maximum");
}

#[test]
fn short_buffers_end_early() {
    assert_eq!(XdrDecoder::new(&[0, 0, 1]).get_u32(), Err(XdrError::Eof));
    assert_eq!(
        XdrDecoder::new(&[0, 0, 0, 1, 0, 0, 0]).get_u64(),
        Err(XdrError::Eof)
    );
    assert_eq!(
        XdrDecoder::new(&[0, 0, 0, 5, 1, 2, 3, 4]).get_opaque(),
        Err(XdrError::Eof)
    );
    // The padding counts as well.
    assert_eq!(
        XdrDecoder::new(&[0, 0, 0, 1, 9]).get_opaque(),
        Err(XdrError::Eof)
    );
}

#[test]
fn bool_must_be_zero_or_one() {
    assert_eq!(XdrDecoder::new(&[0, 0, 0, 0]).get_bool(), Ok(false));
    assert_eq!(XdrDecoder::new(&[0, 0, 0, 1]).get_bool(), Ok(true));
    assert!(matches!(
        XdrDecoder::new(&[0, 0, 0, 2]).get_bool(),
        Err(XdrError::InvalidValue(_))
    ));
}

#[test]
fn signed_words_are_two_complement() {
    let mut e = XdrEncoder::with_capacity(8);
    e.put_i32(-1);
    e.put_enum(i32::MIN);
    assert_eq!(e.position(), 8);
    let bytes = e.into_bytes();
    assert_eq!(bytes, [0xff, 0xff, 0xff, 0xff, 0x80, 0, 0, 0]);
    let mut d = XdrDecoder::new(&bytes);
    assert_eq!(d.get_i32(), Ok(-1));
    assert_eq!(d.position(), 4);
    assert_eq!(d.get_enum(), Ok(i32::MIN));
}

#[test]
fn arrays_and_optionals_are_counted() {
    let mut e = XdrEncoder::new();
    encode_array(&mut e, &[7u32, 8]);
    encode_optional(&mut e, &Some(9u64));
    encode_optional::<u32>(&mut e, &None);
    let bytes = e.into_bytes();
    assert_eq!(
        bytes,
        [0, 0, 0, 2, 0, 0, 0, 7, 0, 0, 0, 8, 0, 0, 0, 1, 0, 0, 0, 0, 0, 0, 0, 9, 0, 0, 0, 0]
    );
    let mut d = XdrDecoder::new(&bytes);
    assert_eq!(decode_array::<u32>(&mut d), Ok(vec![7, 8]));
    assert_eq!(decode_optional::<u64>(&mut d), Ok(Some(9)));
    assert_eq!(decode_optional::<u32>(&mut d), Ok(None));
    assert_eq!(d.remaining(), 0);
    // A count that the buffer cannot hold.
    assert_eq!(
        decode_array::<u32>(&mut XdrDecoder::new(&[0xff, 0xff, 0xff, 0xff])),
        Err(XdrError::TooLong)
    );
}

#[test]
fn every_prefix_of_an_encoding_is_rejected() {
    let n = GssxName {
        display_name: Opaque::new(b"host@server".to_vec()),
        extensions: vec![GssxOption {
            option: Opaque::new(b"o".to_vec()),
            value: Opaque::default(),
        }],
        ..Default::default()
    };
    let mut e = XdrEncoder::new();
    n.encode(&mut e);
    let bytes = e.into_bytes();
    assert_eq!(bytes.len() % 4, 0);
    for k in 0..bytes.len() {
        assert!(GssxName::decode(&mut XdrDecoder::new(&bytes[..k])).is_err());
    }
    // Bytes after it do not matter.
    let mut longer = bytes.clone();
    longer.extend_from_slice(&[1, 2, 3]);
    let mut d = XdrDecoder::new(&longer);
    assert_eq!(GssxName::decode(&mut d).unwrap(), n);
    assert_eq!(d.remaining(), 3);
}

#[test]
fn padding_is_not_looked_at() {
    let mut d = XdrDecoder::new(&[0, 0, 0, 1, 9, 0xaa, 0xbb, 0xcc]);
    let got = Opaque::decode(&mut d).unwrap();
    assert_eq!(got, Opaque::new(vec![9]));
    let mut e = XdrEncoder::new();
    got.encode(&mut e);
    assert_eq!(e.as_bytes(), &[0, 0, 0, 1, 9, 0, 0, 0]);
}

#[test]
fn oversized_auth_body_is_too_long() {
    let auth = OpaqueAuth { flavor: 1, body: vec![0; MAX_AUTH_BODY + 1] };
    let mut e = XdrEncoder::new();
    auth.encode(&mut e);
    assert_eq!(
        OpaqueAuth::decode(&mut XdrDecoder::new(e.as_bytes())),
        Err(XdrError::TooLong)
    );
    roundtrip(&OpaqueAuth { flavor: 6, body: vec![3; MAX_AUTH_BODY] });
}

#[test]
fn auth_flavors_have_gaps() {
    assert_eq!(AuthFlavor::from_i32(0), Ok(AuthFlavor::Null));
    assert_eq!(AuthFlavor::from_i32(6), Ok(AuthFlavor::RpcSecGss));
    assert_eq!(
        AuthFlavor::from_i32(4),
        Err(XdrError::InvalidValue("auth_flavor"))
    );
}

#[test]
fn procedures_number_one_to_fifteen() {
    for n in 1..16u32 {
        assert_eq!(GssxProc::from_u32(n).unwrap().to_u32(), n);
    }
}
