//! The typed client calls: what each sends to the daemon, and what each makes
//! of the reply.
//!
//! A call that reaches the daemon is two functions: one that builds the
//! argument, named `.._arg`, and one that takes what [`crate::client::make_call`]
//! returned. The last status that the daemon reported is kept by the caller and
//! handed in as `saved`.

use vstd::prelude::*;

use crate::client::GpmError;
use crate::consts::{
    EINVAL, ENOTSUP, GSSX_C_ACCEPT, GSSX_C_BOTH, GSSX_C_INITIATE, GSS_C_ACCEPT, GSS_C_BOTH,
    GSS_C_GSS_CODE, GSS_C_INDEFINITE, GSS_C_INITIATE, GSS_C_MECH_CODE, GSS_S_BAD_NAME,
    GSS_S_BAD_STATUS, GSS_S_COMPLETE, GSS_S_CONTINUE_NEEDED, GSS_S_FAILURE, GSS_S_UNAVAILABLE,
    NT_EXPORT_NAME_OID,
};
use crate::gssx::{
    GssxBuffer, GssxCallCtx, GssxCb, GssxCred, GssxCredElement, GssxCtx, GssxHandle, GssxName,
    GssxOption, GssxStatus, Opaque,
};
use crate::octets;
use crate::proc::{
    ArgAcceptSecContext, ArgAcquireCred, ArgGetMic, ArgImportAndCanonName, ArgIndicateMechs,
    ArgInitSecContext, ArgReleaseHandle, ArgUnwrap, ArgVerifyMic, ArgWrap, ArgWrapSizeLimit,
    ResAcceptSecContext, ResAcquireCred, ResGetMic, ResImportAndCanonName, ResIndicateMechs,
    ResInitSecContext, ResReleaseHandle, ResUnwrap, ResVerifyMic, ResWrap, ResWrapSizeLimit,
};
use crate::xdr;
use crate::xdr::{Tree, Xdr, XdrDecoder, XdrEncoder};
use crate::xdr_laws;

verus! {

/// Option key `acquire_type`. Keys and values carry their terminating NUL.
pub const ACQUIRE_TYPE_OPTION: [u8; 13] = [
    0x61, 0x63, 0x71, 0x75, 0x69, 0x72, 0x65, 0x5f, 0x74, 0x79, 0x70, 0x65, 0x00,
];

/// Option value `impersonate_name`.
pub const ACQUIRE_IMPERSONATE_NAME: [u8; 17] = [
    0x69, 0x6d, 0x70, 0x65, 0x72, 0x73, 0x6f, 0x6e, 0x61, 0x74, 0x65, 0x5f, 0x6e, 0x61, 0x6d,
    0x65, 0x00,
];

/// Option key `sync_modified_creds`.
pub const CRED_SYNC_OPTION: [u8; 20] = [
    0x73, 0x79, 0x6e, 0x63, 0x5f, 0x6d, 0x6f, 0x64, 0x69, 0x66, 0x69, 0x65, 0x64, 0x5f, 0x63,
    0x72, 0x65, 0x64, 0x73, 0x00,
];

/// Option value `default`.
pub const CRED_SYNC_DEFAULT: [u8; 8] = [
    0x64, 0x65, 0x66, 0x61, 0x75, 0x6c, 0x74, 0x00,
];

/// Option key `sync_creds`.
pub const CRED_SYNC_PAYLOAD: [u8; 11] = [
    0x73, 0x79, 0x6e, 0x63, 0x5f, 0x63, 0x72, 0x65, 0x64, 0x73, 0x00,
];

/// Option key `localname`.
pub const LOCALNAME_OPTION: [u8; 10] = [
    0x6c, 0x6f, 0x63, 0x61, 0x6c, 0x6e, 0x61, 0x6d, 0x65, 0x00,
];

/// Major status text of a client-internal failure.
pub const STD_MAJ_ERROR_STR: [u8; 24] = [
    0x49, 0x6e, 0x74, 0x65, 0x72, 0x6e, 0x61, 0x6c, 0x20, 0x67, 0x73, 0x73, 0x70, 0x72, 0x6f,
    0x78, 0x79, 0x20, 0x65, 0x72, 0x72, 0x6f, 0x72, 0x00,
];

/// The wire form of a credential usage.
pub open spec fn usage_on_wire(usage: i32) -> i32 {
    if usage == GSS_C_BOTH {
        GSSX_C_BOTH
    } else if usage == GSS_C_INITIATE {
        GSSX_C_INITIATE
    } else if usage == GSS_C_ACCEPT {
        GSSX_C_ACCEPT
    } else {
        0
    }
}

/// The wire form of a credential usage; 0 for anything that is none.
pub fn cred_usage_to_gssx(usage: i32) -> (r: i32)
    ensures
        r == usage_on_wire(usage),
{
    match usage {
        GSS_C_BOTH => GSSX_C_BOTH,
        GSS_C_INITIATE => GSSX_C_INITIATE,
        GSS_C_ACCEPT => GSSX_C_ACCEPT,
        _ => 0,
    }
}

/// An option with a key and a value.
pub fn option(key: &[u8], value: &[u8]) -> (r: GssxOption)
    ensures
        r.option@ == key@,
        r.value@ == value@,
{
    GssxOption { option: Opaque::from_slice(key), value: Opaque::from_slice(value) }
}

/// The value of the first option with a key.
pub open spec fn option_value(options: Seq<GssxOption>, key: Seq<u8>) -> Option<Seq<u8>>
    decreases options.len(),
{
    if options.len() == 0 {
        None
    } else if options[0].option@ == key {
        Some(options[0].value@)
    } else {
        option_value(options.skip(1), key)
    }
}

/// Locate an option by exact key bytes; the first one counts.
pub fn find_option<'a>(options: &'a [GssxOption], key: &[u8]) -> (r: Option<&'a GssxBuffer>)
    ensures
        match option_value(options@, key@) {
            Some(v) => r matches Some(b) && b@ == v,
            None => r is None,
        },
{
    let mut i: usize = 0;
    assert(options@.skip(0) =~= options@);
    while i < options.len()
        invariant
            i <= options@.len(),
            option_value(options@, key@) == option_value(options@.skip(i as int), key@),
        decreases options@.len() - i,
    {
        assert(options@.skip(i as int)[0] == options@[i as int]);
        if octets::same(options[i].option.as_slice(), key) {
            return Some(&options[i].value);
        }
        assert(options@.skip(i as int).skip(1) =~= options@.skip(i + 1));
        i += 1;
    }
    None
}

/// The tree of an optional borrowed value.
pub open spec fn ref_tree<T: Xdr>(value: Option<&T>) -> Tree {
    match value {
        Some(v) => Tree::Present(Box::new(v.tree())),
        None => Tree::Absent,
    }
}

// ---- the saved status ----

/// Keep a status for [`display_status`].
pub fn save_status(saved: &mut Option<GssxStatus>, status: &GssxStatus)
    ensures
        *final(saved) matches Some(s) && s.tree() == status.tree(),
{
    *saved = Some(status.clone());
}

/// The status of a client-internal failure: the given error, with its text
/// NUL-terminated.
pub open spec fn internal_status(s: GssxStatus, err: u32, text: Seq<u8>) -> bool {
    &&& s.major_status == GSS_S_FAILURE
    &&& s.major_status_string@ == STD_MAJ_ERROR_STR@
    &&& s.minor_status == err
    &&& s.minor_status_string@ == text.push(0)
    &&& s.mech@.len() == 0
    &&& s.server_ctx@.len() == 0
    &&& s.options@.len() == 0
}

/// Record a client-internal failure.
pub fn save_internal_status(saved: &mut Option<GssxStatus>, err: u32, err_str: &str)
    ensures
        *final(saved) matches Some(s) && internal_status(s, err, vstd::utf8::encode_utf8(err_str@)),
{
    let mut minor_string: Vec<u8> = octets::copy(err_str.as_bytes());
    minor_string.push(0);
    let major_string = STD_MAJ_ERROR_STR;
    let status = GssxStatus {
        major_status: GSS_S_FAILURE as u64,
        mech: Opaque::default(),
        minor_status: err as u64,
        major_status_string: Opaque::from_slice(major_string.as_slice()),
        minor_status_string: Opaque::new(minor_string),
        server_ctx: Opaque::default(),
        options: Vec::new(),
    };
    *saved = Some(status);
}

/// Render a saved status string, as `(major, minor, message)`. Only the status
/// that was saved last has a text, and only a non-empty one is rendered. A
/// minor status has a single message.
pub fn display_status(
    saved: &Option<GssxStatus>,
    status_value: u32,
    status_type: i32,
    message_context: u32,
) -> (r: (u32, u32, Vec<u8>))
    ensures
        ({
            let major_text = match saved {
                Some(s) => if s.major_status == status_value && s.major_status_string@.len() > 0 {
                    Some(s.major_status_string@)
                } else {
                    None
                },
                None => None,
            };
            let minor_text = match saved {
                Some(s) => if s.minor_status == status_value && s.minor_status_string@.len() > 0 {
                    Some(s.minor_status_string@)
                } else {
                    None
                },
                None => None,
            };
            let text = if status_type == GSS_C_GSS_CODE {
                major_text
            } else {
                minor_text
            };
            if status_type != GSS_C_GSS_CODE && status_type != GSS_C_MECH_CODE {
                r.0 == GSS_S_BAD_STATUS && r.1 == EINVAL && r.2@.len() == 0
            } else if text is None {
                r.0 == GSS_S_UNAVAILABLE && r.1 == 0 && r.2@.len() == 0
            } else if status_type == GSS_C_MECH_CODE && message_context != 0 {
                r.0 == GSS_S_FAILURE && r.1 == EINVAL && r.2@.len() == 0
            } else {
                r.0 == GSS_S_COMPLETE && r.1 == 0 && r.2@ == text->0
            }
        }),
{
    if status_type == GSS_C_GSS_CODE {
        match saved {
            Some(st) => {
                if st.major_status == status_value as u64 && !st.major_status_string.is_empty() {
                    return (GSS_S_COMPLETE, 0, octets::copy(st.major_status_string.as_slice()));
                }
            },
            None => {},
        }
        (GSS_S_UNAVAILABLE, 0, Vec::new())
    } else if status_type == GSS_C_MECH_CODE {
        match saved {
            Some(st) => {
                if st.minor_status == status_value as u64 && !st.minor_status_string.is_empty() {
                    if message_context != 0 {
                        return (GSS_S_FAILURE, EINVAL as u32, Vec::new());
                    }
                    return (GSS_S_COMPLETE, 0, octets::copy(st.minor_status_string.as_slice()));
                }
            },
            None => {},
        }
        (GSS_S_UNAVAILABLE, 0, Vec::new())
    } else {
        (GSS_S_BAD_STATUS, EINVAL as u32, Vec::new())
    }
}

// ---- names ----

/// Build a name from a display buffer and a name-type OID.
pub fn import_name(value: &[u8], name_type: &[u8]) -> (r: GssxName)
    ensures
        r.display_name@ == value@,
        r.name_type@ == name_type@,
        r.exported_name@.len() == 0,
        r.exported_composite_name@.len() == 0,
        r.name_attributes@.len() == 0,
        r.extensions@.len() == 0,
{
    GssxName {
        display_name: Opaque::from_slice(value),
        name_type: Opaque::from_slice(name_type),
        exported_name: Opaque::default(),
        exported_composite_name: Opaque::default(),
        name_attributes: Vec::new(),
        extensions: Vec::new(),
    }
}

/// How a name is displayed: its display name and name type, or else its
/// exported form tagged as such. A name with neither cannot be displayed.
pub open spec fn displayed(n: GssxName) -> Option<(Seq<u8>, Seq<u8>)> {
    if n.display_name@.len() > 0 {
        Some((n.display_name@, n.name_type@))
    } else if n.exported_name@.len() > 0 {
        Some((n.exported_name@, NT_EXPORT_NAME_OID@))
    } else {
        None
    }
}

/// A name once it was displayed: it has the display name and the name type that it
/// was displayed with, and nothing else of it has changed. One that cannot be
/// displayed has not changed at all.
pub open spec fn after_display(before: GssxName, after: GssxName) -> bool {
    &&& match displayed(before) {
        None => after == before,
        Some((d, t)) => after.display_name@ == d && after.name_type@ == t,
    }
    &&& after.exported_name == before.exported_name
    &&& after.exported_composite_name == before.exported_composite_name
    &&& after.name_attributes == before.name_attributes
    &&& after.extensions == before.extensions
}

/// Display a name, as `(major, minor, display bytes, name-type bytes)`. A name
/// that only has an exported form keeps it as its display name from then on.
pub fn display_name(in_name: &mut GssxName) -> (r: (u32, u32, Vec<u8>, Vec<u8>))
    ensures
        r.1 == 0,
        match displayed(*old(in_name)) {
            None => {
                &&& r.0 == GSS_S_BAD_NAME
                &&& r.2@.len() == 0 && r.3@.len() == 0
            },
            Some((d, t)) => {
                &&& r.0 == GSS_S_COMPLETE
                &&& r.2@ == d && r.3@ == t
            },
        },
        after_display(*old(in_name), *final(in_name)),
        displayed(*final(in_name)) == displayed(*old(in_name)),
{
    if in_name.display_name.is_empty() {
        if in_name.exported_name.is_empty() {
            return (GSS_S_BAD_NAME, 0, Vec::new(), Vec::new());
        }
        let tag = NT_EXPORT_NAME_OID;
        let imported = import_name(in_name.exported_name.as_slice(), tag.as_slice());
        in_name.display_name = imported.display_name;
        in_name.name_type = imported.name_type;
    }
    (
        GSS_S_COMPLETE,
        0,
        octets::copy(in_name.display_name.as_slice()),
        octets::copy(in_name.name_type.as_slice()),
    )
}

/// Ask the daemon to canonicalize a name.
pub fn canonicalize_name_arg(input: &GssxName, mech: &[u8]) -> (r: ArgImportAndCanonName)
    ensures
        r.call_ctx.blank(),
        r.input_name.tree() == input.tree(),
        r.mech@ == mech@,
        r.name_attributes@.len() == 0,
        r.options@.len() == 0,
{
    ArgImportAndCanonName {
        call_ctx: GssxCallCtx::default(),
        input_name: input.clone(),
        mech: Opaque::from_slice(mech),
        name_attributes: Vec::new(),
        options: Vec::new(),
    }
}

/// The failure, if any, that a reply reports: a failed call is
/// `GSS_S_FAILURE` with its errno, and a non-zero major status is the daemon's.
pub open spec fn failure(reply: Result<GssxStatus, GpmError>) -> Option<(u32, u32)> {
    match reply {
        Err(e) => Some((GSS_S_FAILURE, e.number() as u32)),
        Ok(s) => if s.major_status != 0 {
            Some((s.major_status as u32, s.minor_status as u32))
        } else {
            None
        },
    }
}

/// The saved status after a reply: the status of a reply that reports a
/// failure, and otherwise what it was.
pub open spec fn saved_after(
    before: Option<GssxStatus>,
    after: Option<GssxStatus>,
    reply: Result<GssxStatus, GpmError>,
) -> bool {
    match reply {
        Ok(s) => if s.major_status != 0 {
            after matches Some(kept) && kept.tree() == s.tree()
        } else {
            after == before
        },
        Err(_) => after == before,
    }
}

/// The failure that a status reports, which is then saved.
fn reported(saved: &mut Option<GssxStatus>, status: &GssxStatus) -> (r: Option<(u32, u32)>)
    ensures
        r == failure(Ok(*status)),
        saved_after(*old(saved), *final(saved), Ok(*status)),
{
    if status.major_status != 0 {
        save_status(saved, status);
        Some((status.major_status as u32, status.minor_status as u32))
    } else {
        None
    }
}

/// The canonical name from the daemon's reply.
pub fn canonicalize_name(
    saved: &mut Option<GssxStatus>,
    reply: Result<ResImportAndCanonName, GpmError>,
) -> (r: (u32, u32, Option<GssxName>))
    ensures
        ({
            let status = match reply {
                Ok(res) => Ok(res.status),
                Err(e) => Err(e),
            };
            &&& saved_after(*old(saved), *final(saved), status)
            &&& match failure(status) {
                Some((maj, min)) => r == (maj, min, None::<GssxName>),
                None => r == (GSS_S_COMPLETE, 0u32, reply->Ok_0.output_name),
            }
        }),
{
    let res = match reply {
        Ok(res) => res,
        Err(e) => {
            return (GSS_S_FAILURE, e.errno() as u32, None);
        },
    };
    match reported(saved, &res.status) {
        Some((maj, min)) => (maj, min, None),
        None => (GSS_S_COMPLETE, 0, res.output_name),
    }
}

/// Ask the daemon for the local name of a name.
pub fn localname_arg(input: &GssxName, mech: &[u8]) -> (r: ArgImportAndCanonName)
    ensures
        r.call_ctx.blank(),
        r.input_name.tree() == input.tree(),
        r.mech@ == mech@,
        r.name_attributes@.len() == 0,
        r.options@.len() == 1,
        r.options@[0].option@ == LOCALNAME_OPTION@,
        r.options@[0].value@.len() == 0,
{
    let key = LOCALNAME_OPTION;
    let none: Vec<u8> = Vec::new();
    let mut options: Vec<GssxOption> = Vec::new();
    options.push(option(key.as_slice(), none.as_slice()));
    ArgImportAndCanonName {
        call_ctx: GssxCallCtx::default(),
        input_name: input.clone(),
        mech: Opaque::from_slice(mech),
        name_attributes: Vec::new(),
        options,
    }
}

/// The local name from the daemon's reply; `ENOTSUP` when the reply has none.
pub fn localname(
    saved: &mut Option<GssxStatus>,
    reply: Result<ResImportAndCanonName, GpmError>,
) -> (r: (u32, u32, Option<Vec<u8>>))
    ensures
        ({
            let status = match reply {
                Ok(res) => Ok(res.status),
                Err(e) => Err(e),
            };
            &&& saved_after(*old(saved), *final(saved), status)
            &&& match failure(status) {
                Some((maj, min)) => r.0 == maj && r.1 == min && r.2 is None,
                None => match option_value(reply->Ok_0.options@, LOCALNAME_OPTION@) {
                    Some(v) => {
                        &&& r.0 == GSS_S_COMPLETE && r.1 == 0
                        &&& r.2 matches Some(name) && name@ == v
                    },
                    None => r.0 == GSS_S_FAILURE && r.1 == ENOTSUP && r.2 is None,
                },
            }
        }),
{
    let res = match reply {
        Ok(res) => res,
        Err(e) => {
            return (GSS_S_FAILURE, e.errno() as u32, None);
        },
    };
    match reported(saved, &res.status) {
        Some((maj, min)) => {
            return (maj, min, None);
        },
        None => {},
    }
    let key = LOCALNAME_OPTION;
    match find_option(res.options.as_slice(), key.as_slice()) {
        Some(v) => (GSS_S_COMPLETE, 0, Some(octets::copy(v.as_slice()))),
        None => (GSS_S_FAILURE, ENOTSUP as u32, None),
    }
}

/// Result of [`inquire_name`].
pub struct InquireName {
    pub name_is_mn: bool,
    pub name_type: Vec<u8>,
    pub attrs: Vec<Vec<u8>>,
}

/// Whether a name is a mechanism name (it has an exported form), its name type,
/// and the keys of its attributes.
pub fn inquire_name(name: &GssxName) -> (r: InquireName)
    ensures
        r.name_is_mn == (name.exported_name@.len() > 0),
        r.name_type@ == name.name_type@,
        octets::views(r.attrs@) == Seq::new(
            name.name_attributes@.len(),
            |i: int| name.name_attributes@[i].attr@,
        ),
{
    let mut attrs: Vec<Vec<u8>> = Vec::new();
    let mut i: usize = 0;
    while i < name.name_attributes.len()
        invariant
            i <= name.name_attributes@.len(),
            attrs@.len() == i,
            forall|j: int|
                0 <= j < i ==> (#[trigger] attrs@[j])@ == name.name_attributes@[j].attr@,
        decreases name.name_attributes@.len() - i,
    {
        attrs.push(octets::copy(name.name_attributes[i].attr.as_slice()));
        i += 1;
    }
    assert(octets::views(attrs@) =~= Seq::new(
        name.name_attributes@.len(),
        |i: int| name.name_attributes@[i].attr@,
    ));
    InquireName {
        name_is_mn: !name.exported_name.is_empty(),
        name_type: octets::copy(name.name_type.as_slice()),
        attrs,
    }
}

/// Compare two names as they are displayed, as `(major, minor, answer)`.
///
/// The answer for two names that can be displayed is false only where the
/// displayed bytes agree and the name types do not; names that display
/// differently are answered true.
pub fn compare_name(name1: &GssxName, name2: &GssxName) -> (r: (u32, u32, bool))
    ensures
        r == match (displayed(*name1), displayed(*name2)) {
            (Some((b1, t1)), Some((b2, t2))) => (GSS_S_COMPLETE, 0u32, !(b1 == b2 && t1 != t2)),
            _ => (GSS_S_BAD_NAME, 0u32, false),
        },
{
    let mut n1 = name1.clone();
    let mut n2 = name2.clone();
    proof {
        reveal(<GssxName as Xdr>::tree);
    }
    let (maj1, min1, b1, t1) = display_name(&mut n1);
    if maj1 != GSS_S_COMPLETE {
        return (maj1, min1, false);
    }
    let (maj2, min2, b2, t2) = display_name(&mut n2);
    if maj2 != GSS_S_COMPLETE {
        return (maj2, min2, false);
    }
    let alike = octets::same(b1.as_slice(), b2.as_slice());
    let differ = if alike {
        octets::same(t1.as_slice(), t2.as_slice())
    } else {
        true
    };
    (GSS_S_COMPLETE, 0, differ)
}

// ---- credentials ----

/// Result of [`acquire_cred`].
pub struct AcquireCred {
    pub major: u32,
    pub minor: u32,
    pub cred: Option<GssxCred>,
    pub time_rec: u32,
}

/// Ask the daemon for a credential, possibly one that impersonates the desired
/// name.
pub fn acquire_cred_arg(
    in_cred: Option<&GssxCred>,
    desired_name: Option<&GssxName>,
    time_req: u32,
    desired_mechs: &[Vec<u8>],
    cred_usage: i32,
    impersonate: bool,
) -> (r: ArgAcquireCred)
    ensures
        r.call_ctx.blank(),
        xdr::optional_tree(r.input_cred_handle) == ref_tree(in_cred),
        !r.add_cred_to_input_handle,
        xdr::optional_tree(r.desired_name) == ref_tree(desired_name),
        r.time_req == time_req,
        r.desired_mechs@.len() == desired_mechs@.len(),
        forall|i: int|
            0 <= i < desired_mechs@.len() ==> (#[trigger] r.desired_mechs@[i])@
                == desired_mechs@[i]@,
        r.cred_usage == usage_on_wire(cred_usage),
        r.initiator_time_req == 0,
        r.acceptor_time_req == 0,
        if impersonate {
            &&& r.options@.len() == 1
            &&& r.options@[0].option@ == ACQUIRE_TYPE_OPTION@
            &&& r.options@[0].value@ == ACQUIRE_IMPERSONATE_NAME@
        } else {
            r.options@.len() == 0
        },
{
    let mut options: Vec<GssxOption> = Vec::new();
    if impersonate {
        let key = ACQUIRE_TYPE_OPTION;
        let value = ACQUIRE_IMPERSONATE_NAME;
        options.push(option(key.as_slice(), value.as_slice()));
    }
    let mut mechs: Vec<Opaque> = Vec::new();
    let mut i: usize = 0;
    while i < desired_mechs.len()
        invariant
            i <= desired_mechs@.len(),
            mechs@.len() == i,
            forall|j: int| 0 <= j < i ==> (#[trigger] mechs@[j])@ == desired_mechs@[j]@,
        decreases desired_mechs@.len() - i,
    {
        mechs.push(Opaque::from_slice(desired_mechs[i].as_slice()));
        i += 1;
    }
    ArgAcquireCred {
        call_ctx: GssxCallCtx::default(),
        input_cred_handle: in_cred.cloned(),
        add_cred_to_input_handle: false,
        desired_name: desired_name.cloned(),
        time_req: time_req as u64,
        desired_mechs: mechs,
        cred_usage: cred_usage_to_gssx(cred_usage),
        initiator_time_req: 0,
        acceptor_time_req: 0,
        options,
    }
}

/// The lifetime of a credential: the shorter of the two lifetimes of its first
/// element, as 32 bits, and 0 when it has no element.
pub open spec fn first_lifetime(cred: Option<GssxCred>) -> u32 {
    match cred {
        Some(c) => if c.elements@.len() > 0 {
            let e = c.elements@[0];
            if e.initiator_time_rec <= e.acceptor_time_rec {
                e.initiator_time_rec as u32
            } else {
                e.acceptor_time_rec as u32
            }
        } else {
            0
        },
        None => 0,
    }
}

/// The credential from the daemon's reply.
pub fn acquire_cred(
    saved: &mut Option<GssxStatus>,
    reply: Result<ResAcquireCred, GpmError>,
) -> (r: AcquireCred)
    ensures
        ({
            let status = match reply {
                Ok(res) => Ok(res.status),
                Err(e) => Err(e),
            };
            &&& saved_after(*old(saved), *final(saved), status)
            &&& match failure(status) {
                Some((maj, min)) => {
                    &&& r.major == maj && r.minor == min
                    &&& r.cred is None && r.time_rec == 0
                },
                None => {
                    &&& r.major == GSS_S_COMPLETE && r.minor == 0
                    &&& r.cred == reply->Ok_0.output_cred_handle
                    &&& r.time_rec == first_lifetime(reply->Ok_0.output_cred_handle)
                },
            }
        }),
{
    let res = match reply {
        Ok(res) => res,
        Err(e) => {
            return AcquireCred {
                major: GSS_S_FAILURE,
                minor: e.errno() as u32,
                cred: None,
                time_rec: 0,
            };
        },
    };
    match reported(saved, &res.status) {
        Some((maj, min)) => {
            return AcquireCred { major: maj, minor: min, cred: None, time_rec: 0 };
        },
        None => {},
    }
    let mut time_rec: u32 = 0;
    match &res.output_cred_handle {
        Some(c) => {
            if c.elements.len() > 0 {
                let e = &c.elements[0];
                time_rec = if e.initiator_time_rec <= e.acceptor_time_rec {
                    e.initiator_time_rec as u32
                } else {
                    e.acceptor_time_rec as u32
                };
            }
        },
        None => {},
    }
    AcquireCred { major: GSS_S_COMPLETE, minor: 0, cred: res.output_cred_handle, time_rec }
}

/// Result of [`inquire_cred`].
pub struct InquireCred {
    pub major: u32,
    pub minor: u32,
    pub name: Option<GssxName>,
    pub lifetime: u32,
    pub usage: i32,
    pub mechs: Vec<Vec<u8>>,
}

/// A lifetime that an element contributes: that of each usage it has, unless it
/// is zero, as 32 bits.
pub open spec fn contributes(e: GssxCredElement, life: u32) -> bool {
    ||| (e.cred_usage == GSSX_C_INITIATE || e.cred_usage == GSSX_C_BOTH) && e.initiator_time_rec
        != 0 && life == e.initiator_time_rec as u32
    ||| (e.cred_usage == GSSX_C_ACCEPT || e.cred_usage == GSSX_C_BOTH) && e.acceptor_time_rec != 0
        && life == e.acceptor_time_rec as u32
}

/// Some element has a usage.
pub open spec fn some_usage(elements: Seq<GssxCredElement>, usage: i32) -> bool {
    exists|i: int| 0 <= i < elements.len() && (#[trigger] elements[i]).cred_usage == usage
}

/// The usage of a credential with some elements: both where one is for both or
/// they cover both, and -1 where none has a known usage.
pub open spec fn overall_usage(elements: Seq<GssxCredElement>) -> i32 {
    let i = some_usage(elements, GSSX_C_INITIATE);
    let a = some_usage(elements, GSSX_C_ACCEPT);
    if some_usage(elements, GSSX_C_BOTH) || (i && a) {
        GSS_C_BOTH
    } else if i {
        GSS_C_INITIATE
    } else if a {
        GSS_C_ACCEPT
    } else {
        -1i32
    }
}

/// The lifetime of a credential with some elements is the least of those that
/// the elements contribute, and indefinite where they contribute none.
pub open spec fn is_overall_lifetime(elements: Seq<GssxCredElement>, life: u32) -> bool {
    &&& forall|i: int, l: u32|
        0 <= i < elements.len() && #[trigger] contributes(elements[i], l) ==> life <= l
    &&& life == GSS_C_INDEFINITE || exists|i: int|
        0 <= i < elements.len() && #[trigger] contributes(elements[i], life)
}

proof fn lemma_usage_step(elements: Seq<GssxCredElement>, e: GssxCredElement, usage: i32)
    ensures
        some_usage(elements.push(e), usage) == (some_usage(elements, usage) || e.cred_usage
            == usage),
{
    let more = elements.push(e);
    if some_usage(elements, usage) {
        let i = choose|i: int|
            0 <= i < elements.len() && (#[trigger] elements[i]).cred_usage == usage;
        assert(more[i].cred_usage == usage);
    }
    if e.cred_usage == usage {
        assert(more[elements.len() as int].cred_usage == usage);
    }
    if some_usage(more, usage) {
        let i = choose|i: int| 0 <= i < more.len() && (#[trigger] more[i]).cred_usage == usage;
        if i < elements.len() {
            assert(elements[i].cred_usage == usage);
        }
    }
}

/// The smaller of a lifetime and a time that may be absent (zero).
fn shorten(life: u32, time: u64) -> (r: u32)
    ensures
        r == (if time != 0 && (time as u32) < life {
            time as u32
        } else {
            life
        }),
{
    if time != 0 && (time as u32) < life {
        time as u32
    } else {
        life
    }
}

proof fn lemma_lifetime_step(
    elements: Seq<GssxCredElement>,
    e: GssxCredElement,
    life: u32,
    next: u32,
)
    requires
        is_overall_lifetime(elements, life),
        next <= life,
        forall|l: u32| #[trigger] contributes(e, l) ==> next <= l,
        next == life || contributes(e, next),
    ensures
        is_overall_lifetime(elements.push(e), next),
{
    let more = elements.push(e);
    assert forall|i: int, l: u32| 0 <= i < more.len() && #[trigger] contributes(more[i], l) implies
        next <= l by {
        if i < elements.len() {
            assert(contributes(elements[i], l));
        }
    }
    if next == life && life != GSS_C_INDEFINITE {
        let i = choose|i: int| 0 <= i < elements.len() && #[trigger] contributes(elements[i], life);
        assert(contributes(more[i], next));
    } else if next != GSS_C_INDEFINITE {
        assert(contributes(more[elements.len() as int], next));
    }
}

/// What is known of a credential from its elements.
pub open spec fn inquired(cred: GssxCred, r: InquireCred) -> bool {
    &&& r.minor == 0
    &&& if cred.elements@.len() == 0 {
        &&& r.major == GSS_S_FAILURE
        &&& r.name is None && r.lifetime == 0 && r.usage == 0 && r.mechs@.len() == 0
    } else {
        &&& r.major == GSS_S_COMPLETE
        &&& r.name matches Some(n) && n.tree() == cred.desired_name.tree()
        &&& is_overall_lifetime(cred.elements@, r.lifetime)
        &&& r.usage == overall_usage(cred.elements@)
        &&& octets::views(r.mechs@) == Seq::new(
            cred.elements@.len(),
            |i: int| cred.elements@[i].mech@,
        )
    }
}

/// The name, lifetime, usage and mechanisms of a credential, from its elements.
/// A credential without elements is a failure.
pub fn inquire_cred(cred: &GssxCred) -> (r: InquireCred)
    ensures
        inquired(*cred, r),
{
    if cred.elements.len() == 0 {
        return InquireCred {
            major: GSS_S_FAILURE,
            minor: 0,
            name: None,
            lifetime: 0,
            usage: 0,
            mechs: Vec::new(),
        };
    }
    let mut life: u32 = GSS_C_INDEFINITE;
    let mut cu: i32 = -1;
    let mut mechs: Vec<Vec<u8>> = Vec::new();
    let mut i: usize = 0;
    while i < cred.elements.len()
        invariant
            i <= cred.elements@.len(),
            mechs@.len() == i,
            forall|j: int| 0 <= j < i ==> (#[trigger] mechs@[j])@ == cred.elements@[j].mech@,
            is_overall_lifetime(cred.elements@.take(i as int), life),
            cu == overall_usage(cred.elements@.take(i as int)),
        decreases cred.elements@.len() - i,
    {
        let e = &cred.elements[i];
        let ghost seen = cred.elements@.take(i as int);
        let ghost before = life;
        proof {
            assert(cred.elements@.take(i + 1) =~= seen.push(*e));
            lemma_usage_step(seen, *e, GSSX_C_INITIATE);
            lemma_usage_step(seen, *e, GSSX_C_ACCEPT);
            lemma_usage_step(seen, *e, GSSX_C_BOTH);
        }
        if e.cred_usage == GSSX_C_INITIATE {
            life = shorten(life, e.initiator_time_rec);
            cu = if cu == GSS_C_BOTH || cu == GSS_C_ACCEPT {
                GSS_C_BOTH
            } else {
                GSS_C_INITIATE
            };
        } else if e.cred_usage == GSSX_C_ACCEPT {
            life = shorten(life, e.acceptor_time_rec);
            cu = if cu == GSS_C_BOTH || cu == GSS_C_INITIATE {
                GSS_C_BOTH
            } else {
                GSS_C_ACCEPT
            };
        } else if e.cred_usage == GSSX_C_BOTH {
            life = shorten(life, e.initiator_time_rec);
            life = shorten(life, e.acceptor_time_rec);
            cu = GSS_C_BOTH;
        }
        proof {
            lemma_lifetime_step(seen, *e, before, life);
        }
        mechs.push(octets::copy(e.mech.as_slice()));
        i += 1;
    }
    assert(cred.elements@.take(i as int) =~= cred.elements@);
    assert(octets::views(mechs@) =~= Seq::new(
        cred.elements@.len(),
        |i: int| cred.elements@[i].mech@,
    ));
    InquireCred {
        major: GSS_S_COMPLETE,
        minor: 0,
        name: Some(cred.desired_name.clone()),
        lifetime: life,
        usage: cu,
        mechs,
    }
}

/// Result of [`inquire_cred_by_mech`].
pub struct InquireCredByMech {
    pub major: u32,
    pub minor: u32,
    pub name: Option<GssxName>,
    pub initiator_lifetime: u32,
    pub acceptor_lifetime: u32,
    pub usage: i32,
}

/// The first element for a mechanism.
pub open spec fn element_for(elements: Seq<GssxCredElement>, mech: Seq<u8>) -> Option<
    GssxCredElement,
>
    decreases elements.len(),
{
    if elements.len() == 0 {
        None
    } else if elements[0].mech@ == mech {
        Some(elements[0])
    } else {
        element_for(elements.skip(1), mech)
    }
}

/// What is known of a credential for one mechanism.
pub open spec fn inquired_by_mech(
    cred: GssxCred,
    mech_type: Seq<u8>,
    r: InquireCredByMech,
) -> bool {
    &&& r.minor == 0
    &&& match element_for(cred.elements@, mech_type) {
        None => {
            &&& r.major == GSS_S_FAILURE && r.name is None
            &&& r.initiator_lifetime == 0 && r.acceptor_lifetime == 0 && r.usage == 0
        },
        Some(e) => {
            let initiates = e.cred_usage == GSSX_C_INITIATE || e.cred_usage == GSSX_C_BOTH;
            let accepts = e.cred_usage == GSSX_C_ACCEPT || e.cred_usage == GSSX_C_BOTH;
            &&& r.major == GSS_S_COMPLETE
            &&& r.name matches Some(n) && n.tree() == e.mn.tree()
            &&& r.initiator_lifetime == if initiates {
                e.initiator_time_rec as u32
            } else {
                0
            }
            &&& r.acceptor_lifetime == if accepts {
                e.acceptor_time_rec as u32
            } else {
                0
            }
            &&& r.usage == if initiates && !accepts {
                GSS_C_INITIATE
            } else if accepts && !initiates {
                GSS_C_ACCEPT
            } else {
                GSS_C_BOTH
            }
        },
    }
}

/// The name, lifetimes and usage of a credential for one mechanism. A
/// credential without an element for it is a failure. A lifetime is given only
/// for a usage that the element has.
pub fn inquire_cred_by_mech(cred: &GssxCred, mech_type: &[u8]) -> (r: InquireCredByMech)
    ensures
        inquired_by_mech(*cred, mech_type@, r),
{
    let mut i: usize = 0;
    assert(cred.elements@.skip(0) =~= cred.elements@);
    while i < cred.elements.len()
        invariant
            i <= cred.elements@.len(),
            element_for(cred.elements@, mech_type@) == element_for(
                cred.elements@.skip(i as int),
                mech_type@,
            ),
        decreases cred.elements@.len() - i,
    {
        let e = &cred.elements[i];
        assert(cred.elements@.skip(i as int)[0] == *e);
        if octets::same(e.mech.as_slice(), mech_type) {
            let initiates = e.cred_usage == GSSX_C_INITIATE || e.cred_usage == GSSX_C_BOTH;
            let accepts = e.cred_usage == GSSX_C_ACCEPT || e.cred_usage == GSSX_C_BOTH;
            return InquireCredByMech {
                major: GSS_S_COMPLETE,
                minor: 0,
                name: Some(e.mn.clone()),
                initiator_lifetime: if initiates {
                    e.initiator_time_rec as u32
                } else {
                    0
                },
                acceptor_lifetime: if accepts {
                    e.acceptor_time_rec as u32
                } else {
                    0
                },
                usage: if initiates && !accepts {
                    GSS_C_INITIATE
                } else if accepts && !initiates {
                    GSS_C_ACCEPT
                } else {
                    GSS_C_BOTH
                },
            };
        }
        assert(cred.elements@.skip(i as int).skip(1) =~= cred.elements@.skip(i + 1));
        i += 1;
    }
    InquireCredByMech {
        major: GSS_S_FAILURE,
        minor: 0,
        name: None,
        initiator_lifetime: 0,
        acceptor_lifetime: 0,
        usage: 0,
    }
}

// ---- context establishment ----

/// Result of [`init_sec_context`].
pub struct InitSecContext {
    pub major: u32,
    pub minor: u32,
    pub context: Option<GssxCtx>,
    pub output_token: Option<Vec<u8>>,
    pub actual_mech: Vec<u8>,
    pub out_cred: Option<GssxCred>,
}

/// Ask the daemon for a step of context initiation. Modified credentials are
/// always asked for.
pub fn init_sec_context_arg(
    cred: Option<&GssxCred>,
    context: Option<&GssxCtx>,
    target: Option<&GssxName>,
    mech: &[u8],
    req_flags: u32,
    time_req: u32,
    input_cb: Option<&GssxCb>,
    input_token: Option<&[u8]>,
) -> (r: ArgInitSecContext)
    ensures
        r.call_ctx.blank(),
        xdr::optional_tree(r.context_handle) == ref_tree(context),
        xdr::optional_tree(r.cred_handle) == ref_tree(cred),
        xdr::optional_tree(r.target_name) == ref_tree(target),
        r.mech_type@ == mech@,
        r.req_flags == req_flags,
        r.time_req == time_req,
        xdr::optional_tree(r.input_cb) == ref_tree(input_cb),
        match input_token {
            Some(t) => r.input_token matches Some(o) && o@ == t@,
            None => r.input_token is None,
        },
        r.options@.len() == 1,
        r.options@[0].option@ == CRED_SYNC_OPTION@,
        r.options@[0].value@ == CRED_SYNC_DEFAULT@,
{
    let key = CRED_SYNC_OPTION;
    let value = CRED_SYNC_DEFAULT;
    let mut options: Vec<GssxOption> = Vec::new();
    options.push(option(key.as_slice(), value.as_slice()));
    ArgInitSecContext {
        call_ctx: GssxCallCtx::default(),
        context_handle: context.cloned(),
        cred_handle: cred.cloned(),
        target_name: target.cloned(),
        mech_type: Opaque::from_slice(mech),
        req_flags: req_flags as u64,
        time_req: time_req as u64,
        input_cb: input_cb.cloned(),
        input_token: match input_token {
            Some(t) => Some(Opaque::from_slice(t)),
            None => None,
        },
        options,
    }
}

/// A major status that leaves a usable context: complete, or to be continued.
pub open spec fn keeps_context(major: u32) -> bool {
    major == GSS_S_COMPLETE || major == GSS_S_CONTINUE_NEEDED
}

/// The credential that bytes decode as, if they do.
pub open spec fn cred_from(b: Seq<u8>) -> Option<Tree> {
    match xdr::parse(GssxCred::shape(), b, 0).val {
        Ok(t) => Some(t),
        Err(_) => None,
    }
}

/// An optional credential is the one that a tree says.
pub open spec fn is_cred(cred: Option<GssxCred>, t: Option<Tree>) -> bool {
    match t {
        Some(t) => cred matches Some(c) && c.tree() == t,
        None => cred is None,
    }
}

/// An optional token is the opaque data in a reply.
pub open spec fn is_token(token: Option<Vec<u8>>, data: Option<GssxBuffer>) -> bool {
    match data {
        Some(d) => token matches Some(t) && t@ == d@,
        None => token is None,
    }
}

fn take_token(data: Option<GssxBuffer>) -> (r: Option<Vec<u8>>)
    ensures
        is_token(r, data),
{
    match data {
        Some(d) => Some(d.0),
        None => None,
    }
}

/// The outcome of a step of context initiation from the daemon's reply.
///
/// The status is saved whatever it is. The context and the token are handed out
/// only with a status that keeps the context; a modified credential, where the
/// reply carries one that decodes, is handed out in any case.
pub fn init_sec_context(
    saved: &mut Option<GssxStatus>,
    reply: Result<ResInitSecContext, GpmError>,
) -> (r: InitSecContext)
    ensures
        match reply {
            Err(e) => {
                &&& r.major == GSS_S_FAILURE && r.minor == e.number() as u32
                &&& r.context is None && r.output_token is None && r.actual_mech@.len() == 0
                &&& r.out_cred is None
                &&& *final(saved) matches Some(s) && internal_status(
                    s,
                    e.number() as u32,
                    vstd::utf8::encode_utf8(e.text()),
                )
            },
            Ok(res) => {
                let major = res.status.major_status as u32;
                &&& r.major == major && r.minor == res.status.minor_status as u32
                &&& *final(saved) matches Some(s) && s.tree() == res.status.tree()
                &&& r.actual_mech@ == res.status.mech@
                &&& keeps_context(major) ==> r.context == res.context_handle && is_token(
                    r.output_token,
                    res.output_token,
                )
                &&& !keeps_context(major) ==> r.context is None && r.output_token is None
                &&& is_cred(
                    r.out_cred,
                    match option_value(res.options@, CRED_SYNC_PAYLOAD@) {
                        Some(v) => cred_from(v),
                        None => None,
                    },
                )
            },
        },
{
    let res = match reply {
        Ok(res) => res,
        Err(e) => {
            let errno: u32 = e.errno() as u32;
            save_internal_status(saved, errno, e.message().as_str());
            return InitSecContext {
                major: GSS_S_FAILURE,
                minor: errno,
                context: None,
                output_token: None,
                actual_mech: Vec::new(),
                out_cred: None,
            };
        },
    };
    let actual_mech = octets::copy(res.status.mech.as_slice());
    let major: u32 = res.status.major_status as u32;
    let minor: u32 = res.status.minor_status as u32;
    save_status(saved, &res.status);
    let keep = major == GSS_S_COMPLETE || major == GSS_S_CONTINUE_NEEDED;
    let key = CRED_SYNC_PAYLOAD;
    let out_cred = match find_option(res.options.as_slice(), key.as_slice()) {
        Some(v) => decode_cred(v.as_slice()),
        None => None,
    };
    InitSecContext {
        major,
        minor,
        context: if keep {
            res.context_handle
        } else {
            None
        },
        output_token: if keep {
            take_token(res.output_token)
        } else {
            None
        },
        actual_mech,
        out_cred,
    }
}

/// Result of [`accept_sec_context`].
pub struct AcceptSecContext {
    pub major: u32,
    pub minor: u32,
    pub context: Option<GssxCtx>,
    pub src_name: Option<GssxName>,
    pub output_token: Option<Vec<u8>>,
    pub actual_mech: Vec<u8>,
    pub delegated_cred: Option<GssxCred>,
}

/// Ask the daemon for a step of context acceptance.
pub fn accept_sec_context_arg(
    context: Option<&GssxCtx>,
    acceptor_cred: Option<&GssxCred>,
    input_token: &[u8],
    input_cb: Option<&GssxCb>,
    want_deleg: bool,
) -> (r: ArgAcceptSecContext)
    ensures
        r.call_ctx.blank(),
        xdr::optional_tree(r.context_handle) == ref_tree(context),
        xdr::optional_tree(r.cred_handle) == ref_tree(acceptor_cred),
        r.input_token@ == input_token@,
        xdr::optional_tree(r.input_cb) == ref_tree(input_cb),
        r.ret_deleg_cred == want_deleg,
        r.options@.len() == 0,
{
    ArgAcceptSecContext {
        call_ctx: GssxCallCtx::default(),
        context_handle: context.cloned(),
        cred_handle: acceptor_cred.cloned(),
        input_token: Opaque::from_slice(input_token),
        input_cb: input_cb.cloned(),
        ret_deleg_cred: want_deleg,
        options: Vec::new(),
    }
}

fn refused(major: u32, minor: u32, actual_mech: Vec<u8>) -> (r: AcceptSecContext)
    ensures
        r.major == major && r.minor == minor,
        r.actual_mech == actual_mech,
        r.context is None && r.src_name is None,
        r.output_token is None && r.delegated_cred is None,
{
    AcceptSecContext {
        major,
        minor,
        context: None,
        src_name: None,
        output_token: None,
        actual_mech,
        delegated_cred: None,
    }
}

/// The outcome of a step of context acceptance from the daemon's reply.
///
/// A status other than 0 is handed on with the mechanism and nothing else. A
/// success without a context is `EINVAL`.
pub fn accept_sec_context(
    saved: &mut Option<GssxStatus>,
    reply: Result<ResAcceptSecContext, GpmError>,
) -> (r: AcceptSecContext)
    ensures
        ({
            let status = match reply {
                Ok(res) => Ok(res.status),
                Err(e) => Err(e),
            };
            &&& saved_after(*old(saved), *final(saved), status)
            &&& match failure(status) {
                Some((maj, min)) => {
                    &&& r.major == maj && r.minor == min
                    &&& r.context is None && r.src_name is None
                    &&& r.output_token is None && r.delegated_cred is None
                    &&& match reply {
                        Ok(res) => r.actual_mech@ == res.status.mech@,
                        Err(_) => r.actual_mech@.len() == 0,
                    }
                },
                None => match reply->Ok_0.context_handle {
                    None => {
                        &&& r.major == GSS_S_FAILURE && r.minor == EINVAL
                        &&& r.context is None && r.src_name is None && r.actual_mech@.len() == 0
                        &&& r.output_token is None && r.delegated_cred is None
                    },
                    Some(ctx) => {
                        let res = reply->Ok_0;
                        &&& r.major == GSS_S_COMPLETE && r.minor == 0
                        &&& r.context == Some(ctx)
                        &&& r.src_name matches Some(n) && n.tree() == ctx.src_name.tree()
                        &&& is_token(r.output_token, res.output_token)
                        &&& r.actual_mech@ == res.status.mech@
                        &&& r.delegated_cred == res.delegated_cred_handle
                    },
                },
            }
        }),
{
    let res = match reply {
        Ok(res) => res,
        Err(e) => {
            return refused(GSS_S_FAILURE, e.errno() as u32, Vec::new());
        },
    };
    let actual_mech = octets::copy(res.status.mech.as_slice());
    match reported(saved, &res.status) {
        Some((maj, min)) => {
            return refused(maj, min, actual_mech);
        },
        None => {},
    }
    let ctx = match res.context_handle {
        Some(c) => c,
        None => {
            return refused(GSS_S_FAILURE, EINVAL as u32, Vec::new());
        },
    };
    let src_name = Some(ctx.src_name.clone());
    AcceptSecContext {
        major: GSS_S_COMPLETE,
        minor: 0,
        context: Some(ctx),
        src_name,
        output_token: take_token(res.output_token),
        actual_mech,
        delegated_cred: res.delegated_cred_handle,
    }
}

// ---- context inquiry and release ----

/// Result of [`inquire_context`].
pub struct InquireContext {
    pub src_name: GssxName,
    pub targ_name: GssxName,
    pub lifetime: u32,
    pub mech: Vec<u8>,
    pub ctx_flags: u32,
    pub locally_initiated: bool,
    pub open: bool,
}

/// Read the attributes of a context.
pub fn inquire_context(ctx: &GssxCtx) -> (r: InquireContext)
    ensures
        r.src_name.tree() == ctx.src_name.tree(),
        r.targ_name.tree() == ctx.targ_name.tree(),
        r.lifetime == ctx.lifetime as u32,
        r.mech@ == ctx.mech@,
        r.ctx_flags == ctx.ctx_flags as u32,
        r.locally_initiated == ctx.locally_initiated,
        r.open == ctx.open,
{
    InquireContext {
        src_name: ctx.src_name.clone(),
        targ_name: ctx.targ_name.clone(),
        lifetime: ctx.lifetime as u32,
        mech: octets::copy(ctx.mech.as_slice()),
        ctx_flags: ctx.ctx_flags as u32,
        locally_initiated: ctx.locally_initiated,
        open: ctx.open,
    }
}

/// The request to release a credential, when the daemon holds anything for it.
pub fn release_cred_arg(cred: &GssxCred) -> (r: Option<ArgReleaseHandle>)
    ensures
        r is Some <==> cred.needs_release,
        r matches Some(arg) ==> arg.call_ctx.blank() && (arg.cred_handle matches GssxHandle::Cred(c)
            && c.tree() == cred.tree()),
{
    if !cred.needs_release {
        return None;
    }
    Some(
        ArgReleaseHandle {
            call_ctx: GssxCallCtx::default(),
            cred_handle: GssxHandle::Cred(cred.clone()),
        },
    )
}

/// The request to release a context, when the daemon holds anything for it.
pub fn delete_sec_context_arg(ctx: &GssxCtx) -> (r: Option<ArgReleaseHandle>)
    ensures
        r is Some <==> ctx.needs_release,
        r matches Some(arg) ==> {
            &&& arg.call_ctx.blank()
            &&& arg.cred_handle matches GssxHandle::SecCtx(c) && c.tree() == ctx.tree()
        },
{
    if !ctx.needs_release {
        return None;
    }
    Some(
        ArgReleaseHandle {
            call_ctx: GssxCallCtx::default(),
            cred_handle: GssxHandle::SecCtx(ctx.clone()),
        },
    )
}

/// The status of a release, from the daemon's reply, or without one when
/// nothing had to be released.
fn released(
    saved: &mut Option<GssxStatus>,
    reply: Option<Result<ResReleaseHandle, GpmError>>,
) -> (r: (u32, u32))
    ensures
        match reply {
            None => r == (GSS_S_COMPLETE, 0u32) && *final(saved) == *old(saved),
            Some(reply) => {
                let status = match reply {
                    Ok(res) => Ok(res.status),
                    Err(e) => Err(e),
                };
                &&& saved_after(*old(saved), *final(saved), status)
                &&& r == match failure(status) {
                    Some(f) => f,
                    None => (GSS_S_COMPLETE, 0u32),
                }
            },
        },
{
    match reply {
        None => (GSS_S_COMPLETE, 0),
        Some(Err(e)) => (GSS_S_FAILURE, e.errno() as u32),
        Some(Ok(res)) => match reported(saved, &res.status) {
            Some(f) => f,
            None => (GSS_S_COMPLETE, 0),
        },
    }
}

/// The status of releasing a credential; without a request there is no reply,
/// and that is a success.
pub fn release_cred(
    saved: &mut Option<GssxStatus>,
    reply: Option<Result<ResReleaseHandle, GpmError>>,
) -> (r: (u32, u32))
    ensures
        match reply {
            None => r == (GSS_S_COMPLETE, 0u32) && *final(saved) == *old(saved),
            Some(reply) => {
                let status = match reply {
                    Ok(res) => Ok(res.status),
                    Err(e) => Err(e),
                };
                &&& saved_after(*old(saved), *final(saved), status)
                &&& r == match failure(status) {
                    Some(f) => f,
                    None => (GSS_S_COMPLETE, 0u32),
                }
            },
        },
{
    released(saved, reply)
}

/// The status of releasing a context, likewise.
pub fn delete_sec_context(
    saved: &mut Option<GssxStatus>,
    reply: Option<Result<ResReleaseHandle, GpmError>>,
) -> (r: (u32, u32))
    ensures
        match reply {
            None => r == (GSS_S_COMPLETE, 0u32) && *final(saved) == *old(saved),
            Some(reply) => {
                let status = match reply {
                    Ok(res) => Ok(res.status),
                    Err(e) => Err(e),
                };
                &&& saved_after(*old(saved), *final(saved), status)
                &&& r == match failure(status) {
                    Some(f) => f,
                    None => (GSS_S_COMPLETE, 0u32),
                }
            },
        },
{
    released(saved, reply)
}

// ---- mechanism inquiry ----

/// Ask the daemon for its mechanisms.
pub fn indicate_mechs_arg() -> (r: ArgIndicateMechs)
    ensures
        r.blank(),
{
    ArgIndicateMechs::default()
}

/// The mechanisms from the daemon's reply: the whole result, whatever its
/// status, and an empty one for a failed call.
pub fn indicate_mechs(
    saved: &mut Option<GssxStatus>,
    reply: Result<ResIndicateMechs, GpmError>,
) -> (r: (u32, u32, ResIndicateMechs))
    ensures
        ({
            let status = match reply {
                Ok(res) => Ok(res.status),
                Err(e) => Err(e),
            };
            &&& saved_after(*old(saved), *final(saved), status)
            &&& match reply {
                Ok(res) => {
                    &&& r.0 == res.status.major_status as u32
                    &&& r.1 == res.status.minor_status as u32
                    &&& r.2 == res
                },
                Err(e) => r.0 == GSS_S_FAILURE && r.1 == e.number() as u32 && r.2.blank(),
            }
        }),
{
    match reply {
        Ok(res) => {
            if res.status.major_status != 0 {
                save_status(saved, &res.status);
            }
            (res.status.major_status as u32, res.status.minor_status as u32, res)
        },
        Err(e) => (GSS_S_FAILURE, e.errno() as u32, ResIndicateMechs::default()),
    }
}

// ---- message protection ----

/// One buffer in an array.
fn one_buffer(data: &[u8]) -> (r: Vec<GssxBuffer>)
    ensures
        r@.len() == 1,
        r@[0]@ == data@,
{
    let mut v: Vec<GssxBuffer> = Vec::new();
    v.push(Opaque::from_slice(data));
    v
}

/// An optional token is the first of some buffers.
pub open spec fn is_first(token: Option<Vec<u8>>, buffers: Seq<GssxBuffer>) -> bool {
    if buffers.len() > 0 {
        token matches Some(t) && t@ == buffers[0]@
    } else {
        token is None
    }
}

fn first_buffer(buffers: &Vec<GssxBuffer>) -> (r: Option<Vec<u8>>)
    ensures
        is_first(r, buffers@),
{
    if buffers.len() > 0 {
        Some(octets::copy(buffers[0].as_slice()))
    } else {
        None
    }
}

/// Ask the daemon to wrap a message.
pub fn wrap_arg(ctx: &GssxCtx, conf_req: bool, qop: u32, message: &[u8]) -> (r: ArgWrap)
    ensures
        r.call_ctx.blank(),
        r.context_handle.tree() == ctx.tree(),
        r.conf_req == conf_req,
        r.message_buffer@.len() == 1,
        r.message_buffer@[0]@ == message@,
        r.qop_state == qop,
{
    ArgWrap {
        call_ctx: GssxCallCtx::default(),
        context_handle: ctx.clone(),
        conf_req,
        message_buffer: one_buffer(message),
        qop_state: qop as u64,
    }
}

/// The token and the confidentiality state from the daemon's reply.
pub fn wrap(saved: &mut Option<GssxStatus>, reply: Result<ResWrap, GpmError>) -> (r: (
    u32,
    u32,
    Option<Vec<u8>>,
    bool,
))
    ensures
        ({
            let status = match reply {
                Ok(res) => Ok(res.status),
                Err(e) => Err(e),
            };
            &&& saved_after(*old(saved), *final(saved), status)
            &&& match failure(status) {
                Some((maj, min)) => r.0 == maj && r.1 == min && r.2 is None && !r.3,
                None => {
                    &&& r.0 == GSS_S_COMPLETE && r.1 == 0
                    &&& is_first(r.2, reply->Ok_0.token_buffer@)
                    &&& r.3 == (reply->Ok_0.conf_state == Some(true))
                },
            }
        }),
{
    let res = match reply {
        Ok(res) => res,
        Err(e) => {
            return (GSS_S_FAILURE, e.errno() as u32, None, false);
        },
    };
    match reported(saved, &res.status) {
        Some((maj, min)) => (maj, min, None, false),
        None => {
            let conf = match res.conf_state {
                Some(c) => c,
                None => false,
            };
            (GSS_S_COMPLETE, 0, first_buffer(&res.token_buffer), conf)
        },
    }
}

/// Ask the daemon to unwrap a token.
pub fn unwrap_arg(ctx: &GssxCtx, token: &[u8]) -> (r: ArgUnwrap)
    ensures
        r.call_ctx.blank(),
        r.context_handle.tree() == ctx.tree(),
        r.token_buffer@.len() == 1,
        r.token_buffer@[0]@ == token@,
        r.qop_state == 0,
{
    ArgUnwrap {
        call_ctx: GssxCallCtx::default(),
        context_handle: ctx.clone(),
        token_buffer: one_buffer(token),
        qop_state: 0,
    }
}

/// An optional quality of protection as 32 bits, 0 when absent.
pub open spec fn qop_of(qop: Option<u64>) -> u32 {
    match qop {
        Some(q) => q as u32,
        None => 0,
    }
}

fn read_qop(qop: Option<u64>) -> (r: u32)
    ensures
        r == qop_of(qop),
{
    match qop {
        Some(q) => q as u32,
        None => 0,
    }
}

/// The message, the confidentiality state and the quality of protection from
/// the daemon's reply.
pub fn unwrap(saved: &mut Option<GssxStatus>, reply: Result<ResUnwrap, GpmError>) -> (r: (
    u32,
    u32,
    Option<Vec<u8>>,
    bool,
    u32,
))
    ensures
        ({
            let status = match reply {
                Ok(res) => Ok(res.status),
                Err(e) => Err(e),
            };
            &&& saved_after(*old(saved), *final(saved), status)
            &&& match failure(status) {
                Some((maj, min)) => r.0 == maj && r.1 == min && r.2 is None && !r.3 && r.4 == 0,
                None => {
                    &&& r.0 == GSS_S_COMPLETE && r.1 == 0
                    &&& is_first(r.2, reply->Ok_0.message_buffer@)
                    &&& r.3 == (reply->Ok_0.conf_state == Some(true))
                    &&& r.4 == qop_of(reply->Ok_0.qop_state)
                },
            }
        }),
{
    let res = match reply {
        Ok(res) => res,
        Err(e) => {
            return (GSS_S_FAILURE, e.errno() as u32, None, false, 0);
        },
    };
    match reported(saved, &res.status) {
        Some((maj, min)) => (maj, min, None, false, 0),
        None => {
            let conf = match res.conf_state {
                Some(c) => c,
                None => false,
            };
            (GSS_S_COMPLETE, 0, first_buffer(&res.message_buffer), conf, read_qop(res.qop_state))
        },
    }
}

/// Ask the daemon for the integrity code of a message.
pub fn get_mic_arg(ctx: &GssxCtx, qop: u32, message: &[u8]) -> (r: ArgGetMic)
    ensures
        r.call_ctx.blank(),
        r.context_handle.tree() == ctx.tree(),
        r.qop_req == qop,
        r.message_buffer@ == message@,
{
    ArgGetMic {
        call_ctx: GssxCallCtx::default(),
        context_handle: ctx.clone(),
        qop_req: qop as u64,
        message_buffer: Opaque::from_slice(message),
    }
}

/// The integrity code from the daemon's reply.
pub fn get_mic(saved: &mut Option<GssxStatus>, reply: Result<ResGetMic, GpmError>) -> (r: (
    u32,
    u32,
    Option<Vec<u8>>,
))
    ensures
        ({
            let status = match reply {
                Ok(res) => Ok(res.status),
                Err(e) => Err(e),
            };
            &&& saved_after(*old(saved), *final(saved), status)
            &&& match failure(status) {
                Some((maj, min)) => r.0 == maj && r.1 == min && r.2 is None,
                None => {
                    &&& r.0 == GSS_S_COMPLETE && r.1 == 0
                    &&& r.2 matches Some(t) && t@ == reply->Ok_0.token_buffer@
                },
            }
        }),
{
    let res = match reply {
        Ok(res) => res,
        Err(e) => {
            return (GSS_S_FAILURE, e.errno() as u32, None);
        },
    };
    match reported(saved, &res.status) {
        Some((maj, min)) => (maj, min, None),
        None => (GSS_S_COMPLETE, 0, Some(res.token_buffer.0)),
    }
}

/// Ask the daemon to check the integrity code of a message.
pub fn verify_mic_arg(ctx: &GssxCtx, message: &[u8], token: &[u8]) -> (r: ArgVerifyMic)
    ensures
        r.call_ctx.blank(),
        r.context_handle.tree() == ctx.tree(),
        r.message_buffer@ == message@,
        r.token_buffer@ == token@,
{
    ArgVerifyMic {
        call_ctx: GssxCallCtx::default(),
        context_handle: ctx.clone(),
        message_buffer: Opaque::from_slice(message),
        token_buffer: Opaque::from_slice(token),
    }
}

/// The quality of protection from the daemon's reply.
pub fn verify_mic(saved: &mut Option<GssxStatus>, reply: Result<ResVerifyMic, GpmError>) -> (r: (
    u32,
    u32,
    u32,
))
    ensures
        ({
            let status = match reply {
                Ok(res) => Ok(res.status),
                Err(e) => Err(e),
            };
            &&& saved_after(*old(saved), *final(saved), status)
            &&& r == match failure(status) {
                Some((maj, min)) => (maj, min, 0u32),
                None => (GSS_S_COMPLETE, 0u32, qop_of(reply->Ok_0.qop_state)),
            }
        }),
{
    let res = match reply {
        Ok(res) => res,
        Err(e) => {
            return (GSS_S_FAILURE, e.errno() as u32, 0);
        },
    };
    match reported(saved, &res.status) {
        Some((maj, min)) => (maj, min, 0),
        None => (GSS_S_COMPLETE, 0, read_qop(res.qop_state)),
    }
}

/// Ask the daemon how large a message may be for a given output size.
pub fn wrap_size_limit_arg(
    ctx: &GssxCtx,
    conf_req: bool,
    qop: u32,
    req_output_size: u32,
) -> (r: ArgWrapSizeLimit)
    ensures
        r.call_ctx.blank(),
        r.context_handle.tree() == ctx.tree(),
        r.conf_req == conf_req,
        r.qop_state == qop,
        r.req_output_size == req_output_size,
{
    ArgWrapSizeLimit {
        call_ctx: GssxCallCtx::default(),
        context_handle: ctx.clone(),
        conf_req,
        qop_state: qop as u64,
        req_output_size: req_output_size as u64,
    }
}

/// The size limit from the daemon's reply, as 32 bits.
pub fn wrap_size_limit(
    saved: &mut Option<GssxStatus>,
    reply: Result<ResWrapSizeLimit, GpmError>,
) -> (r: (u32, u32, u32))
    ensures
        ({
            let status = match reply {
                Ok(res) => Ok(res.status),
                Err(e) => Err(e),
            };
            &&& saved_after(*old(saved), *final(saved), status)
            &&& r == match failure(status) {
                Some((maj, min)) => (maj, min, 0u32),
                None => (GSS_S_COMPLETE, 0u32, reply->Ok_0.max_input_size as u32),
            }
        }),
{
    let res = match reply {
        Ok(res) => res,
        Err(e) => {
            return (GSS_S_FAILURE, e.errno() as u32, 0);
        },
    };
    match reported(saved, &res.status) {
        Some((maj, min)) => (maj, min, 0),
        None => (GSS_S_COMPLETE, 0, res.max_input_size as u32),
    }
}

// ---- credentials as bytes ----

/// Encode a credential, as it is kept in a credential cache.
pub fn encode_cred(cred: &GssxCred) -> (r: Vec<u8>)
    ensures
        r@ == xdr::bytes(cred.tree()),
{
    let mut e = XdrEncoder::new();
    cred.encode(&mut e);
    assert(e@ =~= xdr::bytes(cred.tree()));
    e.into_bytes()
}

/// Decode a credential; bytes after it are ignored.
pub fn decode_cred(bytes: &[u8]) -> (r: Option<GssxCred>)
    ensures
        is_cred(r, cred_from(bytes@)),
{
    let mut d = XdrDecoder::new(bytes);
    match GssxCred::decode(&mut d) {
        Ok(c) => Some(c),
        Err(_) => None,
    }
}

/// A credential that was kept as bytes comes back as it was.
pub proof fn kept_cred_comes_back(cred: GssxCred)
    requires
        xdr::sized(cred.tree()),
    ensures
        cred_from(xdr::bytes(cred.tree())) == Some(cred.tree()),
{
    xdr_laws::decode_undoes_encode(cred, Seq::empty());
    assert(xdr::bytes(cred.tree()) + Seq::<u8>::empty() =~= xdr::bytes(cred.tree()));
}

} // verus!
