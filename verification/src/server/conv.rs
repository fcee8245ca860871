//! Conversions between what is on the wire and what GSSAPI works with.

use vstd::prelude::*;

use crate::consts::{
    ENOSYS, GSSX_C_ACCEPT, GSSX_C_BOTH, GSSX_C_INITIATE, GSS_C_ACCEPT, GSS_C_BOTH, GSS_C_INITIATE,
    GSS_S_FAILURE, NT_EXPORT_NAME_OID,
};
use crate::gpm;
use crate::gssapi::seal::SealError;
use crate::gssapi::wrap;
use crate::gssapi::wrap::GssError;
use crate::gssx::{
    GssxCred, GssxCredElement, GssxCtx, GssxName, GssxOption, GssxStatus, Opaque,
};
use crate::octets;
use crate::xdr::Xdr;

verus! {

// ---- exported contexts ----

/// How a context is exported.
#[derive(Debug, Clone, Copy, PartialEq, Eq, Structural)]
pub enum ExpCtxType {
    Default,
    Partial,
    Lucid,
}

/// Option key `exported_context_type`, with its terminating NUL.
pub const EXPORTED_CONTEXT_TYPE: [u8; 22] = [
    0x65, 0x78, 0x70, 0x6f, 0x72, 0x74, 0x65, 0x64, 0x5f, 0x63, 0x6f, 0x6e, 0x74, 0x65, 0x78,
    0x74, 0x5f, 0x74, 0x79, 0x70, 0x65, 0x00,
];

/// Option value `linux_lucid_v1`, likewise.
pub const LINUX_LUCID_V1: [u8; 15] = [
    0x6c, 0x69, 0x6e, 0x75, 0x78, 0x5f, 0x6c, 0x75, 0x63, 0x69, 0x64, 0x5f, 0x76, 0x31, 0x00,
];

/// The way of exporting that the options ask for: the first one that is for it
/// counts.
pub fn exported_context_type(options: &[GssxOption]) -> (r: ExpCtxType)
    ensures
        r == match gpm::option_value(options@, EXPORTED_CONTEXT_TYPE@) {
            Some(v) => if v == LINUX_LUCID_V1@ {
                ExpCtxType::Lucid
            } else {
                ExpCtxType::Partial
            },
            None => ExpCtxType::Default,
        },
{
    let key = EXPORTED_CONTEXT_TYPE;
    let lucid = LINUX_LUCID_V1;
    match gpm::find_option(options, key.as_slice()) {
        Some(v) => {
            if octets::same(v.as_slice(), lucid.as_slice()) {
                ExpCtxType::Lucid
            } else {
                ExpCtxType::Partial
            }
        },
        None => ExpCtxType::Default,
    }
}

// ---- credential usage ----

/// The usage that one on the wire stands for.
pub open spec fn usage_from_wire(usage: i32) -> i32 {
    if usage == GSSX_C_BOTH {
        GSS_C_BOTH
    } else if usage == GSSX_C_INITIATE {
        GSS_C_INITIATE
    } else if usage == GSSX_C_ACCEPT {
        GSS_C_ACCEPT
    } else {
        0
    }
}

/// A credential usage as it is sent; 0 for an unknown one.
pub fn cred_usage_to_gssx(usage: i32) -> (r: i32)
    ensures
        r == usage_to_wire(usage),
{
    match usage {
        GSS_C_BOTH => GSSX_C_BOTH,
        GSS_C_INITIATE => GSSX_C_INITIATE,
        GSS_C_ACCEPT => GSSX_C_ACCEPT,
        _ => 0,
    }
}

/// The usage on the wire that stands for one.
pub open spec fn usage_to_wire(usage: i32) -> i32 {
    if usage == GSS_C_BOTH {
        GSSX_C_BOTH
    } else if usage == GSS_C_INITIATE {
        GSSX_C_INITIATE
    } else if usage == GSS_C_ACCEPT {
        GSSX_C_ACCEPT
    } else {
        0
    }
}

/// A credential usage from the wire.
pub fn gssx_to_cred_usage(usage: i32) -> (r: i32)
    ensures
        r == usage_from_wire(usage),
{
    match usage {
        GSSX_C_BOTH => GSS_C_BOTH,
        GSSX_C_INITIATE => GSS_C_INITIATE,
        GSSX_C_ACCEPT => GSS_C_ACCEPT,
        _ => 0,
    }
}

/// The known usages come back from the wire, and the other way round.
pub proof fn usage_comes_back(usage: i32)
    ensures
        usage == GSS_C_BOTH || usage == GSS_C_INITIATE || usage == GSS_C_ACCEPT ==> usage_from_wire(
            usage_to_wire(usage),
        ) == usage,
        usage == GSSX_C_BOTH || usage == GSSX_C_INITIATE || usage == GSSX_C_ACCEPT
            ==> usage_to_wire(usage_from_wire(usage)) == usage,
{
}

// ---- names ----

/// A name as it is sent, from how the mechanism displays it and its exported
/// forms, if it has any. The first failure to find these out is the failure.
pub fn name_to_gssx(
    display: Result<(Vec<u8>, Vec<u8>), GssError>,
    exported: Result<Option<Vec<u8>>, GssError>,
    composite: Result<Option<Vec<u8>>, GssError>,
) -> (r: Result<GssxName, GssError>)
    ensures
        match (display, exported, composite) {
            (Err(e), _, _) => r == Err::<GssxName, GssError>(e),
            (Ok(_), Err(e), _) => r == Err::<GssxName, GssError>(e),
            (Ok(_), Ok(_), Err(e)) => r == Err::<GssxName, GssError>(e),
            (Ok(d), Ok(x), Ok(c)) => r matches Ok(n) && {
                &&& n.display_name@ == d.0@
                &&& n.name_type@ == d.1@
                &&& n.exported_name@ == bytes_or_none(x)
                &&& n.exported_composite_name@ == bytes_or_none(c)
                &&& n.name_attributes@.len() == 0
                &&& n.extensions@.len() == 0
            },
        },
{
    let (d, t) = match display {
        Ok(x) => x,
        Err(e) => {
            return Err(e);
        },
    };
    let x = match exported {
        Ok(x) => x,
        Err(e) => {
            return Err(e);
        },
    };
    let c = match composite {
        Ok(c) => c,
        Err(e) => {
            return Err(e);
        },
    };
    Ok(
        GssxName {
            display_name: Opaque::new(d),
            name_type: Opaque::new(t),
            exported_name: opaque_or_none(x),
            exported_composite_name: opaque_or_none(c),
            name_attributes: Vec::new(),
            extensions: Vec::new(),
        },
    )
}

/// The bytes of an optional value, none where it is absent.
pub open spec fn bytes_or_none(v: Option<Vec<u8>>) -> Seq<u8> {
    match v {
        Some(b) => b@,
        None => Seq::empty(),
    }
}

fn opaque_or_none(v: Option<Vec<u8>>) -> (r: Opaque)
    ensures
        r@ == bytes_or_none(v),
{
    match v {
        Some(b) => Opaque::new(b),
        None => {
            let r = Opaque::default();
            assert(r@ =~= Seq::empty());
            r
        },
    }
}

/// What is imported for a name.
#[derive(Debug)]
pub struct NameImport {
    pub value: Vec<u8>,
    pub name_type: Option<Vec<u8>>,
}

/// What is imported for a name on the wire: its display name, of its name type
/// where it has one, or else its exported form.
pub fn gssx_to_name(g: &GssxName) -> (r: NameImport)
    ensures
        if g.display_name@.len() > 0 {
            &&& r.value@ == g.display_name@
            &&& if g.name_type@.len() > 0 {
                r.name_type matches Some(t) && t@ == g.name_type@
            } else {
                r.name_type is None
            }
        } else {
            &&& r.value@ == g.exported_name@
            &&& r.name_type matches Some(t) && t@ == NT_EXPORT_NAME_OID@
        },
{
    if !g.display_name.is_empty() {
        let name_type = if g.name_type.is_empty() {
            None
        } else {
            Some(octets::copy(g.name_type.as_slice()))
        };
        NameImport { value: octets::copy(g.display_name.as_slice()), name_type }
    } else {
        let tag = NT_EXPORT_NAME_OID;
        NameImport {
            value: octets::copy(g.exported_name.as_slice()),
            name_type: Some(octets::copy(tag.as_slice())),
        }
    }
}

// ---- statuses ----

/// A status text as it is sent: the parts joined, with a terminating NUL, and
/// nothing where there are no parts.
pub open spec fn wire_text(parts: Seq<Seq<char>>) -> Seq<u8> {
    if parts.len() == 0 {
        Seq::empty()
    } else {
        vstd::utf8::encode_utf8(wrap::joined(parts)).push(0)
    }
}

fn status_string(parts: &[String]) -> (r: Opaque)
    ensures
        r@ == wire_text(wrap::texts(parts@)),
{
    if parts.len() == 0 {
        let r = Opaque::default();
        assert(r@ =~= Seq::empty());
        return r;
    }
    let joined = wrap::join(parts);
    let mut bytes = octets::copy(joined.as_str().as_bytes());
    bytes.push(0);
    Opaque::new(bytes)
}

/// A status is the wire form of a major and a minor code, for a mechanism, with
/// these texts for each.
pub open spec fn is_status(
    s: GssxStatus,
    major: u32,
    minor: u32,
    mech: Seq<u8>,
    major_text: Seq<Seq<char>>,
    minor_text: Seq<Seq<char>>,
) -> bool {
    &&& s.major_status == major
    &&& s.minor_status == minor
    &&& s.mech@ == mech
    &&& s.major_status_string@ == if major != 0 {
        wire_text(major_text)
    } else {
        Seq::empty()
    }
    &&& s.minor_status_string@ == if minor != 0 {
        wire_text(minor_text)
    } else {
        Seq::empty()
    }
    &&& s.server_ctx@.len() == 0
    &&& s.options@.len() == 0
}

/// A major and a minor code as they are sent. The texts are those that the
/// mechanism gives for each; a code of 0 has none.
pub fn status_to_gssx(
    major: u32,
    minor: u32,
    mech: Option<&[u8]>,
    major_text: &[String],
    minor_text: &[String],
) -> (r: GssxStatus)
    ensures
        is_status(
            r,
            major,
            minor,
            match mech {
                Some(m) => m@,
                None => Seq::empty(),
            },
            wrap::texts(major_text@),
            wrap::texts(minor_text@),
        ),
{
    let mech = match mech {
        Some(m) => Opaque::from_slice(m),
        None => {
            let none = Opaque::default();
            assert(none@ =~= Seq::empty());
            none
        },
    };
    let major_status_string = if major != 0 {
        status_string(major_text)
    } else {
        let none = Opaque::default();
        assert(none@ =~= Seq::empty());
        none
    };
    let minor_status_string = if minor != 0 {
        status_string(minor_text)
    } else {
        let none = Opaque::default();
        assert(none@ =~= Seq::empty());
        none
    };
    GssxStatus {
        major_status: major as u64,
        mech,
        minor_status: minor as u64,
        major_status_string,
        minor_status_string,
        server_ctx: Opaque::default(),
        options: Vec::new(),
    }
}

// ---- credentials ----

/// What the mechanism says of a credential for one mechanism.
pub struct ElementInfo {
    pub name: Option<GssxName>,
    pub usage: i32,
    pub initiator_lifetime: u32,
    pub acceptor_lifetime: u32,
}

/// The mechanisms, of those that a credential is for, that could be inquired.
pub open spec fn inquired(infos: Seq<(Vec<u8>, Option<ElementInfo>)>, n: int) -> Seq<
    (Seq<u8>, ElementInfo),
>
    decreases n,
{
    if n <= 0 {
        Seq::empty()
    } else {
        let before = inquired(infos, n - 1);
        match infos[n - 1].1 {
            Some(i) => before.push((infos[n - 1].0@, i)),
            None => before,
        }
    }
}

/// An element of a credential on the wire is what is known of it for a mechanism.
pub open spec fn is_element(e: GssxCredElement, mech: Seq<u8>, i: ElementInfo) -> bool {
    &&& match i.name {
        Some(n) => e.mn == n,
        None => e.mn.blank(),
    }
    &&& e.mech@ == mech
    &&& e.cred_usage == usage_to_wire(i.usage)
    &&& e.initiator_time_rec == i.initiator_lifetime
    &&& e.acceptor_time_rec == i.acceptor_lifetime
    &&& e.options@.len() == 0
}

/// A credential as it is sent: its name, an element for each mechanism that could
/// be inquired, and the sealed credential. Nothing is to be released for it.
pub fn export_gssx_cred(
    name: Option<GssxName>,
    infos: Vec<(Vec<u8>, Option<ElementInfo>)>,
    sealed: Vec<u8>,
) -> (r: GssxCred)
    ensures
        match name {
            Some(n) => r.desired_name == n,
            None => r.desired_name.blank(),
        },
        ({
            let some = inquired(infos@, infos@.len() as int);
            &&& r.elements@.len() == some.len()
            &&& forall|k: int|
                0 <= k < some.len() ==> is_element(#[trigger] r.elements@[k], some[k].0, some[k].1)
        }),
        r.cred_handle_reference@ == sealed@,
        !r.needs_release,
{
    let ghost all = infos@;
    let mut left = infos;
    let mut elements: Vec<GssxCredElement> = Vec::new();
    let n: usize = left.len();
    let mut i: usize = 0;
    while i < n
        invariant
            i <= n,
            n == all.len(),
            left@ == all.skip(i as int),
            ({
                let some = inquired(all, i as int);
                &&& elements@.len() == some.len()
                &&& forall|k: int|
                    0 <= k < some.len() ==> is_element(
                        #[trigger] elements@[k],
                        some[k].0,
                        some[k].1,
                    )
            }),
        decreases n - i,
    {
        let (mech, info) = left.remove(0);
        assert(left@ =~= all.skip(i + 1));
        match info {
            Some(x) => {
                let mn = match x.name {
                    Some(g) => g,
                    None => GssxName::default(),
                };
                let e = GssxCredElement {
                    mn,
                    mech: Opaque::new(mech),
                    cred_usage: cred_usage_to_gssx(x.usage),
                    initiator_time_rec: x.initiator_lifetime as u64,
                    acceptor_time_rec: x.acceptor_lifetime as u64,
                    options: Vec::new(),
                };
                elements.push(e);
            },
            None => {},
        }
        i += 1;
    }
    let desired_name = match name {
        Some(g) => g,
        None => GssxName::default(),
    };
    GssxCred {
        desired_name,
        elements,
        cred_handle_reference: Opaque::new(sealed),
        needs_release: false,
    }
}

/// The sealed credential of one on the wire, where it has one.
pub fn sealed_cred(cred: &GssxCred) -> (r: Option<&[u8]>)
    ensures
        match r {
            Some(s) => s@ == cred.cred_handle_reference@ && s@.len() > 0,
            None => cred.cred_handle_reference@.len() == 0,
        },
{
    if cred.cred_handle_reference.is_empty() {
        None
    } else {
        Some(cred.cred_handle_reference.as_slice())
    }
}

/// The credential to import from what was unsealed. One that cannot be unsealed
/// counts as none, so that it can be issued again.
pub fn import_gssx_cred(unsealed: Option<Result<Vec<u8>, SealError>>) -> (r: Option<Vec<u8>>)
    ensures
        r == match unsealed {
            Some(Ok(t)) => Some(t),
            _ => None,
        },
{
    match unsealed {
        Some(Ok(t)) => Some(t),
        _ => None,
    }
}

/// The failure that a failure to seal is.
pub fn seal_error(e: &SealError) -> (r: GssError)
    ensures
        r.major == GSS_S_FAILURE,
        r.minor == 0,
        wrap::texts(r.messages@) == seq!["cred handle sealing failed: "@ + e.text()],
{
    let mut m: String = "cred handle sealing failed: ".to_owned();
    m.push_str(e.message().as_str());
    let mut messages: Vec<String> = Vec::new();
    messages.push(m);
    assert(wrap::texts(messages@) =~= seq!["cred handle sealing failed: "@ + e.text()]);
    GssError { major: GSS_S_FAILURE, minor: 0, messages }
}

// ---- contexts ----

/// What the mechanism says of a context.
pub struct CtxInfo {
    pub mech: Vec<u8>,
    pub src_name: Option<GssxName>,
    pub targ_name: Option<GssxName>,
    pub lifetime: u32,
    pub flags: u32,
    pub locally_initiated: bool,
    pub open: bool,
}

/// A name that may be unknown.
pub open spec fn is_name(n: GssxName, known: Option<GssxName>) -> bool {
    match known {
        Some(k) => n == k,
        None => n.blank(),
    }
}

/// A context on the wire, but for its token, is what is known of it. A partial
/// context has the given mechanism, is locally initiated and is not open, and may
/// be otherwise unknown.
pub open spec fn is_context(
    c: GssxCtx,
    info: Option<CtxInfo>,
    partial: bool,
    partial_mech: Option<Seq<u8>>,
) -> bool {
    &&& match info {
        Some(i) => {
            &&& is_name(c.src_name, i.src_name)
            &&& is_name(c.targ_name, i.targ_name)
            &&& c.lifetime == i.lifetime
            &&& c.ctx_flags == i.flags
        },
        None => {
            &&& c.src_name.blank() && c.targ_name.blank()
            &&& c.lifetime == 0 && c.ctx_flags == 0
        },
    }
    &&& if partial {
        &&& c.mech@ == match partial_mech {
            Some(m) => m,
            None => Seq::empty(),
        }
        &&& c.locally_initiated && !c.open
    } else {
        &&& info matches Some(i) && c.mech@ == i.mech@ && c.locally_initiated
            == i.locally_initiated && c.open == i.open
    }
    &&& c.state@.len() == 0
    &&& !c.needs_release
    &&& c.options@.len() == 0
}

/// A context as it is sent, but for its token, from what the mechanism says of it.
/// One that cannot be inquired is a failure unless it is partial, and the Lucid
/// form is not supported.
pub fn context_info(
    info: Result<CtxInfo, GssError>,
    exp_type: ExpCtxType,
    partial_mech: Option<&[u8]>,
) -> (r: Result<GssxCtx, GssError>)
    ensures
        match (info, exp_type) {
            (Err(e), ExpCtxType::Default) => r == Err::<GssxCtx, GssError>(e),
            (Err(e), ExpCtxType::Lucid) => r == Err::<GssxCtx, GssError>(e),
            (Ok(_), ExpCtxType::Lucid) => r matches Err(e) && {
                &&& e.major == GSS_S_FAILURE && e.minor == ENOSYS as u32
                &&& wrap::texts(e.messages@) == seq![
                    "linux_lucid_v1 context export is not implemented"@,
                ]
            },
            (i, t) => r matches Ok(c) && {
                &&& c.exported_context_token@.len() == 0
                &&& is_context(
                    c,
                    match i {
                        Ok(x) => Some(x),
                        Err(_) => None,
                    },
                    t is Partial,
                    match partial_mech {
                        Some(m) => Some(m@),
                        None => None,
                    },
                )
            },
        },
{
    let mut out = GssxCtx::default();
    match info {
        Ok(i) => {
            out.mech = Opaque::new(i.mech);
            match i.src_name {
                Some(n) => {
                    out.src_name = n;
                },
                None => {},
            }
            match i.targ_name {
                Some(n) => {
                    out.targ_name = n;
                },
                None => {},
            }
            out.lifetime = i.lifetime as u64;
            out.ctx_flags = i.flags as u64;
            out.locally_initiated = i.locally_initiated;
            out.open = i.open;
        },
        Err(e) => {
            match exp_type {
                ExpCtxType::Partial => {},
                _ => {
                    return Err(e);
                },
            }
        },
    }
    match exp_type {
        ExpCtxType::Partial => {
            out.mech = match partial_mech {
                Some(m) => Opaque::from_slice(m),
                None => {
                    let none = Opaque::default();
                    assert(none@ =~= Seq::empty());
                    none
                },
            };
            out.locally_initiated = true;
            out.open = false;
        },
        ExpCtxType::Default => {},
        ExpCtxType::Lucid => {
            let mut messages: Vec<String> = Vec::new();
            messages.push("linux_lucid_v1 context export is not implemented".to_owned());
            assert(wrap::texts(messages@) =~= seq![
                "linux_lucid_v1 context export is not implemented"@,
            ]);
            return Err(GssError { major: GSS_S_FAILURE, minor: ENOSYS as u32, messages });
        },
    }
    Ok(out)
}

/// The context with its exported token.
pub fn export_gssx_ctx(ctx: GssxCtx, token: Result<Vec<u8>, GssError>) -> (r: Result<
    GssxCtx,
    GssError,
>)
    ensures
        match token {
            Err(e) => r == Err::<GssxCtx, GssError>(e),
            Ok(b) => r matches Ok(c) && c.exported_context_token@ == b@ && c == (GssxCtx {
                exported_context_token: c.exported_context_token,
                ..ctx
            }),
        },
{
    match token {
        Err(e) => Err(e),
        Ok(b) => {
            let mut out = ctx;
            out.exported_context_token = Opaque::new(b);
            Ok(out)
        },
    }
}

} // verus!
