//! The payloads behind the handles that the mechglue is given, and how the local
//! and the daemon's representations are turned into each other.
//!
//! An object of the local mechanism is known by its address, 0 where there is
//! none.

use vstd::prelude::*;

use crate::server::config;
use crate::consts::{
    EIO, ENOENT, GSSPROXY_INTERPOSER_OID, GSS_S_CALL_INACCESSIBLE_READ, GSS_S_COMPLETE,
    GSS_S_FAILURE,
};
use crate::gpm;
use crate::gpm::AcquireCred;
use crate::gssx::{GssxCred, GssxCtx, GssxName};
use crate::interposer::attempt::{Attempt, Operation, Status, Turn};
use crate::interposer::behavior::Behavior;
use crate::interposer::convert;
use crate::interposer::oids;
use crate::interposer::special;
use crate::interposer::special::Registry;
use crate::octets;
use crate::proc::ArgAcquireCred;
use crate::xdr;
use crate::xdr::Xdr;
use crate::xdr_laws;

verus! {

// ---- payloads ----

/// An OID of one's own.
#[derive(Debug)]
pub struct OwnedOid {
    pub bytes: Vec<u8>,
}

impl View for OwnedOid {
    type V = Seq<u8>;

    open spec fn view(&self) -> Seq<u8> {
        self.bytes@
    }
}

impl OwnedOid {
    pub fn new(bytes: Vec<u8>) -> (r: OwnedOid)
        ensures
            r@ == bytes@,
    {
        OwnedOid { bytes }
    }

    /// A copy of an OID, if there is one.
    pub fn from_oid(oid: Option<&[u8]>) -> (r: Option<OwnedOid>)
        ensures
            match oid {
                Some(b) => r matches Some(o) && o@ == b@,
                None => r is None,
            },
    {
        match oid {
            Some(b) => Some(OwnedOid::new(octets::copy(b))),
            None => None,
        }
    }
}

/// A credential: the daemon's, or a local one.
pub struct CredHandle {
    pub remote: Option<GssxCred>,
    /// The credential store; only its `ccache` entry counts.
    pub store: Vec<(String, String)>,
    pub default_creds: bool,
    pub local: usize,
}

impl CredHandle {
    /// An empty credential, kept in a credential cache where one is named.
    pub fn new(defcred: bool, ccache_name: Option<&str>) -> (r: CredHandle)
        ensures
            r.remote is None,
            r.default_creds == defcred,
            r.local == 0,
            config::props_view(r.store@) == match ccache_name {
                Some(c) => seq![("ccache"@, c@)],
                None => seq![],
            },
    {
        let mut store: Vec<(String, String)> = Vec::new();
        match ccache_name {
            Some(c) => {
                store.push(("ccache".to_owned(), c.to_owned()));
                assert(config::props_view(store@) =~= seq![("ccache"@, c@)]);
            },
            None => {
                assert(config::props_view(store@) =~= seq![]);
            },
        }
        CredHandle { remote: None, store, default_creds: defcred, local: 0 }
    }
}

/// A context: the daemon's, or a local one.
pub struct CtxHandle {
    pub remote: Option<GssxCtx>,
    pub local: usize,
}

impl CtxHandle {
    pub open spec fn holds_nothing(self) -> bool {
        self.remote is None && self.local == 0
    }

    pub fn empty() -> (r: CtxHandle)
        ensures
            r.holds_nothing(),
    {
        CtxHandle { remote: None, local: 0 }
    }
}

/// A name: the daemon's, a local one, or both.
pub struct NameHandle {
    pub mech_type: Option<OwnedOid>,
    pub remote: Option<GssxName>,
    pub local: usize,
}

impl NameHandle {
    /// There is a name behind the handle.
    pub open spec fn usable(self) -> bool {
        self.local != 0 || self.remote is Some
    }

    pub fn empty() -> (r: NameHandle)
        ensures
            r.mech_type is None,
            r.remote is None,
            r.local == 0,
    {
        NameHandle { mech_type: None, remote: None, local: 0 }
    }

    pub open spec fn mech(self) -> Option<Seq<u8>> {
        match self.mech_type {
            Some(o) => Some(o@),
            None => None,
        }
    }

    /// The mechanism that the name was imported for.
    pub fn mech_ptr(&self) -> (r: Option<&[u8]>)
        ensures
            oids::oid_view(r) == self.mech(),
    {
        match &self.mech_type {
            Some(o) => Some(o.bytes.as_slice()),
            None => None,
        }
    }

    /// Whether there is a name behind the handle.
    pub fn is_usable(&self) -> (r: bool)
        ensures
            r == self.usable(),
    {
        self.local != 0 || self.remote.is_some()
    }
}

// ---- contexts ----

/// A context token as the mechglue takes it: the length of the mechanism, the
/// mechanism, and the token.
pub open spec fn wrapped(mech: Seq<u8>, token: Seq<u8>) -> Seq<u8> {
    xdr::be32(mech.len() as u32) + mech + token
}

/// Put the special form of a mechanism in front of a token. Without a mechanism
/// the first registered one is taken; where there is none, nothing is wrapped.
pub fn wrap_sec_ctx_token(reg: &mut Registry, mech_type: Option<&[u8]>, token: &[u8]) -> (r: Option<
    Vec<u8>,
>)
    requires
        special::well_formed(old(reg)@),
    ensures
        special::well_formed(final(reg)@),
        match mech_type {
            Some(m) => {
                &&& final(reg)@ == special::with_mech(old(reg)@, m@)
                &&& r matches Some(out) && out@ == wrapped(special::special_of(m@), token@)
            },
            None => {
                &&& final(reg)@ == old(reg)@
                &&& if old(reg)@.len() > 0 {
                    r matches Some(out) && out@ == wrapped(
                        special::special_of(old(reg)@[0]),
                        token@,
                    )
                } else {
                    r is None
                }
            },
        },
{
    match reg.special_bytes(mech_type) {
        None => None,
        Some(sp) => {
            let head = xdr::word_bytes(sp.len() as u32);
            let mut out: Vec<u8> = octets::copy(head.as_slice());
            xdr::append_bytes(&mut out, sp.as_slice());
            xdr::append_bytes(&mut out, token);
            Some(out)
        },
    }
}

/// The mechanism and the token in an exported context token: there must be
/// something after the mechanism.
pub open spec fn exported_parts(token: Seq<u8>) -> Option<(Seq<u8>, Seq<u8>)> {
    if token.len() <= 4 {
        None
    } else {
        let end = 4 + xdr::word_at(token, 0);
        if token.len() <= end {
            None
        } else {
            Some((token.subrange(4, end), token.skip(end)))
        }
    }
}

/// What a wrapped token holds is read back from it.
pub proof fn wrapped_token_reads_back(mech: Seq<u8>, token: Seq<u8>)
    requires
        mech.len() <= u32::MAX,
        token.len() > 0,
    ensures
        exported_parts(wrapped(mech, token)) == Some((mech, token)),
{
    let w = wrapped(mech, token);
    let n = mech.len() as u32;
    assert(w.subrange(0, 4) =~= xdr::be32(n));
    xdr_laws::lemma_word(w, 0, n);
    assert(w.subrange(4, 4 + mech.len() as int) =~= mech);
    assert(w.skip(4 + mech.len() as int) =~= token);
}

/// What the mechglue is to import for a remote context: its token, with the
/// mechanism in its special form.
pub fn context_token(reg: &mut Registry, remote: Option<&GssxCtx>) -> (r: Result<Vec<u8>, Status>)
    requires
        special::well_formed(old(reg)@),
    ensures
        special::well_formed(final(reg)@),
        match remote {
            Some(c) => match exported_parts(c.exported_context_token@) {
                Some((mech, inner)) => {
                    &&& final(reg)@ == special::with_mech(old(reg)@, mech)
                    &&& r matches Ok(out) && out@ == wrapped(special::special_of(mech), inner)
                },
                None => r == Err::<Vec<u8>, Status>((GSS_S_FAILURE, 0)) && final(reg)@ == old(
                    reg,
                )@,
            },
            None => r == Err::<Vec<u8>, Status>((GSS_S_FAILURE, 0)) && final(reg)@ == old(reg)@,
        },
{
    let c = match remote {
        Some(c) => c,
        None => {
            return Err((GSS_S_FAILURE, 0));
        },
    };
    let token = c.exported_context_token.as_slice();
    let n: usize = token.len();
    if n <= 4 {
        return Err((GSS_S_FAILURE, 0));
    }
    let mech_len: u64 = token[0] as u64 * 0x100_0000 + token[1] as u64 * 0x1_0000 + token[2] as u64
        * 0x100 + token[3] as u64;
    if n as u64 <= 4 + mech_len {
        return Err((GSS_S_FAILURE, 0));
    }
    let hlen: usize = 4 + mech_len as usize;
    let mech = vstd::slice::slice_subrange(token, 4, hlen);
    let inner = vstd::slice::slice_subrange(token, hlen, n);
    assert(inner@ =~= token@.skip(hlen as int));
    match wrap_sec_ctx_token(reg, Some(mech), inner) {
        Some(w) => Ok(w),
        None => Err((GSS_S_FAILURE, 0)),
    }
}

/// After the mechglue was given the token of a remote context: the local context
/// is whatever it made of it, and the remote one is used up.
pub fn remote_to_local_ctx(ctx: &mut CtxHandle, s: Status, local: usize) -> (r: Status)
    ensures
        r == s,
        final(ctx).remote is None,
        final(ctx).local == local,
{
    ctx.remote = None;
    ctx.local = local;
    s
}

/// How an operation comes by a local context.
#[derive(Debug)]
pub enum LocalCtx {
    /// It is there.
    Ready(usize),
    /// It is to be imported from this token.
    Import(Vec<u8>),
}

/// The local context that message protection and the other context operations
/// work on. A context that only the daemon has is imported first.
pub fn ensure_local_ctx(reg: &mut Registry, ctx: Option<&CtxHandle>) -> (r: Result<
    LocalCtx,
    Status,
>)
    requires
        special::well_formed(old(reg)@),
    ensures
        special::well_formed(final(reg)@),
        match ctx {
            None => r == Err::<LocalCtx, Status>((GSS_S_CALL_INACCESSIBLE_READ, 0)) && final(reg)@
                == old(reg)@,
            Some(c) => match (c.remote, c.local == 0) {
                (Some(remote), true) => match exported_parts(remote.exported_context_token@) {
                    Some((mech, inner)) => {
                        &&& final(reg)@ == special::with_mech(old(reg)@, mech)
                        &&& r matches Ok(LocalCtx::Import(t)) && t@ == wrapped(
                            special::special_of(mech),
                            inner,
                        )
                    },
                    None => r == Err::<LocalCtx, Status>((GSS_S_FAILURE, 0)) && final(reg)@ == old(
                        reg,
                    )@,
                },
                _ => r == Ok::<LocalCtx, Status>(LocalCtx::Ready(c.local)) && final(reg)@ == old(
                    reg,
                )@,
            },
        },
{
    match ctx {
        None => Err((GSS_S_CALL_INACCESSIBLE_READ, 0)),
        Some(c) => {
            if c.local == 0 && c.remote.is_some() {
                match context_token(reg, c.remote.as_ref()) {
                    Ok(t) => Ok(LocalCtx::Import(t)),
                    Err(s) => Err(s),
                }
            } else {
                Ok(LocalCtx::Ready(c.local))
            }
        },
    }
}

// ---- names ----

/// What is to be done to turn a remote name into a local one.
#[derive(Debug)]
pub enum NameStep {
    /// Import this name, of this name type.
    Import { display: Vec<u8>, name_type: Vec<u8> },
    /// Canonicalize the imported name for this mechanism; the status of that is
    /// the status of the whole.
    Canonicalize { name: usize, mech: Vec<u8> },
    /// Nothing more.
    Done { status: Status, name: usize },
}

/// Begin to turn a remote name into a local one: it must be displayable, and of
/// a known name type.
pub fn name_to_local(remote: &mut GssxName) -> (r: NameStep)
    ensures
        gpm::after_display(*old(remote), *final(remote)),
        match gpm::displayed(*old(remote)) {
            None => r == (NameStep::Done { status: (crate::consts::GSS_S_BAD_NAME, 0), name: 0 }),
            Some((d, t)) => if convert::is_known_name_type(t) {
                r matches NameStep::Import { display, name_type } && display@ == d && name_type@
                    == t
            } else {
                r == (NameStep::Done { status: (GSS_S_FAILURE, ENOENT as u32), name: 0 })
            },
        },
{
    let (maj, min, display, name_type) = gpm::display_name(remote);
    if maj != GSS_S_COMPLETE {
        return NameStep::Done { status: (maj, min), name: 0 };
    }
    if !convert::known_name_type(name_type.as_slice()) {
        return NameStep::Done { status: (GSS_S_FAILURE, ENOENT as u32), name: 0 };
    }
    NameStep::Import { display, name_type }
}

/// After the import: a name that is wanted for a mechanism is canonicalized for
/// its special form.
pub fn name_imported(
    reg: &mut Registry,
    s: Status,
    name: usize,
    mech_type: Option<&[u8]>,
) -> (r: NameStep)
    requires
        special::well_formed(old(reg)@),
    ensures
        special::well_formed(final(reg)@),
        if s.0 != GSS_S_COMPLETE {
            r == (NameStep::Done { status: s, name: 0 }) && final(reg)@ == old(reg)@
        } else {
            match mech_type {
                None => r == (NameStep::Done { status: (GSS_S_COMPLETE, 0), name }) && final(reg)@
                    == old(reg)@,
                Some(m) => {
                    &&& final(reg)@ == special::with_mech(old(reg)@, m@)
                    &&& r matches NameStep::Canonicalize { name: n, mech } && n == name && mech@
                        == special::special_of(m@)
                },
            }
        },
{
    if s.0 != GSS_S_COMPLETE {
        return NameStep::Done { status: s, name: 0 };
    }
    match mech_type {
        None => NameStep::Done { status: (GSS_S_COMPLETE, 0), name },
        Some(m) => match reg.special_bytes(Some(m)) {
            Some(mech) => NameStep::Canonicalize { name, mech },
            None => NameStep::Done { status: (GSS_S_COMPLETE, 0), name },
        },
    }
}

/// A local name as the daemon is sent it, from how the local mechanism displays
/// it.
pub fn local_to_name(s: Status, display: &[u8], name_type: Option<&[u8]>) -> (r: (
    u32,
    u32,
    Option<GssxName>,
))
    ensures
        if s.0 != GSS_S_COMPLETE {
            r == (s.0, s.1, None::<GssxName>)
        } else {
            &&& r.0 == GSS_S_COMPLETE && r.1 == 0
            &&& r.2 matches Some(n) && {
                &&& n.display_name@ == display@
                &&& n.name_type@ == match name_type {
                    Some(t) => t@,
                    None => Seq::empty(),
                }
                &&& n.exported_name@.len() == 0
                &&& n.exported_composite_name@.len() == 0
                &&& n.name_attributes@.len() == 0
                &&& n.extensions@.len() == 0
            }
        },
{
    if s.0 != GSS_S_COMPLETE {
        return (s.0, s.1, None);
    }
    let none: [u8; 0] = [];
    let nt = match name_type {
        Some(t) => t,
        None => none.as_slice(),
    };
    (GSS_S_COMPLETE, 0, Some(gpm::import_name(display, nt)))
}

// ---- credentials ----

/// Two credentials agree in what is compared: the desired name, the number of
/// elements, and the reference.
pub open spec fn same_cred(a: GssxCred, b: GssxCred) -> bool {
    &&& a.desired_name.display_name@ == b.desired_name.display_name@
    &&& a.elements@.len() == b.elements@.len()
    &&& a.cred_handle_reference@ == b.cred_handle_reference@
}

/// Two optional credentials agree.
pub open spec fn same_creds(a: Option<GssxCred>, b: Option<GssxCred>) -> bool {
    match (a, b) {
        (None, None) => true,
        (Some(x), Some(y)) => same_cred(x, y),
        _ => false,
    }
}

/// An optional borrowed value, by value.
pub open spec fn by_value<T>(v: Option<&T>) -> Option<T> {
    match v {
        Some(x) => Some(*x),
        None => None,
    }
}

/// Whether two credentials are the same, as far as keeping them is concerned.
pub fn creds_are_equal(a: Option<&GssxCred>, b: Option<&GssxCred>) -> (r: bool)
    ensures
        r == same_creds(by_value(a), by_value(b)),
{
    match (a, b) {
        (None, None) => true,
        (Some(x), Some(y)) => {
            octets::same(
                x.desired_name.display_name.as_slice(),
                y.desired_name.display_name.as_slice(),
            ) && x.elements.len() == y.elements.len() && octets::same(
                x.cred_handle_reference.as_slice(),
                y.cred_handle_reference.as_slice(),
            )
        },
        _ => false,
    }
}

/// A credential as it is put into a credential cache.
#[derive(Debug)]
pub struct StoredCred {
    pub client: Vec<u8>,
    pub ticket: Vec<u8>,
}

/// What is put into the credential cache for a remote credential: its bytes,
/// under the name it is desired for.
pub fn store_remote_creds_arg(creds: &GssxCred) -> (r: StoredCred)
    ensures
        r.client@ == creds.desired_name.display_name@,
        r.ticket@ == xdr::bytes(creds.tree()),
{
    StoredCred {
        client: octets::copy(creds.desired_name.display_name.as_slice()),
        ticket: gpm::encode_cred(creds),
    }
}

/// The status of storing a remote credential.
pub open spec fn store_status(stored: Result<(), i32>) -> Status {
    match stored {
        Ok(_) => (GSS_S_COMPLETE, 0),
        Err(e) => (GSS_S_FAILURE, e as u32),
    }
}

/// The status of storing a remote credential.
pub fn store_remote_creds(stored: Result<(), i32>) -> (r: Status)
    ensures
        r == store_status(stored),
{
    match stored {
        Ok(_) => (GSS_S_COMPLETE, 0),
        Err(e) => (GSS_S_FAILURE, e as u32),
    }
}

/// A remote credential from what the credential cache held.
pub fn retrieve_remote_creds(found: Result<Vec<u8>, i32>) -> (r: (u32, u32, Option<GssxCred>))
    ensures
        match found {
            Err(e) => r == (GSS_S_FAILURE, e as u32, None::<GssxCred>),
            Ok(b) => match gpm::cred_from(b@) {
                Some(t) => r.0 == GSS_S_COMPLETE && r.1 == 0 && gpm::is_cred(r.2, Some(t)),
                None => r == (GSS_S_FAILURE, EIO as u32, None::<GssxCred>),
            },
        },
{
    match found {
        Err(e) => (GSS_S_FAILURE, e as u32, None),
        Ok(b) => match gpm::decode_cred(b.as_slice()) {
            Some(c) => (GSS_S_COMPLETE, 0, Some(c)),
            None => (GSS_S_FAILURE, EIO as u32, None),
        },
    }
}

/// A credential that was stored is retrieved, and what is retrieved counts as
/// the same credential.
pub proof fn stored_cred_is_retrieved(cred: GssxCred, got: GssxCred)
    requires
        xdr::sized(cred.tree()),
        gpm::is_cred(Some(got), gpm::cred_from(xdr::bytes(cred.tree()))),
    ensures
        gpm::cred_from(xdr::bytes(cred.tree())) is Some,
        same_cred(cred, got),
{
    gpm::kept_cred_comes_back(cred);
    reveal(<GssxCred as Xdr>::tree);
    reveal(<GssxName as Xdr>::tree);
    let (a, b) = (cred.tree(), got.tree());
    assert(*a->Pair_0 == cred.desired_name.tree());
    assert(*b->Pair_0 == got.desired_name.tree());
    assert(cred.desired_name.display_name.tree() == got.desired_name.display_name.tree());
    assert(xdr::array_tree(cred.elements@) == xdr::array_tree(got.elements@));
    assert(xdr::array_tree(cred.elements@)->Array_0.len() == cred.elements@.len());
    assert(xdr::array_tree(got.elements@)->Array_0.len() == got.elements@.len());
}

/// The mechanisms that default local credentials are acquired for: those that
/// the interposer takes over, in their special forms. Without any it is a
/// failure.
pub fn get_local_def_creds(reg: &mut Registry, enabled: bool) -> (r: Result<Vec<Vec<u8>>, Status>)
    requires
        special::well_formed(old(reg)@),
    ensures
        special::well_formed(final(reg)@),
        match r {
            Err(s) => !enabled && s == (GSS_S_FAILURE, 0u32) && final(reg)@ == old(reg)@,
            Ok(mechs) => {
                &&& enabled
                &&& mechs@.len() == oids::taken_over().len()
                &&& forall|i: int|
                    0 <= i < mechs@.len() ==> (#[trigger] mechs@[i])@ == special::special_of(
                        oids::taken_over()[i],
                    )
                &&& final(reg)@ == special::with_mechs(
                    special::with_mechs(old(reg)@, oids::taken_over(), 4),
                    oids::taken_over(),
                    4,
                )
            },
        },
{
    let own = oids::interposer();
    assert(own@ == GSSPROXY_INTERPOSER_OID@);
    match oids::gss_mech_interposer(enabled, Some(own.as_slice())) {
        None => Err((GSS_S_FAILURE, 0)),
        Some(mechs) => {
            assert(octets::views(mechs@).len() == 4);
            assert forall|i: int| 0 <= i < mechs@.len() implies (#[trigger] mechs@[i])@
                == oids::taken_over()[i] by {
                assert(mechs@[i]@ == octets::views(mechs@)[i]);
            }
            reg.init_special_available_mechs(mechs.as_slice());
            match reg.special_available_mechs(mechs.as_slice()) {
                Some(sp) => Ok(sp),
                None => Err((GSS_S_FAILURE, 0)),
            }
        },
    }
}

// ---- default credentials ----

/// What is to be done to obtain default credentials.
#[derive(Debug, Clone, Copy, PartialEq, Eq)]
pub enum DefStep {
    /// Acquire local default credentials.
    Local,
    /// Look for a remote credential in the credential cache.
    Retrieve,
    /// Ask the daemon.
    Remote,
    /// Store the credential that the daemon gave.
    Store,
    /// Nothing more.
    Done(Status),
}

/// The step that a turn of the attempts asks for.
pub open spec fn def_step(turn: Turn) -> DefStep {
    match turn {
        Turn::LocalFirst => DefStep::Local,
        Turn::LocalLast => DefStep::Local,
        Turn::Remote => DefStep::Retrieve,
        Turn::Report(s) => DefStep::Done(s),
    }
}

fn next_def_step(turn: Turn) -> (r: DefStep)
    ensures
        r == def_step(turn),
{
    match turn {
        Turn::LocalFirst => DefStep::Local,
        Turn::LocalLast => DefStep::Local,
        Turn::Remote => DefStep::Retrieve,
        Turn::Report(s) => DefStep::Done(s),
    }
}

/// Default credentials being obtained.
pub struct DefCreds {
    pub attempt: Attempt,
    pub cred: CredHandle,
    /// The credential from the cache that the daemon is asked to work on.
    pub found: Option<GssxCred>,
}

impl DefCreds {
    /// Begin, with a credential handle to fill or a new one.
    pub fn get_def_creds(behavior: Behavior, slot: Option<CredHandle>) -> (r: (DefCreds, DefStep))
        ensures
            r.0.attempt == Attempt::begun(Operation::Defaults, behavior),
            r.0.found is None,
            match slot {
                Some(c) => r.0.cred == c,
                None => {
                    &&& r.0.cred.remote is None && r.0.cred.local == 0
                    &&& r.0.cred.default_creds && r.0.cred.store@.len() == 0
                },
            },
            r.1 == def_step(r.0.attempt.turn),
    {
        let attempt = Attempt::begin(Operation::Defaults, behavior);
        let cred = match slot {
            Some(c) => c,
            None => {
                let c = CredHandle::new(true, None);
                assert(config::props_view(c.store@).len() == 0);
                c
            },
        };
        (DefCreds { attempt, cred, found: None }, next_def_step(attempt.turn))
    }

    /// The local attempt is over, with this local credential.
    pub fn local_done(&mut self, s: Status, local: usize) -> (r: DefStep)
        ensures
            final(self).attempt == old(self).attempt.after_local(s),
            final(self).cred == (CredHandle { local, ..old(self).cred }),
            final(self).found == old(self).found,
            r == def_step(final(self).attempt.turn),
    {
        self.cred.local = local;
        self.attempt.local(s);
        next_def_step(self.attempt.turn)
    }

    /// The credential cache was looked at; a failure there means that nothing
    /// was found.
    pub fn retrieved(&mut self, found: (u32, u32, Option<GssxCred>)) -> (r: DefStep)
        ensures
            final(self).attempt == old(self).attempt,
            final(self).cred == old(self).cred,
            final(self).found == if found.0 == GSS_S_COMPLETE {
                found.2
            } else {
                None
            },
            r == DefStep::Remote,
    {
        self.found = if found.0 == GSS_S_COMPLETE {
            found.2
        } else {
            None
        };
        DefStep::Remote
    }

    /// What the daemon is asked for.
    pub fn remote_arg(&self, cred_usage: i32) -> (r: ArgAcquireCred)
        ensures
            r.call_ctx.blank(),
            xdr::optional_tree(r.input_cred_handle) == xdr::optional_tree(self.found),
            !r.add_cred_to_input_handle,
            r.desired_name is None,
            r.time_req == 0 && r.initiator_time_req == 0 && r.acceptor_time_req == 0,
            r.desired_mechs@.len() == 0,
            r.cred_usage == gpm::usage_on_wire(cred_usage),
            r.options@.len() == 0,
    {
        let none: Vec<Vec<u8>> = Vec::new();
        gpm::acquire_cred_arg(self.found.as_ref(), None, 0, none.as_slice(), cred_usage, false)
    }

    /// The daemon's credential is stored where it differs from the one that was
    /// found.
    pub open spec fn to_store(self, acquired: Option<GssxCred>) -> bool {
        self.found is Some && acquired is Some && !same_creds(self.found, acquired)
    }

    /// The daemon has answered.
    pub fn remote_done(&mut self, acq: AcquireCred) -> (r: DefStep)
        ensures
            final(self).found == old(self).found,
            final(self).cred == if acq.major == GSS_S_COMPLETE {
                CredHandle { remote: acq.cred, ..old(self).cred }
            } else {
                old(self).cred
            },
            if acq.major == GSS_S_COMPLETE && old(self).to_store(acq.cred) {
                r == DefStep::Store && final(self).attempt == old(self).attempt
            } else {
                &&& final(self).attempt == old(self).attempt.after_remote((acq.major, acq.minor))
                &&& r == def_step(final(self).attempt.turn)
            },
    {
        if acq.major == GSS_S_COMPLETE {
            self.cred.remote = acq.cred;
            if self.found.is_some() && self.cred.remote.is_some() && !creds_are_equal(
                self.found.as_ref(),
                self.cred.remote.as_ref(),
            ) {
                return DefStep::Store;
            }
        }
        self.attempt.remote((acq.major, acq.minor));
        next_def_step(self.attempt.turn)
    }

    /// The credential was stored, or could not be: that is then the status of
    /// the remote attempt.
    pub fn stored(&mut self, s: Status) -> (r: DefStep)
        ensures
            final(self).attempt == old(self).attempt.after_remote(s),
            final(self).cred == old(self).cred,
            final(self).found == old(self).found,
            r == def_step(final(self).attempt.turn),
    {
        self.attempt.remote(s);
        next_def_step(self.attempt.turn)
    }
}

} // verus!
