//! What the daemon answers to each procedure.
//!
//! A handler that works with GSSAPI is handed what GSSAPI said; the texts of the
//! statuses in the replies are handed in too.

use vstd::prelude::*;

use crate::consts::{
    EINVAL, GSS_S_CALL_BAD_STRUCTURE, GSS_S_COMPLETE, GSS_S_FAILURE, GSS_S_UNAVAILABLE,
};
use crate::gpm;
use crate::gpm::LOCALNAME_OPTION;
use crate::gssapi::wrap;
use crate::gssx::{
    GssxHandle, GssxMechAttr, GssxMechInfo, GssxName, GssxOption, GssxStatus, Opaque,
};
use crate::octets;
use crate::proc::{
    ArgAcceptSecContext, ArgAcquireCred, ArgExportCred, ArgGetCallContext, ArgGetMic,
    ArgImportAndCanonName, ArgImportCred, ArgIndicateMechs, ArgInitSecContext, ArgReleaseHandle,
    ArgStoreCred, ArgUnwrap, ArgVerifyMic, ArgWrap, ArgWrapSizeLimit, ResAcceptSecContext,
    ResAcquireCred, ResExportCred, ResGetCallContext, ResGetMic, ResImportAndCanonName,
    ResImportCred, ResIndicateMechs, ResInitSecContext, ResReleaseHandle, ResStoreCred, ResUnwrap,
    ResVerifyMic, ResWrap, ResWrapSizeLimit,
};
use crate::server::call::CallContext;
use crate::server::conv;
use crate::server::conv::NameImport;

verus! {

/// A status is a refusal with a major code, its text, and nothing more.
pub open spec fn is_refusal(s: GssxStatus, major: u32, text: Seq<Seq<char>>) -> bool {
    conv::is_status(s, major, 0, Seq::empty(), text, Seq::empty())
}

fn refusal(major: u32, text: &[String]) -> (r: GssxStatus)
    ensures
        is_refusal(r, major, wrap::texts(text@)),
{
    let none: Vec<String> = Vec::new();
    assert(wrap::texts(none@) =~= Seq::empty());
    conv::status_to_gssx(major, 0, None, text, none.as_slice())
}

// ---- listing mechanisms ----

/// What GSSAPI says of a mechanism.
#[derive(Debug)]
pub struct MechDetails {
    pub mech: Vec<u8>,
    pub name_types: Vec<Vec<u8>>,
    pub mech_attrs: Vec<Vec<u8>>,
    pub known_mech_attrs: Vec<Vec<u8>>,
    pub sasl_mech_name: Vec<u8>,
    pub mech_name: Vec<u8>,
    pub mech_desc: Vec<u8>,
}

/// What came of inquiring a mechanism.
#[derive(Debug)]
pub enum MechFacts {
    /// Its name types could not be inquired: it is left out.
    Skipped,
    /// Its attributes or its SASL name could not be inquired: this is the status.
    Failed(u32, u32),
    Known(MechDetails),
}

/// The mechanisms that are known among the first `n`.
pub open spec fn known_mechs(facts: Seq<MechFacts>, n: int) -> Seq<MechDetails>
    decreases n,
{
    if n <= 0 {
        Seq::empty()
    } else {
        let before = known_mechs(facts, n - 1);
        match facts[n - 1] {
            MechFacts::Known(d) => before.push(d),
            _ => before,
        }
    }
}

/// How many mechanisms come before the first failure.
pub open spec fn before_failure(facts: Seq<MechFacts>) -> int
    decreases facts.len(),
{
    if facts.len() == 0 || facts[0] is Failed {
        0
    } else {
        1 + before_failure(facts.skip(1))
    }
}

/// A set of OIDs with the first `n` of some more, in the order in which they are
/// first seen.
pub open spec fn with_oids(set: Seq<Seq<u8>>, more: Seq<Seq<u8>>, n: int) -> Seq<Seq<u8>>
    decreases n,
{
    if n <= 0 {
        set
    } else {
        let before = with_oids(set, more, n - 1);
        if before.contains(more[n - 1]) {
            before
        } else {
            before.push(more[n - 1])
        }
    }
}

/// The attributes of the first `n` mechanisms, each once.
pub open spec fn attr_union(known: Seq<MechDetails>, n: int) -> Seq<Seq<u8>>
    decreases n,
{
    if n <= 0 {
        Seq::empty()
    } else {
        let d = known[n - 1];
        let own = octets::views(d.mech_attrs@);
        let all = octets::views(d.known_mech_attrs@);
        let before = attr_union(known, n - 1);
        with_oids(with_oids(before, own, own.len() as int), all, all.len() as int)
    }
}

/// The wire form of what is known of a mechanism.
pub open spec fn is_mech_info(i: GssxMechInfo, d: MechDetails) -> bool {
    &&& i.mech@ == d.mech@
    &&& opaque_views(i.name_types@) == octets::views(d.name_types@)
    &&& opaque_views(i.mech_attrs@) == octets::views(d.mech_attrs@)
    &&& opaque_views(i.known_mech_attrs@) == octets::views(d.known_mech_attrs@)
    &&& i.cred_options@.len() == 0
    &&& i.sec_ctx_options@.len() == 0
    &&& i.saslname_sasl_mech_name@ == d.sasl_mech_name@
    &&& i.saslname_mech_name@ == d.mech_name@
    &&& i.saslname_mech_desc@ == d.mech_desc@
    &&& i.extensions@.len() == 0
}

/// The byte strings of some opaque values.
pub open spec fn opaque_views(items: Seq<Opaque>) -> Seq<Seq<u8>> {
    Seq::new(items.len(), |i: int| items[i]@)
}

fn oids_to_gssx(oids: &Vec<Vec<u8>>) -> (r: Vec<Opaque>)
    ensures
        opaque_views(r@) == octets::views(oids@),
{
    let mut out: Vec<Opaque> = Vec::new();
    let mut i: usize = 0;
    while i < oids.len()
        invariant
            i <= oids@.len(),
            out@.len() == i,
            forall|j: int| 0 <= j < i ==> (#[trigger] out@[j])@ == oids@[j]@,
        decreases oids@.len() - i,
    {
        out.push(Opaque::from_slice(oids[i].as_slice()));
        i += 1;
    }
    assert(opaque_views(out@) =~= octets::views(oids@));
    out
}

/// What inquiring the mechanisms has given.
pub struct Survey {
    pub mechs: Vec<GssxMechInfo>,
    /// The attributes that occur, to be described.
    pub attrs: Vec<Vec<u8>>,
    /// The status that has ended it, if any.
    pub failed: Option<(u32, u32)>,
}

fn add_oids(set: &mut Vec<Vec<u8>>, more: &Vec<Vec<u8>>)
    ensures
        octets::views(final(set)@) == with_oids(
            octets::views(old(set)@),
            octets::views(more@),
            more@.len() as int,
        ),
{
    let ghost all = octets::views(more@);
    let mut i: usize = 0;
    while i < more.len()
        invariant
            i <= more@.len(),
            all == octets::views(more@),
            octets::views(set@) == with_oids(octets::views(old(set)@), all, i as int),
        decreases more@.len() - i,
    {
        let ghost before = octets::views(set@);
        let oid = more[i].as_slice();
        assert(all[i as int] == oid@);
        if !octets::contains(set.as_slice(), oid) {
            proof {
                assert(!before.contains(oid@)) by {
                    if before.contains(oid@) {
                        let k = choose|k: int| 0 <= k < before.len() && before[k] == oid@;
                        assert(set@[k]@ == oid@);
                    }
                }
            }
            set.push(octets::copy(oid));
            assert(octets::views(set@) =~= before.push(oid@));
        } else {
            proof {
                let k = choose|k: int| 0 <= k < set@.len() && (#[trigger] set@[k])@ == oid@;
                assert(before[k] == oid@);
            }
        }
        i += 1;
    }
}

/// Gather what was inquired of the mechanisms. A mechanism that is skipped is left
/// out, and a failure ends it: what came before is kept.
pub fn survey(facts: &Vec<MechFacts>) -> (r: Survey)
    ensures
        ({
            let n = before_failure(facts@);
            let known = known_mechs(facts@, n);
            &&& r.mechs@.len() == known.len()
            &&& forall|i: int|
                0 <= i < known.len() ==> is_mech_info(#[trigger] r.mechs@[i], known[i])
            &&& octets::views(r.attrs@) == attr_union(known, known.len() as int)
            &&& r.failed == if n < facts@.len() {
                match facts@[n] {
                    MechFacts::Failed(major, minor) => Some((major, minor)),
                    _ => None,
                }
            } else {
                None
            }
        }),
{
    let mut mechs: Vec<GssxMechInfo> = Vec::new();
    let mut attrs: Vec<Vec<u8>> = Vec::new();
    let mut i: usize = 0;
    assert(facts@.skip(0) =~= facts@);
    assert(octets::views(attrs@) =~= Seq::empty());
    while i < facts.len()
        invariant
            i <= facts@.len(),
            before_failure(facts@) == i + before_failure(facts@.skip(i as int)),
            ({
                let known = known_mechs(facts@, i as int);
                &&& mechs@.len() == known.len()
                &&& forall|k: int|
                    0 <= k < known.len() ==> is_mech_info(#[trigger] mechs@[k], known[k])
                &&& octets::views(attrs@) == attr_union(known, known.len() as int)
            }),
        decreases facts@.len() - i,
    {
        let ghost rest = facts@.skip(i as int);
        let ghost known = known_mechs(facts@, i as int);
        assert(rest[0] == facts@[i as int]);
        assert(rest.skip(1) =~= facts@.skip(i + 1));
        match &facts[i] {
            MechFacts::Skipped => {},
            MechFacts::Failed(major, minor) => {
                return Survey { mechs, attrs, failed: Some((*major, *minor)) };
            },
            MechFacts::Known(d) => {
                add_oids(&mut attrs, &d.mech_attrs);
                add_oids(&mut attrs, &d.known_mech_attrs);
                mechs.push(
                    GssxMechInfo {
                        mech: Opaque::from_slice(d.mech.as_slice()),
                        name_types: oids_to_gssx(&d.name_types),
                        mech_attrs: oids_to_gssx(&d.mech_attrs),
                        known_mech_attrs: oids_to_gssx(&d.known_mech_attrs),
                        cred_options: Vec::new(),
                        sec_ctx_options: Vec::new(),
                        saslname_sasl_mech_name: Opaque::from_slice(d.sasl_mech_name.as_slice()),
                        saslname_mech_name: Opaque::from_slice(d.mech_name.as_slice()),
                        saslname_mech_desc: Opaque::from_slice(d.mech_desc.as_slice()),
                        extensions: Vec::new(),
                    },
                );
                proof {
                    let more = known.push(*d);
                    lemma_union_prefix(more, known, known.len() as int);
                }
            },
        }
        i += 1;
    }
    assert(facts@.skip(i as int) =~= Seq::empty());
    Survey { mechs, attrs, failed: None }
}

proof fn lemma_union_prefix(more: Seq<MechDetails>, known: Seq<MechDetails>, n: int)
    requires
        n <= known.len(),
        known.is_prefix_of(more),
    ensures
        attr_union(more, n) == attr_union(known, n),
    decreases n,
{
    if n > 0 {
        lemma_union_prefix(more, known, n - 1);
    }
}

proof fn lemma_with_oids_once(set: Seq<Seq<u8>>, more: Seq<Seq<u8>>, n: int)
    requires
        set.no_duplicates(),
        n <= more.len(),
    ensures
        with_oids(set, more, n).no_duplicates(),
    decreases n,
{
    if n > 0 {
        lemma_with_oids_once(set, more, n - 1);
        let before = with_oids(set, more, n - 1);
        let after = with_oids(set, more, n);
        if !before.contains(more[n - 1]) {
            assert forall|a: int, b: int|
                0 <= a < after.len() && 0 <= b < after.len() && a != b implies after[a]
                != after[b] by {
                if a < before.len() {
                    assert(before.contains(before[a]));
                }
                if b < before.len() {
                    assert(before.contains(before[b]));
                }
            }
        }
    }
}

/// Every attribute is described once, however many mechanisms have it.
pub proof fn attributes_stand_once(known: Seq<MechDetails>, n: int)
    requires
        0 <= n <= known.len(),
    ensures
        attr_union(known, n).no_duplicates(),
    decreases n,
{
    if n > 0 {
        attributes_stand_once(known, n - 1);
        let d = known[n - 1];
        let own = octets::views(d.mech_attrs@);
        let all = octets::views(d.known_mech_attrs@);
        lemma_with_oids_once(attr_union(known, n - 1), own, own.len() as int);
        lemma_with_oids_once(
            with_oids(attr_union(known, n - 1), own, own.len() as int),
            all,
            all.len() as int,
        );
    }
}

/// What came of asking for the description of an attribute.
#[derive(Debug)]
pub enum AttrFacts {
    Failed(u32, u32),
    Known { attr: Vec<u8>, name: Vec<u8>, short_desc: Vec<u8>, long_desc: Vec<u8> },
}

/// How many descriptions come before the first failure.
pub open spec fn described(facts: Seq<AttrFacts>) -> int
    decreases facts.len(),
{
    if facts.len() == 0 || facts[0] is Failed {
        0
    } else {
        1 + described(facts.skip(1))
    }
}

/// The wire form of a description.
pub open spec fn is_mech_attr(a: GssxMechAttr, f: AttrFacts) -> bool {
    f matches AttrFacts::Known { attr, name, short_desc, long_desc } && {
        &&& a.attr@ == attr@
        &&& a.name@ == name@
        &&& a.short_desc@ == short_desc@
        &&& a.long_desc@ == long_desc@
        &&& a.extensions@.len() == 0
    }
}

/// The status of listing the mechanisms: the first failure, if any.
pub open spec fn indicate_status(failed: Option<(u32, u32)>, attrs: Seq<AttrFacts>) -> (u32, u32) {
    match failed {
        Some(s) => s,
        None => if described(attrs) < attrs.len() {
            match attrs[described(attrs)] {
                AttrFacts::Failed(major, minor) => (major, minor),
                _ => (GSS_S_COMPLETE, 0),
            }
        } else {
            (GSS_S_COMPLETE, 0)
        },
    }
}

/// The status of listing the mechanisms, whose text is wanted.
pub fn mechs_status(survey: &Survey, attrs: &Vec<AttrFacts>) -> (r: (u32, u32))
    ensures
        r == indicate_status(survey.failed, attrs@),
{
    match survey.failed {
        Some(s) => {
            return s;
        },
        None => {},
    }
    let mut i: usize = 0;
    assert(attrs@.skip(0) =~= attrs@);
    while i < attrs.len()
        invariant
            i <= attrs@.len(),
            survey.failed is None,
            described(attrs@) == i + described(attrs@.skip(i as int)),
        decreases attrs@.len() - i,
    {
        assert(attrs@.skip(i as int)[0] == attrs@[i as int]);
        assert(attrs@.skip(i as int).skip(1) =~= attrs@.skip(i + 1));
        match &attrs[i] {
            AttrFacts::Failed(major, minor) => {
                return (*major, *minor);
            },
            _ => {},
        }
        i += 1;
    }
    assert(attrs@.skip(i as int) =~= Seq::empty());
    (GSS_S_COMPLETE, 0)
}

/// The mechanisms that GSSAPI has, with the descriptions of their attributes. A
/// failure leaves what was found before it; no attribute is described where a
/// mechanism has failed.
pub fn indicate_mechs(
    _ctx: &CallContext,
    _arg: &ArgIndicateMechs,
    survey: Survey,
    attrs: &Vec<AttrFacts>,
    major_text: &[String],
    minor_text: &[String],
) -> (r: ResIndicateMechs)
    ensures
        ({
            let (major, minor) = indicate_status(survey.failed, attrs@);
            conv::is_status(
                r.status,
                major,
                minor,
                Seq::empty(),
                wrap::texts(major_text@),
                wrap::texts(minor_text@),
            )
        }),
        r.mechs == survey.mechs,
        ({
            let n = if survey.failed is Some {
                0
            } else {
                described(attrs@)
            };
            &&& r.mech_attr_descs@.len() == n
            &&& forall|i: int|
                0 <= i < n ==> is_mech_attr(#[trigger] r.mech_attr_descs@[i], attrs@[i])
        }),
        r.supported_extensions@.len() == 0,
        r.options@.len() == 0,
{
    let (major, minor) = mechs_status(&survey, attrs);
    let status = conv::status_to_gssx(major, minor, None, major_text, minor_text);
    let mut descs: Vec<GssxMechAttr> = Vec::new();
    if survey.failed.is_none() {
        let mut i: usize = 0;
        let mut going = true;
        assert(attrs@.skip(0) =~= attrs@);
        while going && i < attrs.len()
            invariant
                i <= attrs@.len(),
                described(attrs@) == i + if going {
                    described(attrs@.skip(i as int))
                } else {
                    0
                },
                descs@.len() == i,
                forall|k: int| 0 <= k < i ==> is_mech_attr(#[trigger] descs@[k], attrs@[k]),
            decreases attrs@.len() - i + if going {
                1int
            } else {
                0
            },
        {
            assert(attrs@.skip(i as int)[0] == attrs@[i as int]);
            assert(attrs@.skip(i as int).skip(1) =~= attrs@.skip(i + 1));
            match &attrs[i] {
                AttrFacts::Failed(_, _) => {
                    going = false;
                },
                AttrFacts::Known { attr, name, short_desc, long_desc } => {
                    descs.push(
                        GssxMechAttr {
                            attr: Opaque::from_slice(attr.as_slice()),
                            name: Opaque::from_slice(name.as_slice()),
                            short_desc: Opaque::from_slice(short_desc.as_slice()),
                            long_desc: Opaque::from_slice(long_desc.as_slice()),
                            extensions: Vec::new(),
                        },
                    );
                    i += 1;
                },
            }
        }
        assert(going ==> attrs@.skip(i as int) =~= Seq::empty());
    }
    ResIndicateMechs {
        status,
        mechs: survey.mechs,
        mech_attr_descs: descs,
        supported_extensions: Vec::new(),
        options: Vec::new(),
    }
}

// ---- importing names ----

/// What a step of importing a name asks for.
#[derive(Debug)]
pub enum NameTask {
    /// Import this.
    Import(NameImport),
    /// Find the local name of the imported name, for this mechanism.
    Localname(Option<Vec<u8>>),
    /// Canonicalize the imported name for this mechanism.
    Canonicalize(Vec<u8>),
    /// Say what the name is.
    Describe,
    /// This is the result.
    Done(NameOutcome),
}

/// The result of importing a name, before its status is put into words.
#[derive(Debug)]
pub struct NameOutcome {
    pub major: u32,
    pub minor: u32,
    pub output_name: Option<GssxName>,
    pub localname: Option<Vec<u8>>,
}

/// A failure.
pub open spec fn is_failed(o: NameOutcome, major: u32, minor: u32) -> bool {
    &&& o.major == major && o.minor == minor
    &&& o.output_name is None && o.localname is None
}

fn failed(major: u32, minor: u32) -> (r: NameTask)
    ensures
        r matches NameTask::Done(o) && is_failed(o, major, minor),
{
    NameTask::Done(NameOutcome { major, minor, output_name: None, localname: None })
}

/// Begin to import a name, which must be displayable or exported.
pub fn begin_import(arg: &ArgImportAndCanonName) -> (r: NameTask)
    ensures
        if arg.input_name.display_name@.len() == 0 && arg.input_name.exported_name@.len() == 0 {
            r matches NameTask::Done(o) && is_failed(o, GSS_S_FAILURE, EINVAL as u32)
        } else {
            r matches NameTask::Import(n) && crate::server::creds::is_wire_name(n, arg.input_name)
        },
{
    if arg.input_name.display_name.is_empty() && arg.input_name.exported_name.is_empty() {
        return failed(GSS_S_FAILURE, EINVAL as u32);
    }
    NameTask::Import(conv::gssx_to_name(&arg.input_name))
}

/// The mechanism of a request, where it has one.
pub open spec fn wanted_mech(arg: ArgImportAndCanonName) -> Option<Seq<u8>> {
    if arg.mech@.len() > 0 {
        Some(arg.mech@)
    } else {
        None
    }
}

/// An optional byte string is this.
pub open spec fn is_bytes(v: Option<Vec<u8>>, b: Option<Seq<u8>>) -> bool {
    match b {
        Some(x) => v matches Some(y) && y@ == x,
        None => v is None,
    }
}

/// After the import: the local name is looked for where that is asked for, and
/// otherwise the name is canonicalized where there is a mechanism.
pub fn name_imported(arg: &ArgImportAndCanonName, imported: Result<(), (u32, u32)>) -> (r: NameTask)
    ensures
        match imported {
            Err((major, minor)) => r matches NameTask::Done(o) && is_failed(o, major, minor),
            Ok(_) => if gpm::option_value(arg.options@, LOCALNAME_OPTION@) is Some {
                r matches NameTask::Localname(m) && is_bytes(m, wanted_mech(*arg))
            } else {
                match wanted_mech(*arg) {
                    Some(x) => r matches NameTask::Canonicalize(m) && m@ == x,
                    None => r is Describe,
                }
            },
        },
{
    match imported {
        Err((major, minor)) => {
            return failed(major, minor);
        },
        Ok(_) => {},
    }
    let mech = if arg.mech.is_empty() {
        None
    } else {
        Some(octets::copy(arg.mech.as_slice()))
    };
    let key = LOCALNAME_OPTION;
    if gpm::find_option(arg.options.as_slice(), key.as_slice()).is_some() {
        return NameTask::Localname(mech);
    }
    match mech {
        Some(m) => NameTask::Canonicalize(m),
        None => NameTask::Describe,
    }
}

/// After the local name was looked for.
pub fn localname_found(found: Result<Vec<u8>, (u32, u32)>) -> (r: NameTask)
    ensures
        match found {
            Err((major, minor)) => r matches NameTask::Done(o) && is_failed(o, major, minor),
            Ok(name) => r matches NameTask::Done(o) && {
                &&& o.major == GSS_S_COMPLETE && o.minor == 0
                &&& o.output_name is None && o.localname == Some(name)
            },
        },
{
    match found {
        Err((major, minor)) => failed(major, minor),
        Ok(name) => NameTask::Done(
            NameOutcome {
                major: GSS_S_COMPLETE,
                minor: 0,
                output_name: None,
                localname: Some(name),
            },
        ),
    }
}

/// After the name was canonicalized.
pub fn name_canonicalized(done: Result<(), (u32, u32)>) -> (r: NameTask)
    ensures
        match done {
            Err((major, minor)) => r matches NameTask::Done(o) && is_failed(o, major, minor),
            Ok(_) => r is Describe,
        },
{
    match done {
        Err((major, minor)) => failed(major, minor),
        Ok(_) => NameTask::Describe,
    }
}

/// After the name was described.
pub fn name_described(name: Result<GssxName, (u32, u32)>) -> (r: NameTask)
    ensures
        match name {
            Err((major, minor)) => r matches NameTask::Done(o) && is_failed(o, major, minor),
            Ok(n) => r matches NameTask::Done(o) && {
                &&& o.major == GSS_S_COMPLETE && o.minor == 0
                &&& o.output_name == Some(n) && o.localname is None
            },
        },
{
    match name {
        Err((major, minor)) => failed(major, minor),
        Ok(n) => NameTask::Done(
            NameOutcome {
                major: GSS_S_COMPLETE,
                minor: 0,
                output_name: Some(n),
                localname: None,
            },
        ),
    }
}

/// The reply to a request to import a name: the status, for the mechanism of the
/// request, and the name or the local name.
pub fn import_and_canon_name(
    _ctx: &CallContext,
    arg: &ArgImportAndCanonName,
    outcome: NameOutcome,
    major_text: &[String],
    minor_text: &[String],
) -> (r: ResImportAndCanonName)
    ensures
        conv::is_status(
            r.status,
            outcome.major,
            outcome.minor,
            arg.mech@,
            wrap::texts(major_text@),
            wrap::texts(minor_text@),
        ),
        r.output_name == outcome.output_name,
        match outcome.localname {
            Some(n) => {
                &&& r.options@.len() == 1
                &&& r.options@[0].option@ == LOCALNAME_OPTION@
                &&& r.options@[0].value@ == n@
            },
            None => r.options@.len() == 0,
        },
{
    let mech = if arg.mech.is_empty() {
        assert(arg.mech@ =~= Seq::empty());
        None
    } else {
        Some(arg.mech.as_slice())
    };
    let status = conv::status_to_gssx(outcome.major, outcome.minor, mech, major_text, minor_text);
    let mut options: Vec<GssxOption> = Vec::new();
    match outcome.localname {
        Some(n) => {
            let key = LOCALNAME_OPTION;
            options.push(
                GssxOption { option: Opaque::from_slice(key.as_slice()), value: Opaque::new(n) },
            );
        },
        None => {},
    }
    ResImportAndCanonName { status, output_name: outcome.output_name, options }
}

// ---- releasing handles ----

/// The daemon keeps nothing for a handle: releasing one that it knows is
/// unavailable, and one that it does not know is badly structured.
pub open spec fn release_status(h: GssxHandle) -> u32 {
    match h {
        GssxHandle::SecCtx(_) => GSS_S_UNAVAILABLE,
        GssxHandle::Cred(_) => GSS_S_UNAVAILABLE,
        _ => GSS_S_CALL_BAD_STRUCTURE,
    }
}

/// The major status of releasing a handle.
pub fn release_major(h: &GssxHandle) -> (r: u32)
    ensures
        r == release_status(*h),
{
    match h {
        GssxHandle::SecCtx(_) => GSS_S_UNAVAILABLE,
        GssxHandle::Cred(_) => GSS_S_UNAVAILABLE,
        _ => GSS_S_CALL_BAD_STRUCTURE,
    }
}

/// The reply to a request to release a handle.
pub fn release_handle(_ctx: &CallContext, arg: &ArgReleaseHandle, text: &[String]) -> (r:
    ResReleaseHandle)
    ensures
        is_refusal(r.status, release_status(arg.cred_handle), wrap::texts(text@)),
{
    ResReleaseHandle { status: refusal(release_major(&arg.cred_handle), text) }
}

// ---- the other procedures ----

/// This procedure does nothing: its result is empty, and a success.
pub fn get_call_context(_ctx: &CallContext, _arg: &ArgGetCallContext) -> (r: ResGetCallContext)
    ensures
        r.blank(),
{
    ResGetCallContext::default()
}

/// This procedure does nothing: its result is empty, and a success.
pub fn export_cred(_ctx: &CallContext, _arg: &ArgExportCred) -> (r: ResExportCred)
    ensures
        r.blank(),
{
    ResExportCred::default()
}

/// This procedure does nothing: its result is empty, and a success.
pub fn import_cred(_ctx: &CallContext, _arg: &ArgImportCred) -> (r: ResImportCred)
    ensures
        r.blank(),
{
    ResImportCred::default()
}

/// This procedure does nothing: its result is empty, and a success.
pub fn store_cred(_ctx: &CallContext, _arg: &ArgStoreCred) -> (r: ResStoreCred)
    ensures
        r.blank(),
{
    ResStoreCred::default()
}

/// The result is a failure, and nothing else.
pub open spec fn acquire_cred_failed(r: ResAcquireCred, failure_text: Seq<Seq<char>>) -> bool {
    &&& is_refusal(r.status, GSS_S_FAILURE, failure_text)
    &&& r.output_cred_handle is None
    &&& r.options@.len() == 0
}

/// This procedure is not supported.
pub fn acquire_cred(
    _ctx: &CallContext,
    _arg: &ArgAcquireCred,
    failure_text: &[String],
) -> (r: ResAcquireCred)
    ensures
        acquire_cred_failed(r, wrap::texts(failure_text@)),
{
    ResAcquireCred {
        status: refusal(GSS_S_FAILURE, failure_text),
        output_cred_handle: None,
        options: Vec::new(),
    }
}

/// The result is a failure, and nothing else.
pub open spec fn init_sec_context_failed(
    r: ResInitSecContext,
    failure_text: Seq<Seq<char>>,
) -> bool {
    &&& is_refusal(r.status, GSS_S_FAILURE, failure_text)
    &&& r.context_handle is None
    &&& r.output_token is None
    &&& r.options@.len() == 0
}

/// This procedure is not supported.
pub fn init_sec_context(
    _ctx: &CallContext,
    _arg: &ArgInitSecContext,
    failure_text: &[String],
) -> (r: ResInitSecContext)
    ensures
        init_sec_context_failed(r, wrap::texts(failure_text@)),
{
    ResInitSecContext {
        status: refusal(GSS_S_FAILURE, failure_text),
        context_handle: None,
        output_token: None,
        options: Vec::new(),
    }
}

/// The result is a failure, and nothing else.
pub open spec fn accept_sec_context_failed(
    r: ResAcceptSecContext,
    failure_text: Seq<Seq<char>>,
) -> bool {
    &&& is_refusal(r.status, GSS_S_FAILURE, failure_text)
    &&& r.context_handle is None
    &&& r.output_token is None
    &&& r.delegated_cred_handle is None
    &&& r.options@.len() == 0
}

/// This procedure is not supported.
pub fn accept_sec_context(
    _ctx: &CallContext,
    _arg: &ArgAcceptSecContext,
    failure_text: &[String],
) -> (r: ResAcceptSecContext)
    ensures
        accept_sec_context_failed(r, wrap::texts(failure_text@)),
{
    ResAcceptSecContext {
        status: refusal(GSS_S_FAILURE, failure_text),
        context_handle: None,
        output_token: None,
        delegated_cred_handle: None,
        options: Vec::new(),
    }
}

/// The result is a failure, and nothing else.
pub open spec fn get_mic_failed(r: ResGetMic, failure_text: Seq<Seq<char>>) -> bool {
    &&& is_refusal(r.status, GSS_S_FAILURE, failure_text)
    &&& r.context_handle is None
    &&& r.token_buffer@.len() == 0
    &&& r.qop_state is None
}

/// This procedure is not supported.
pub fn get_mic(_ctx: &CallContext, _arg: &ArgGetMic, failure_text: &[String]) -> (r: ResGetMic)
    ensures
        get_mic_failed(r, wrap::texts(failure_text@)),
{
    ResGetMic {
        status: refusal(GSS_S_FAILURE, failure_text),
        context_handle: None,
        token_buffer: Opaque::default(),
        qop_state: None,
    }
}

/// The result is a failure, and nothing else.
pub open spec fn verify_mic_failed(r: ResVerifyMic, failure_text: Seq<Seq<char>>) -> bool {
    &&& is_refusal(r.status, GSS_S_FAILURE, failure_text)
    &&& r.context_handle is None
    &&& r.qop_state is None
}

/// This procedure is not supported.
pub fn verify_mic(
    _ctx: &CallContext,
    _arg: &ArgVerifyMic,
    failure_text: &[String],
) -> (r: ResVerifyMic)
    ensures
        verify_mic_failed(r, wrap::texts(failure_text@)),
{
    ResVerifyMic {
        status: refusal(GSS_S_FAILURE, failure_text),
        context_handle: None,
        qop_state: None,
    }
}

/// The result is a failure, and nothing else.
pub open spec fn wrap_msg_failed(r: ResWrap, failure_text: Seq<Seq<char>>) -> bool {
    &&& is_refusal(r.status, GSS_S_FAILURE, failure_text)
    &&& r.context_handle is None
    &&& r.token_buffer@.len() == 0
    &&& r.conf_state is None
    &&& r.qop_state is None
}

/// This procedure is not supported.
pub fn wrap_msg(_ctx: &CallContext, _arg: &ArgWrap, failure_text: &[String]) -> (r: ResWrap)
    ensures
        wrap_msg_failed(r, wrap::texts(failure_text@)),
{
    ResWrap {
        status: refusal(GSS_S_FAILURE, failure_text),
        context_handle: None,
        token_buffer: Vec::new(),
        conf_state: None,
        qop_state: None,
    }
}

/// The result is a failure, and nothing else.
pub open spec fn unwrap_msg_failed(r: ResUnwrap, failure_text: Seq<Seq<char>>) -> bool {
    &&& is_refusal(r.status, GSS_S_FAILURE, failure_text)
    &&& r.context_handle is None
    &&& r.message_buffer@.len() == 0
    &&& r.conf_state is None
    &&& r.qop_state is None
}

/// This procedure is not supported.
pub fn unwrap_msg(_ctx: &CallContext, _arg: &ArgUnwrap, failure_text: &[String]) -> (r: ResUnwrap)
    ensures
        unwrap_msg_failed(r, wrap::texts(failure_text@)),
{
    ResUnwrap {
        status: refusal(GSS_S_FAILURE, failure_text),
        context_handle: None,
        message_buffer: Vec::new(),
        conf_state: None,
        qop_state: None,
    }
}

/// The result is a failure, and nothing else.
pub open spec fn wrap_size_limit_failed(r: ResWrapSizeLimit, failure_text: Seq<Seq<char>>) -> bool {
    &&& is_refusal(r.status, GSS_S_FAILURE, failure_text)
    &&& r.max_input_size == 0
}

/// This procedure is not supported.
pub fn wrap_size_limit(
    _ctx: &CallContext,
    _arg: &ArgWrapSizeLimit,
    failure_text: &[String],
) -> (r: ResWrapSizeLimit)
    ensures
        wrap_size_limit_failed(r, wrap::texts(failure_text@)),
{
    ResWrapSizeLimit { status: refusal(GSS_S_FAILURE, failure_text), max_input_size: 0 }
}

} // verus!
