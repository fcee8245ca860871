//! Inquiries about mechanisms, and status texts.
//!
//! The daemon's answers come from a table of its mechanisms, which is fetched
//! once.

use vstd::prelude::*;

use crate::consts::{
    EIO, GSS_C_MECH_CODE, GSS_S_BAD_MECH, GSS_S_BAD_STATUS, GSS_S_COMPLETE, GSS_S_FAILURE,
    GSS_S_UNAVAILABLE,
};
use crate::gpm;
use crate::gssx::{GssxMechInfo, GssxStatus, Opaque};
use crate::interposer::attempt::{Attempt, Operation, Status, Turn};
use crate::interposer::behavior::Behavior;
use crate::interposer::error;
use crate::octets;
use crate::proc::ResIndicateMechs;

verus! {

// ---- the table of mechanisms ----

/// What is known of a mechanism.
#[derive(Debug)]
pub struct MechInfo {
    pub mech: Vec<u8>,
    pub name_types: Vec<Vec<u8>>,
    pub mech_attrs: Vec<Vec<u8>>,
    pub known_mech_attrs: Vec<Vec<u8>>,
    pub saslname_sasl_mech_name: Vec<u8>,
    pub saslname_mech_name: Vec<u8>,
    pub saslname_mech_desc: Vec<u8>,
}

/// The mechanisms of the daemon, where it could be asked.
#[derive(Debug)]
pub struct MechCache {
    pub ok: bool,
    pub info: Vec<MechInfo>,
}

/// The byte strings of some opaque values.
pub open spec fn opaque_views(items: Seq<Opaque>) -> Seq<Seq<u8>> {
    Seq::new(items.len(), |i: int| items[i]@)
}

/// An entry of the table is what the daemon said of a mechanism.
pub open spec fn is_info(i: MechInfo, m: GssxMechInfo) -> bool {
    &&& i.mech@ == m.mech@
    &&& octets::views(i.name_types@) == opaque_views(m.name_types@)
    &&& octets::views(i.mech_attrs@) == opaque_views(m.mech_attrs@)
    &&& octets::views(i.known_mech_attrs@) == opaque_views(m.known_mech_attrs@)
    &&& i.saslname_sasl_mech_name@ == m.saslname_sasl_mech_name@
    &&& i.saslname_mech_name@ == m.saslname_mech_name@
    &&& i.saslname_mech_desc@ == m.saslname_mech_desc@
}

fn copy_opaques(items: &Vec<Opaque>) -> (r: Vec<Vec<u8>>)
    ensures
        octets::views(r@) == opaque_views(items@),
{
    let mut out: Vec<Vec<u8>> = Vec::new();
    let mut i: usize = 0;
    while i < items.len()
        invariant
            i <= items@.len(),
            out@.len() == i,
            forall|j: int| 0 <= j < i ==> (#[trigger] out@[j])@ == items@[j]@,
        decreases items@.len() - i,
    {
        out.push(octets::copy(items[i].as_slice()));
        i += 1;
    }
    assert(octets::views(out@) =~= opaque_views(items@));
    out
}

/// The table from the daemon's answer; a failure leaves none.
pub fn cache(answer: &(u32, u32, ResIndicateMechs)) -> (r: MechCache)
    ensures
        r.ok == (answer.0 == GSS_S_COMPLETE),
        if r.ok {
            &&& r.info@.len() == answer.2.mechs@.len()
            &&& forall|i: int|
                0 <= i < r.info@.len() ==> is_info(#[trigger] r.info@[i], answer.2.mechs@[i])
        } else {
            r.info@.len() == 0
        },
{
    let mut info: Vec<MechInfo> = Vec::new();
    if answer.0 != GSS_S_COMPLETE {
        return MechCache { ok: false, info };
    }
    let mechs = &answer.2.mechs;
    let mut i: usize = 0;
    while i < mechs.len()
        invariant
            i <= mechs@.len(),
            info@.len() == i,
            forall|j: int| 0 <= j < i ==> is_info(#[trigger] info@[j], mechs@[j]),
        decreases mechs@.len() - i,
    {
        let m = &mechs[i];
        info.push(
            MechInfo {
                mech: octets::copy(m.mech.as_slice()),
                name_types: copy_opaques(&m.name_types),
                mech_attrs: copy_opaques(&m.mech_attrs),
                known_mech_attrs: copy_opaques(&m.known_mech_attrs),
                saslname_sasl_mech_name: octets::copy(m.saslname_sasl_mech_name.as_slice()),
                saslname_mech_name: octets::copy(m.saslname_mech_name.as_slice()),
                saslname_mech_desc: octets::copy(m.saslname_mech_desc.as_slice()),
            },
        );
        i += 1;
    }
    MechCache { ok: true, info }
}

/// The place of the first entry for a mechanism.
pub open spec fn first_entry(info: Seq<MechInfo>, mech: Seq<u8>, i: int) -> bool {
    &&& 0 <= i < info.len()
    &&& info[i].mech@ == mech
    &&& forall|j: int| 0 <= j < i ==> (#[trigger] info[j]).mech@ != mech
}

/// The table has an entry for a mechanism.
pub open spec fn has_entry(info: Seq<MechInfo>, mech: Seq<u8>) -> bool {
    exists|i: int| #[trigger] first_entry(info, mech, i)
}

/// The status of looking a mechanism up: an I/O error where the daemon could not
/// be asked, and a bad mechanism where it has no such one.
pub open spec fn lookup_status(c: MechCache, mech: Option<Seq<u8>>) -> Status {
    if !c.ok {
        (GSS_S_FAILURE, EIO as u32)
    } else if mech is Some && has_entry(c.info@, mech->Some_0) {
        (GSS_S_COMPLETE, 0)
    } else {
        (GSS_S_BAD_MECH, 0)
    }
}

/// Look a mechanism up: its first entry.
pub fn find_mech<'a>(c: &'a MechCache, mech_type: Option<&[u8]>) -> (r: Result<
    &'a MechInfo,
    Status,
>)
    ensures
        match r {
            Ok(info) => {
                &&& lookup_status(*c, crate::interposer::oids::oid_view(mech_type)) == (
                    GSS_S_COMPLETE,
                    0u32,
                )
                &&& exists|i: int|
                    first_entry(c.info@, mech_type->Some_0@, i) && *info == #[trigger] c.info@[i]
            },
            Err(s) => {
                &&& s == lookup_status(*c, crate::interposer::oids::oid_view(mech_type))
                &&& s.0 != GSS_S_COMPLETE
            },
        },
{
    if !c.ok {
        return Err((GSS_S_FAILURE, EIO as u32));
    }
    let mech = match mech_type {
        Some(m) => m,
        None => {
            return Err((GSS_S_BAD_MECH, 0));
        },
    };
    let mut i: usize = 0;
    while i < c.info.len()
        invariant
            i <= c.info@.len(),
            c.ok,
            mech_type == Some(mech),
            forall|j: int| 0 <= j < i ==> (#[trigger] c.info@[j]).mech@ != mech@,
        decreases c.info@.len() - i,
    {
        if octets::same(c.info[i].mech.as_slice(), mech) {
            let info = &c.info[i];
            assert(first_entry(c.info@, mech@, i as int) && *info == c.info@[i as int]);
            assert(has_entry(c.info@, mech@));
            return Ok(info);
        }
        i += 1;
    }
    Err((GSS_S_BAD_MECH, 0))
}

// ---- inquiries ----

/// What a step of an inquiry asks for.
#[derive(Debug, Clone, Copy, PartialEq, Eq)]
pub enum MechStep {
    /// Ask the local mechanism, under its special form.
    Local,
    /// Look the mechanism up in the table.
    Remote,
    /// Report this major and this minor status.
    Done(u32, u32),
}

/// The step that a turn of the attempts asks for.
pub open spec fn mech_step(turn: Turn) -> MechStep {
    match turn {
        Turn::Remote => MechStep::Remote,
        Turn::Report(s) => MechStep::Done(s.0, error::mapped(s.1)),
        _ => MechStep::Local,
    }
}

fn next_mech_step(turn: Turn) -> (r: MechStep)
    ensures
        r == mech_step(turn),
{
    match turn {
        Turn::Remote => MechStep::Remote,
        Turn::Report(s) => MechStep::Done(s.0, error::map_error(s.1)),
        _ => MechStep::Local,
    }
}

/// An inquiry about a mechanism: for its name types, its attributes or its SASL
/// name.
#[derive(Debug, Clone, Copy)]
pub struct MechInquiry {
    pub attempt: Attempt,
}

impl MechInquiry {
    pub fn begin(behavior: Behavior) -> (r: (MechInquiry, MechStep))
        ensures
            r.0.attempt == Attempt::begun(Operation::Inquire, behavior),
            r.1 == mech_step(r.0.attempt.turn),
    {
        let attempt = Attempt::begin(Operation::Inquire, behavior);
        (MechInquiry { attempt }, next_mech_step(attempt.turn))
    }

    /// The local mechanism has answered.
    pub fn local_done(&mut self, s: Status) -> (r: MechStep)
        ensures
            final(self).attempt == old(self).attempt.after_local(s),
            r == mech_step(final(self).attempt.turn),
    {
        self.attempt.local(s);
        next_mech_step(self.attempt.turn)
    }

    fn remote_done(&mut self, s: Status) -> (r: MechStep)
        ensures
            final(self).attempt == old(self).attempt.after_remote(s),
            r == mech_step(final(self).attempt.turn),
    {
        self.attempt.remote(s);
        next_mech_step(self.attempt.turn)
    }

    /// The name types of a mechanism, from the table.
    pub fn gssi_inquire_names_for_mech(&mut self, c: &MechCache, mech_type: Option<&[u8]>) -> (r: (
        MechStep,
        Option<Vec<Vec<u8>>>,
    ))
        ensures
            ({
                let s = lookup_status(*c, crate::interposer::oids::oid_view(mech_type));
                &&& final(self).attempt == old(self).attempt.after_remote(s)
                &&& r.0 == mech_step(final(self).attempt.turn)
                &&& r.1 is Some == (s.0 == GSS_S_COMPLETE)
                &&& r.1 matches Some(names) ==> exists|i: int|
                    first_entry(c.info@, mech_type->Some_0@, i) && octets::views(names@)
                        == octets::views((#[trigger] c.info@[i]).name_types@)
            }),
    {
        match find_mech(c, mech_type) {
            Ok(info) => {
                let step = self.remote_done((GSS_S_COMPLETE, 0));
                (step, Some(octets::copy_all(info.name_types.as_slice())))
            },
            Err(s) => {
                let step = self.remote_done(s);
                (step, None)
            },
        }
    }

    /// The attributes of a mechanism and those that are known, from the table.
    pub fn gssi_inquire_attrs_for_mech(&mut self, c: &MechCache, mech: Option<&[u8]>) -> (r: (
        MechStep,
        Option<(Vec<Vec<u8>>, Vec<Vec<u8>>)>,
    ))
        ensures
            ({
                let s = lookup_status(*c, crate::interposer::oids::oid_view(mech));
                &&& final(self).attempt == old(self).attempt.after_remote(s)
                &&& r.0 == mech_step(final(self).attempt.turn)
                &&& r.1 is Some == (s.0 == GSS_S_COMPLETE)
                &&& r.1 matches Some(attrs) ==> exists|i: int|
                    first_entry(c.info@, mech->Some_0@, i) && octets::views(attrs.0@)
                        == octets::views((#[trigger] c.info@[i]).mech_attrs@) && octets::views(
                        attrs.1@,
                    ) == octets::views(c.info@[i].known_mech_attrs@)
            }),
    {
        match find_mech(c, mech) {
            Ok(info) => {
                let step = self.remote_done((GSS_S_COMPLETE, 0));
                let attrs = octets::copy_all(info.mech_attrs.as_slice());
                let known = octets::copy_all(info.known_mech_attrs.as_slice());
                (step, Some((attrs, known)))
            },
            Err(s) => {
                let step = self.remote_done(s);
                (step, None)
            },
        }
    }

    /// The SASL name, the name and the description of a mechanism, from the
    /// table.
    pub fn gssi_inquire_saslname_for_mech(
        &mut self,
        c: &MechCache,
        desired_mech: Option<&[u8]>,
    ) -> (r: (MechStep, Option<(Vec<u8>, Vec<u8>, Vec<u8>)>))
        ensures
            ({
                let s = lookup_status(*c, crate::interposer::oids::oid_view(desired_mech));
                &&& final(self).attempt == old(self).attempt.after_remote(s)
                &&& r.0 == mech_step(final(self).attempt.turn)
                &&& r.1 is Some == (s.0 == GSS_S_COMPLETE)
                &&& r.1 matches Some(n) ==> exists|i: int|
                    first_entry(c.info@, desired_mech->Some_0@, i) && n.0@ == (
                    #[trigger] c.info@[i]).saslname_sasl_mech_name@ && n.1@
                        == c.info@[i].saslname_mech_name@ && n.2@
                        == c.info@[i].saslname_mech_desc@
            }),
    {
        match find_mech(c, desired_mech) {
            Ok(info) => {
                let step = self.remote_done((GSS_S_COMPLETE, 0));
                (
                    step,
                    Some(
                        (
                            octets::copy(info.saslname_sasl_mech_name.as_slice()),
                            octets::copy(info.saslname_mech_name.as_slice()),
                            octets::copy(info.saslname_mech_desc.as_slice()),
                        ),
                    ),
                )
            },
            Err(s) => {
                let step = self.remote_done(s);
                (step, None)
            },
        }
    }
}

/// Listing mechanisms is not for the interposer.
pub fn gssi_indicate_mechs() -> (r: Status)
    ensures
        r == (GSS_S_FAILURE, 0u32),
{
    (GSS_S_FAILURE, 0)
}

/// A mechanism cannot be found by its SASL name.
pub fn gssi_inquire_mech_for_saslname() -> (r: u32)
    ensures
        r == GSS_S_UNAVAILABLE,
{
    GSS_S_UNAVAILABLE
}

// ---- status texts ----

/// How the text of a status is found.
#[derive(Debug)]
pub enum StatusText {
    /// It is this, and there is no more.
    Text(Vec<u8>),
    /// The local mechglue is asked about this minor status.
    Local(u32),
    /// There is none: report this major status, and this minor status where one
    /// is set.
    Refused(u32, Option<u32>),
}

/// The text of the saved minor status for a code, if there is one.
pub open spec fn saved_text(saved: Option<GssxStatus>, code: u32) -> Option<Seq<u8>> {
    match saved {
        Some(s) => if s.minor_status == code && s.minor_status_string@.len() > 0 {
            Some(s.minor_status_string@)
        } else {
            None
        },
        None => None,
    }
}

/// The text of a minor status: that of the status that the daemon gave last, and
/// otherwise the local mechglue's. Major statuses are not for the interposer.
pub fn gssi_display_status(
    saved: &Option<GssxStatus>,
    status_value: u32,
    status_type: i32,
    message_context: u32,
) -> (r: StatusText)
    ensures
        if status_type != GSS_C_MECH_CODE {
            r == StatusText::Refused(GSS_S_BAD_STATUS, None)
        } else {
            let code = error::unmapped(status_value);
            match saved_text(*saved, code) {
                None => r == StatusText::Local(code),
                Some(text) => if message_context != 0 {
                    r == StatusText::Refused(GSS_S_FAILURE, Some(crate::consts::EINVAL as u32))
                } else {
                    r matches StatusText::Text(t) && t@ == text
                },
            }
        },
{
    if status_type != GSS_C_MECH_CODE {
        return StatusText::Refused(GSS_S_BAD_STATUS, None);
    }
    let code: u32 = error::unmap_error(status_value);
    let (maj, min, text) = gpm::display_status(saved, code, GSS_C_MECH_CODE, message_context);
    if maj == GSS_S_UNAVAILABLE {
        return StatusText::Local(code);
    }
    if maj == GSS_S_COMPLETE {
        return StatusText::Text(text);
    }
    StatusText::Refused(maj, Some(min))
}

/// The text of a mapped minor status that the daemon gave is found again.
pub proof fn mapped_status_has_its_text(saved: GssxStatus, code: u32)
    requires
        saved.minor_status == code,
        saved.minor_status_string@.len() > 0,
        error::mapped(code) != 0,
    ensures
        saved_text(Some(saved), error::unmapped(error::mapped(code))) == Some(
            saved.minor_status_string@,
        ),
{
    error::unmap_undoes_map(code);
}

} // verus!
