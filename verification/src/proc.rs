//! Per-procedure argument and result types, and the procedure numbers.

use vstd::prelude::*;

use crate::gssx::{
    GssxBuffer, GssxCallCtx, GssxCb, GssxCred, GssxCtx, GssxHandle, GssxMechAttr, GssxMechInfo,
    GssxName, GssxNameAttr, GssxOid, GssxOidSet, GssxOption, GssxStatus, OctetString, Opaque,
};
use crate::xdr;
use crate::xdr::{Shape, Tree, Xdr, XdrDecoder, XdrEncoder, XdrResult};

verus! {

/// The procedures of the gssproxy program.
#[derive(Debug, Clone, Copy, PartialEq, Eq)]
pub enum GssxProc {
    IndicateMechs,
    GetCallContext,
    ImportAndCanonName,
    ExportCred,
    ImportCred,
    AcquireCred,
    StoreCred,
    InitSecContext,
    AcceptSecContext,
    ReleaseHandle,
    GetMic,
    VerifyMic,
    Wrap,
    Unwrap,
    WrapSizeLimit,
}

impl GssxProc {
    pub const MIN: u32 = 1;

    pub const MAX: u32 = 15;

    /// The procedure number.
    pub open spec fn number(self) -> u32 {
        match self {
            GssxProc::IndicateMechs => 1,
            GssxProc::GetCallContext => 2,
            GssxProc::ImportAndCanonName => 3,
            GssxProc::ExportCred => 4,
            GssxProc::ImportCred => 5,
            GssxProc::AcquireCred => 6,
            GssxProc::StoreCred => 7,
            GssxProc::InitSecContext => 8,
            GssxProc::AcceptSecContext => 9,
            GssxProc::ReleaseHandle => 10,
            GssxProc::GetMic => 11,
            GssxProc::VerifyMic => 12,
            GssxProc::Wrap => 13,
            GssxProc::Unwrap => 14,
            GssxProc::WrapSizeLimit => 15,
        }
    }

    /// The procedure number.
    pub fn to_u32(self) -> (r: u32)
        ensures
            r == self.number(),
            GssxProc::MIN <= r <= GssxProc::MAX,
    {
        match self {
            GssxProc::IndicateMechs => 1,
            GssxProc::GetCallContext => 2,
            GssxProc::ImportAndCanonName => 3,
            GssxProc::ExportCred => 4,
            GssxProc::ImportCred => 5,
            GssxProc::AcquireCred => 6,
            GssxProc::StoreCred => 7,
            GssxProc::InitSecContext => 8,
            GssxProc::AcceptSecContext => 9,
            GssxProc::ReleaseHandle => 10,
            GssxProc::GetMic => 11,
            GssxProc::VerifyMic => 12,
            GssxProc::Wrap => 13,
            GssxProc::Unwrap => 14,
            GssxProc::WrapSizeLimit => 15,
        }
    }

    /// The procedure that has a number, if one has.
    pub open spec fn numbered(v: u32) -> Option<GssxProc> {
        match v {
            1 => Some(GssxProc::IndicateMechs),
            2 => Some(GssxProc::GetCallContext),
            3 => Some(GssxProc::ImportAndCanonName),
            4 => Some(GssxProc::ExportCred),
            5 => Some(GssxProc::ImportCred),
            6 => Some(GssxProc::AcquireCred),
            7 => Some(GssxProc::StoreCred),
            8 => Some(GssxProc::InitSecContext),
            9 => Some(GssxProc::AcceptSecContext),
            10 => Some(GssxProc::ReleaseHandle),
            11 => Some(GssxProc::GetMic),
            12 => Some(GssxProc::VerifyMic),
            13 => Some(GssxProc::Wrap),
            14 => Some(GssxProc::Unwrap),
            15 => Some(GssxProc::WrapSizeLimit),
            _ => None,
        }
    }

    /// The procedure with a number: every number from `MIN` to `MAX` has one,
    /// and no other has.
    pub fn from_u32(v: u32) -> (r: Option<Self>)
        ensures
            r == GssxProc::numbered(v),
            r is Some <==> GssxProc::MIN <= v <= GssxProc::MAX,
            r matches Some(p) ==> p.number() == v,
    {
        match v {
            1 => Some(GssxProc::IndicateMechs),
            2 => Some(GssxProc::GetCallContext),
            3 => Some(GssxProc::ImportAndCanonName),
            4 => Some(GssxProc::ExportCred),
            5 => Some(GssxProc::ImportCred),
            6 => Some(GssxProc::AcquireCred),
            7 => Some(GssxProc::StoreCred),
            8 => Some(GssxProc::InitSecContext),
            9 => Some(GssxProc::AcceptSecContext),
            10 => Some(GssxProc::ReleaseHandle),
            11 => Some(GssxProc::GetMic),
            12 => Some(GssxProc::VerifyMic),
            13 => Some(GssxProc::Wrap),
            14 => Some(GssxProc::Unwrap),
            15 => Some(GssxProc::WrapSizeLimit),
            _ => None,
        }
    }
}

/// Different procedures have different numbers.
pub proof fn procedure_numbers_are_distinct(a: GssxProc, b: GssxProc)
    requires
        a.number() == b.number(),
    ensures
        a == b,
{
}

/// Argument of `release_handle`.
#[derive(Debug, PartialEq, Eq)]
pub struct ArgReleaseHandle {
    pub call_ctx: GssxCallCtx,
    pub cred_handle: GssxHandle,
}

impl Clone for ArgReleaseHandle {
    fn clone(&self) -> (r: Self)
        ensures
            r.tree() == self.tree(),
    {
        reveal(<ArgReleaseHandle as Xdr>::tree);
        let r = ArgReleaseHandle {
            call_ctx: self.call_ctx.clone(),
            cred_handle: self.cred_handle.clone(),
        };
        r
    }
}

impl Xdr for ArgReleaseHandle {
    #[verifier::opaque]
    open spec fn shape() -> Shape {
        xdr::pair(GssxCallCtx::shape(), GssxHandle::shape())
    }

    #[verifier::opaque]
    open spec fn tree(&self) -> Tree {
        xdr::both(self.call_ctx.tree(), self.cred_handle.tree())
    }

    open spec fn canonical(&self) -> bool {
        self.cred_handle.canonical()
    }

    proof fn lemma_fits(&self) {
        broadcast use crate::xdr::group_records;

        reveal(<ArgReleaseHandle as Xdr>::shape);
        reveal(<ArgReleaseHandle as Xdr>::tree);
        self.call_ctx.lemma_fits();
        self.cred_handle.lemma_fits();
    }

    fn encode(&self, e: &mut XdrEncoder) {
        broadcast use crate::xdr::group_records;

        reveal(<ArgReleaseHandle as Xdr>::tree);
        self.call_ctx.encode(e);
        self.cred_handle.encode(e);
    }

    fn decode(d: &mut XdrDecoder) -> (r: XdrResult<Self>) {
        broadcast use crate::xdr::group_records;

        reveal(<ArgReleaseHandle as Xdr>::shape);
        reveal(<ArgReleaseHandle as Xdr>::tree);
        let call_ctx = GssxCallCtx::decode(d)?;
        let cred_handle = GssxHandle::decode(d)?;
        Ok(ArgReleaseHandle { call_ctx, cred_handle })
    }
}

/// Result of `release_handle`.
#[derive(Debug, PartialEq, Eq)]
pub struct ResReleaseHandle {
    pub status: GssxStatus,
}

impl ResReleaseHandle {
    /// Every field is empty, absent, false or zero.
    pub open spec fn blank(&self) -> bool {
        &&& self.status.blank()
    }
}

impl Default for ResReleaseHandle {
    fn default() -> (r: Self)
        ensures
            r.blank(),
    {
        ResReleaseHandle {
            status: GssxStatus::default(),
        }
    }
}

impl Clone for ResReleaseHandle {
    fn clone(&self) -> (r: Self)
        ensures
            r.tree() == self.tree(),
    {
        reveal(<ResReleaseHandle as Xdr>::tree);
        let r = ResReleaseHandle {
            status: self.status.clone(),
        };
        r
    }
}

impl Xdr for ResReleaseHandle {
    #[verifier::opaque]
    open spec fn shape() -> Shape {
        GssxStatus::shape()
    }

    #[verifier::opaque]
    open spec fn tree(&self) -> Tree {
        self.status.tree()
    }

    open spec fn canonical(&self) -> bool {
        true
    }

    proof fn lemma_fits(&self) {
        broadcast use crate::xdr::group_records;

        reveal(<ResReleaseHandle as Xdr>::shape);
        reveal(<ResReleaseHandle as Xdr>::tree);
        self.status.lemma_fits();
    }

    fn encode(&self, e: &mut XdrEncoder) {
        broadcast use crate::xdr::group_records;

        reveal(<ResReleaseHandle as Xdr>::tree);
        self.status.encode(e);
    }

    fn decode(d: &mut XdrDecoder) -> (r: XdrResult<Self>) {
        broadcast use crate::xdr::group_records;

        reveal(<ResReleaseHandle as Xdr>::shape);
        reveal(<ResReleaseHandle as Xdr>::tree);
        let status = GssxStatus::decode(d)?;
        Ok(ResReleaseHandle { status })
    }
}

/// Argument of `indicate_mechs`.
#[derive(Debug, PartialEq, Eq)]
pub struct ArgIndicateMechs {
    pub call_ctx: GssxCallCtx,
}

impl ArgIndicateMechs {
    /// Every field is empty, absent, false or zero.
    pub open spec fn blank(&self) -> bool {
        &&& self.call_ctx.blank()
    }
}

impl Default for ArgIndicateMechs {
    fn default() -> (r: Self)
        ensures
            r.blank(),
    {
        ArgIndicateMechs {
            call_ctx: GssxCallCtx::default(),
        }
    }
}

impl Clone for ArgIndicateMechs {
    fn clone(&self) -> (r: Self)
        ensures
            r.tree() == self.tree(),
    {
        reveal(<ArgIndicateMechs as Xdr>::tree);
        let r = ArgIndicateMechs {
            call_ctx: self.call_ctx.clone(),
        };
        r
    }
}

impl Xdr for ArgIndicateMechs {
    #[verifier::opaque]
    open spec fn shape() -> Shape {
        GssxCallCtx::shape()
    }

    #[verifier::opaque]
    open spec fn tree(&self) -> Tree {
        self.call_ctx.tree()
    }

    open spec fn canonical(&self) -> bool {
        true
    }

    proof fn lemma_fits(&self) {
        broadcast use crate::xdr::group_records;

        reveal(<ArgIndicateMechs as Xdr>::shape);
        reveal(<ArgIndicateMechs as Xdr>::tree);
        self.call_ctx.lemma_fits();
    }

    fn encode(&self, e: &mut XdrEncoder) {
        broadcast use crate::xdr::group_records;

        reveal(<ArgIndicateMechs as Xdr>::tree);
        self.call_ctx.encode(e);
    }

    fn decode(d: &mut XdrDecoder) -> (r: XdrResult<Self>) {
        broadcast use crate::xdr::group_records;

        reveal(<ArgIndicateMechs as Xdr>::shape);
        reveal(<ArgIndicateMechs as Xdr>::tree);
        let call_ctx = GssxCallCtx::decode(d)?;
        Ok(ArgIndicateMechs { call_ctx })
    }
}

/// Result of `indicate_mechs`.
#[derive(Debug, PartialEq, Eq)]
pub struct ResIndicateMechs {
    pub status: GssxStatus,
    pub mechs: Vec<GssxMechInfo>,
    pub mech_attr_descs: Vec<GssxMechAttr>,
    pub supported_extensions: Vec<GssxBuffer>,
    pub options: Vec<GssxOption>,
}

impl ResIndicateMechs {
    /// Every field is empty, absent, false or zero.
    pub open spec fn blank(&self) -> bool {
        &&& self.status.blank()
        &&& self.mechs@.len() == 0
        &&& self.mech_attr_descs@.len() == 0
        &&& self.supported_extensions@.len() == 0
        &&& self.options@.len() == 0
    }
}

impl Default for ResIndicateMechs {
    fn default() -> (r: Self)
        ensures
            r.blank(),
    {
        ResIndicateMechs {
            status: GssxStatus::default(),
            mechs: Vec::new(),
            mech_attr_descs: Vec::new(),
            supported_extensions: Vec::new(),
            options: Vec::new(),
        }
    }
}

impl Clone for ResIndicateMechs {
    fn clone(&self) -> (r: Self)
        ensures
            r.tree() == self.tree(),
    {
        reveal(<ResIndicateMechs as Xdr>::tree);
        let r = ResIndicateMechs {
            status: self.status.clone(),
            mechs: self.mechs.clone(),
            mech_attr_descs: self.mech_attr_descs.clone(),
            supported_extensions: self.supported_extensions.clone(),
            options: self.options.clone(),
        };
        proof {
            xdr::lemma_same_trees(self.mechs@, r.mechs@);
            xdr::lemma_same_trees(self.mech_attr_descs@, r.mech_attr_descs@);
            xdr::lemma_same_trees(self.supported_extensions@, r.supported_extensions@);
            xdr::lemma_same_trees(self.options@, r.options@);
        }
        r
    }
}

impl Xdr for ResIndicateMechs {
    #[verifier::opaque]
    open spec fn shape() -> Shape {
        xdr::pair(
            GssxStatus::shape(),
            xdr::pair(
                xdr::array_of(GssxMechInfo::shape()),
                xdr::pair(
                    xdr::array_of(GssxMechAttr::shape()),
                    xdr::pair(
                        xdr::array_of(GssxBuffer::shape()),
                        xdr::array_of(GssxOption::shape()),
                    ),
                ),
            ),
        )
    }

    #[verifier::opaque]
    open spec fn tree(&self) -> Tree {
        xdr::both(
            self.status.tree(),
            xdr::both(
                xdr::array_tree(self.mechs@),
                xdr::both(
                    xdr::array_tree(self.mech_attr_descs@),
                    xdr::both(
                        xdr::array_tree(self.supported_extensions@),
                        xdr::array_tree(self.options@),
                    ),
                ),
            ),
        )
    }

    open spec fn canonical(&self) -> bool {
        true
    }

    proof fn lemma_fits(&self) {
        broadcast use crate::xdr::group_records;

        reveal(<ResIndicateMechs as Xdr>::shape);
        reveal(<ResIndicateMechs as Xdr>::tree);
        self.status.lemma_fits();
        xdr::lemma_fits_array(self.mechs@);
        xdr::lemma_fits_array(self.mech_attr_descs@);
        xdr::lemma_fits_array(self.supported_extensions@);
        xdr::lemma_fits_array(self.options@);
    }

    fn encode(&self, e: &mut XdrEncoder) {
        broadcast use crate::xdr::group_records;

        reveal(<ResIndicateMechs as Xdr>::tree);
        self.status.encode(e);
        xdr::encode_array(e, self.mechs.as_slice());
        xdr::encode_array(e, self.mech_attr_descs.as_slice());
        xdr::encode_array(e, self.supported_extensions.as_slice());
        xdr::encode_array(e, self.options.as_slice());
    }

    fn decode(d: &mut XdrDecoder) -> (r: XdrResult<Self>) {
        broadcast use crate::xdr::group_records;

        reveal(<ResIndicateMechs as Xdr>::shape);
        reveal(<ResIndicateMechs as Xdr>::tree);
        let status = GssxStatus::decode(d)?;
        let mechs: Vec<GssxMechInfo> = xdr::decode_array(d)?;
        let mech_attr_descs: Vec<GssxMechAttr> = xdr::decode_array(d)?;
        let supported_extensions: Vec<GssxBuffer> = xdr::decode_array(d)?;
        let options: Vec<GssxOption> = xdr::decode_array(d)?;
        Ok(ResIndicateMechs { status, mechs, mech_attr_descs, supported_extensions, options })
    }
}

/// Argument of `import_and_canon_name`.
#[derive(Debug, PartialEq, Eq)]
pub struct ArgImportAndCanonName {
    pub call_ctx: GssxCallCtx,
    pub input_name: GssxName,
    pub mech: GssxOid,
    pub name_attributes: Vec<GssxNameAttr>,
    pub options: Vec<GssxOption>,
}

impl ArgImportAndCanonName {
    /// Every field is empty, absent, false or zero.
    pub open spec fn blank(&self) -> bool {
        &&& self.call_ctx.blank()
        &&& self.input_name.blank()
        &&& self.mech@.len() == 0
        &&& self.name_attributes@.len() == 0
        &&& self.options@.len() == 0
    }
}

impl Default for ArgImportAndCanonName {
    fn default() -> (r: Self)
        ensures
            r.blank(),
    {
        ArgImportAndCanonName {
            call_ctx: GssxCallCtx::default(),
            input_name: GssxName::default(),
            mech: Opaque::default(),
            name_attributes: Vec::new(),
            options: Vec::new(),
        }
    }
}

impl Clone for ArgImportAndCanonName {
    fn clone(&self) -> (r: Self)
        ensures
            r.tree() == self.tree(),
    {
        reveal(<ArgImportAndCanonName as Xdr>::tree);
        let r = ArgImportAndCanonName {
            call_ctx: self.call_ctx.clone(),
            input_name: self.input_name.clone(),
            mech: self.mech.clone(),
            name_attributes: self.name_attributes.clone(),
            options: self.options.clone(),
        };
        proof {
            xdr::lemma_same_trees(self.name_attributes@, r.name_attributes@);
            xdr::lemma_same_trees(self.options@, r.options@);
        }
        r
    }
}

impl Xdr for ArgImportAndCanonName {
    #[verifier::opaque]
    open spec fn shape() -> Shape {
        xdr::pair(
            GssxCallCtx::shape(),
            xdr::pair(
                GssxName::shape(),
                xdr::pair(
                    GssxOid::shape(),
                    xdr::pair(
                        xdr::array_of(GssxNameAttr::shape()),
                        xdr::array_of(GssxOption::shape()),
                    ),
                ),
            ),
        )
    }

    #[verifier::opaque]
    open spec fn tree(&self) -> Tree {
        xdr::both(
            self.call_ctx.tree(),
            xdr::both(
                self.input_name.tree(),
                xdr::both(
                    self.mech.tree(),
                    xdr::both(
                        xdr::array_tree(self.name_attributes@),
                        xdr::array_tree(self.options@),
                    ),
                ),
            ),
        )
    }

    open spec fn canonical(&self) -> bool {
        true
    }

    proof fn lemma_fits(&self) {
        broadcast use crate::xdr::group_records;

        reveal(<ArgImportAndCanonName as Xdr>::shape);
        reveal(<ArgImportAndCanonName as Xdr>::tree);
        self.call_ctx.lemma_fits();
        self.input_name.lemma_fits();
        self.mech.lemma_fits();
        xdr::lemma_fits_array(self.name_attributes@);
        xdr::lemma_fits_array(self.options@);
    }

    fn encode(&self, e: &mut XdrEncoder) {
        broadcast use crate::xdr::group_records;

        reveal(<ArgImportAndCanonName as Xdr>::tree);
        self.call_ctx.encode(e);
        self.input_name.encode(e);
        self.mech.encode(e);
        xdr::encode_array(e, self.name_attributes.as_slice());
        xdr::encode_array(e, self.options.as_slice());
    }

    fn decode(d: &mut XdrDecoder) -> (r: XdrResult<Self>) {
        broadcast use crate::xdr::group_records;

        reveal(<ArgImportAndCanonName as Xdr>::shape);
        reveal(<ArgImportAndCanonName as Xdr>::tree);
        let call_ctx = GssxCallCtx::decode(d)?;
        let input_name = GssxName::decode(d)?;
        let mech = GssxOid::decode(d)?;
        let name_attributes: Vec<GssxNameAttr> = xdr::decode_array(d)?;
        let options: Vec<GssxOption> = xdr::decode_array(d)?;
        Ok(ArgImportAndCanonName { call_ctx, input_name, mech, name_attributes, options })
    }
}

/// Result of `import_and_canon_name`.
#[derive(Debug, PartialEq, Eq)]
pub struct ResImportAndCanonName {
    pub status: GssxStatus,
    pub output_name: Option<GssxName>,
    pub options: Vec<GssxOption>,
}

impl ResImportAndCanonName {
    /// Every field is empty, absent, false or zero.
    pub open spec fn blank(&self) -> bool {
        &&& self.status.blank()
        &&& self.output_name is None
        &&& self.options@.len() == 0
    }
}

impl Default for ResImportAndCanonName {
    fn default() -> (r: Self)
        ensures
            r.blank(),
    {
        ResImportAndCanonName {
            status: GssxStatus::default(),
            output_name: None,
            options: Vec::new(),
        }
    }
}

impl Clone for ResImportAndCanonName {
    fn clone(&self) -> (r: Self)
        ensures
            r.tree() == self.tree(),
    {
        reveal(<ResImportAndCanonName as Xdr>::tree);
        let r = ResImportAndCanonName {
            status: self.status.clone(),
            output_name: self.output_name.clone(),
            options: self.options.clone(),
        };
        proof {
            xdr::lemma_same_trees(self.options@, r.options@);
        }
        r
    }
}

impl Xdr for ResImportAndCanonName {
    #[verifier::opaque]
    open spec fn shape() -> Shape {
        xdr::pair(
            GssxStatus::shape(),
            xdr::pair(xdr::optional_of(GssxName::shape()), xdr::array_of(GssxOption::shape())),
        )
    }

    #[verifier::opaque]
    open spec fn tree(&self) -> Tree {
        xdr::both(
            self.status.tree(),
            xdr::both(xdr::optional_tree(self.output_name), xdr::array_tree(self.options@)),
        )
    }

    open spec fn canonical(&self) -> bool {
        true
    }

    proof fn lemma_fits(&self) {
        broadcast use crate::xdr::group_records;

        reveal(<ResImportAndCanonName as Xdr>::shape);
        reveal(<ResImportAndCanonName as Xdr>::tree);
        self.status.lemma_fits();
        xdr::lemma_fits_optional(self.output_name);
        xdr::lemma_fits_array(self.options@);
    }

    fn encode(&self, e: &mut XdrEncoder) {
        broadcast use crate::xdr::group_records;

        reveal(<ResImportAndCanonName as Xdr>::tree);
        self.status.encode(e);
        xdr::encode_optional(e, &self.output_name);
        xdr::encode_array(e, self.options.as_slice());
    }

    fn decode(d: &mut XdrDecoder) -> (r: XdrResult<Self>) {
        broadcast use crate::xdr::group_records;

        reveal(<ResImportAndCanonName as Xdr>::shape);
        reveal(<ResImportAndCanonName as Xdr>::tree);
        let status = GssxStatus::decode(d)?;
        let output_name: Option<GssxName> = xdr::decode_optional(d)?;
        let options: Vec<GssxOption> = xdr::decode_array(d)?;
        Ok(ResImportAndCanonName { status, output_name, options })
    }
}

/// Argument of `get_call_context`.
#[derive(Debug, PartialEq, Eq)]
pub struct ArgGetCallContext {
    pub call_ctx: GssxCallCtx,
    pub options: Vec<GssxOption>,
}

impl ArgGetCallContext {
    /// Every field is empty, absent, false or zero.
    pub open spec fn blank(&self) -> bool {
        &&& self.call_ctx.blank()
        &&& self.options@.len() == 0
    }
}

impl Default for ArgGetCallContext {
    fn default() -> (r: Self)
        ensures
            r.blank(),
    {
        ArgGetCallContext {
            call_ctx: GssxCallCtx::default(),
            options: Vec::new(),
        }
    }
}

impl Clone for ArgGetCallContext {
    fn clone(&self) -> (r: Self)
        ensures
            r.tree() == self.tree(),
    {
        reveal(<ArgGetCallContext as Xdr>::tree);
        let r = ArgGetCallContext {
            call_ctx: self.call_ctx.clone(),
            options: self.options.clone(),
        };
        proof {
            xdr::lemma_same_trees(self.options@, r.options@);
        }
        r
    }
}

impl Xdr for ArgGetCallContext {
    #[verifier::opaque]
    open spec fn shape() -> Shape {
        xdr::pair(GssxCallCtx::shape(), xdr::array_of(GssxOption::shape()))
    }

    #[verifier::opaque]
    open spec fn tree(&self) -> Tree {
        xdr::both(self.call_ctx.tree(), xdr::array_tree(self.options@))
    }

    open spec fn canonical(&self) -> bool {
        true
    }

    proof fn lemma_fits(&self) {
        broadcast use crate::xdr::group_records;

        reveal(<ArgGetCallContext as Xdr>::shape);
        reveal(<ArgGetCallContext as Xdr>::tree);
        self.call_ctx.lemma_fits();
        xdr::lemma_fits_array(self.options@);
    }

    fn encode(&self, e: &mut XdrEncoder) {
        broadcast use crate::xdr::group_records;

        reveal(<ArgGetCallContext as Xdr>::tree);
        self.call_ctx.encode(e);
        xdr::encode_array(e, self.options.as_slice());
    }

    fn decode(d: &mut XdrDecoder) -> (r: XdrResult<Self>) {
        broadcast use crate::xdr::group_records;

        reveal(<ArgGetCallContext as Xdr>::shape);
        reveal(<ArgGetCallContext as Xdr>::tree);
        let call_ctx = GssxCallCtx::decode(d)?;
        let options: Vec<GssxOption> = xdr::decode_array(d)?;
        Ok(ArgGetCallContext { call_ctx, options })
    }
}

/// Result of `get_call_context`.
#[derive(Debug, PartialEq, Eq)]
pub struct ResGetCallContext {
    pub status: GssxStatus,
    pub server_call_ctx: OctetString,
    pub options: Vec<GssxOption>,
}

impl ResGetCallContext {
    /// Every field is empty, absent, false or zero.
    pub open spec fn blank(&self) -> bool {
        &&& self.status.blank()
        &&& self.server_call_ctx@.len() == 0
        &&& self.options@.len() == 0
    }
}

impl Default for ResGetCallContext {
    fn default() -> (r: Self)
        ensures
            r.blank(),
    {
        ResGetCallContext {
            status: GssxStatus::default(),
            server_call_ctx: Opaque::default(),
            options: Vec::new(),
        }
    }
}

impl Clone for ResGetCallContext {
    fn clone(&self) -> (r: Self)
        ensures
            r.tree() == self.tree(),
    {
        reveal(<ResGetCallContext as Xdr>::tree);
        let r = ResGetCallContext {
            status: self.status.clone(),
            server_call_ctx: self.server_call_ctx.clone(),
            options: self.options.clone(),
        };
        proof {
            xdr::lemma_same_trees(self.options@, r.options@);
        }
        r
    }
}

impl Xdr for ResGetCallContext {
    #[verifier::opaque]
    open spec fn shape() -> Shape {
        xdr::pair(
            GssxStatus::shape(),
            xdr::pair(OctetString::shape(), xdr::array_of(GssxOption::shape())),
        )
    }

    #[verifier::opaque]
    open spec fn tree(&self) -> Tree {
        xdr::both(
            self.status.tree(),
            xdr::both(self.server_call_ctx.tree(), xdr::array_tree(self.options@)),
        )
    }

    open spec fn canonical(&self) -> bool {
        true
    }

    proof fn lemma_fits(&self) {
        broadcast use crate::xdr::group_records;

        reveal(<ResGetCallContext as Xdr>::shape);
        reveal(<ResGetCallContext as Xdr>::tree);
        self.status.lemma_fits();
        self.server_call_ctx.lemma_fits();
        xdr::lemma_fits_array(self.options@);
    }

    fn encode(&self, e: &mut XdrEncoder) {
        broadcast use crate::xdr::group_records;

        reveal(<ResGetCallContext as Xdr>::tree);
        self.status.encode(e);
        self.server_call_ctx.encode(e);
        xdr::encode_array(e, self.options.as_slice());
    }

    fn decode(d: &mut XdrDecoder) -> (r: XdrResult<Self>) {
        broadcast use crate::xdr::group_records;

        reveal(<ResGetCallContext as Xdr>::shape);
        reveal(<ResGetCallContext as Xdr>::tree);
        let status = GssxStatus::decode(d)?;
        let server_call_ctx = OctetString::decode(d)?;
        let options: Vec<GssxOption> = xdr::decode_array(d)?;
        Ok(ResGetCallContext { status, server_call_ctx, options })
    }
}

/// Argument of `acquire_cred`.
#[derive(Debug, PartialEq, Eq)]
pub struct ArgAcquireCred {
    pub call_ctx: GssxCallCtx,
    pub input_cred_handle: Option<GssxCred>,
    pub add_cred_to_input_handle: bool,
    pub desired_name: Option<GssxName>,
    pub time_req: u64,
    pub desired_mechs: GssxOidSet,
    pub cred_usage: i32,
    pub initiator_time_req: u64,
    pub acceptor_time_req: u64,
    pub options: Vec<GssxOption>,
}

impl ArgAcquireCred {
    /// Every field is empty, absent, false or zero.
    pub open spec fn blank(&self) -> bool {
        &&& self.call_ctx.blank()
        &&& self.input_cred_handle is None
        &&& !self.add_cred_to_input_handle
        &&& self.desired_name is None
        &&& self.time_req == 0
        &&& self.desired_mechs@.len() == 0
        &&& self.cred_usage == 0
        &&& self.initiator_time_req == 0
        &&& self.acceptor_time_req == 0
        &&& self.options@.len() == 0
    }
}

impl Default for ArgAcquireCred {
    fn default() -> (r: Self)
        ensures
            r.blank(),
    {
        ArgAcquireCred {
            call_ctx: GssxCallCtx::default(),
            input_cred_handle: None,
            add_cred_to_input_handle: false,
            desired_name: None,
            time_req: 0,
            desired_mechs: Vec::new(),
            cred_usage: 0,
            initiator_time_req: 0,
            acceptor_time_req: 0,
            options: Vec::new(),
        }
    }
}

impl Clone for ArgAcquireCred {
    fn clone(&self) -> (r: Self)
        ensures
            r.tree() == self.tree(),
    {
        reveal(<ArgAcquireCred as Xdr>::tree);
        let r = ArgAcquireCred {
            call_ctx: self.call_ctx.clone(),
            input_cred_handle: self.input_cred_handle.clone(),
            add_cred_to_input_handle: self.add_cred_to_input_handle,
            desired_name: self.desired_name.clone(),
            time_req: self.time_req,
            desired_mechs: self.desired_mechs.clone(),
            cred_usage: self.cred_usage,
            initiator_time_req: self.initiator_time_req,
            acceptor_time_req: self.acceptor_time_req,
            options: self.options.clone(),
        };
        proof {
            xdr::lemma_same_trees(self.desired_mechs@, r.desired_mechs@);
            xdr::lemma_same_trees(self.options@, r.options@);
        }
        r
    }
}

impl Xdr for ArgAcquireCred {
    #[verifier::opaque]
    open spec fn shape() -> Shape {
        xdr::pair(
            GssxCallCtx::shape(),
            xdr::pair(
                xdr::optional_of(GssxCred::shape()),
                xdr::pair(
                    bool::shape(),
                    xdr::pair(
                        xdr::optional_of(GssxName::shape()),
                        xdr::pair(
                            u64::shape(),
                            xdr::pair(
                                xdr::array_of(GssxOid::shape()),
                                xdr::pair(
                                    i32::shape(),
                                    xdr::pair(
                                        u64::shape(),
                                        xdr::pair(
                                            u64::shape(),
                                            xdr::array_of(GssxOption::shape()),
                                        ),
                                    ),
                                ),
                            ),
                        ),
                    ),
                ),
            ),
        )
    }

    #[verifier::opaque]
    open spec fn tree(&self) -> Tree {
        xdr::both(
            self.call_ctx.tree(),
            xdr::both(
                xdr::optional_tree(self.input_cred_handle),
                xdr::both(
                    self.add_cred_to_input_handle.tree(),
                    xdr::both(
                        xdr::optional_tree(self.desired_name),
                        xdr::both(
                            self.time_req.tree(),
                            xdr::both(
                                xdr::array_tree(self.desired_mechs@),
                                xdr::both(
                                    self.cred_usage.tree(),
                                    xdr::both(
                                        self.initiator_time_req.tree(),
                                        xdr::both(
                                            self.acceptor_time_req.tree(),
                                            xdr::array_tree(self.options@),
                                        ),
                                    ),
                                ),
                            ),
                        ),
                    ),
                ),
            ),
        )
    }

    open spec fn canonical(&self) -> bool {
        true
    }

    proof fn lemma_fits(&self) {
        broadcast use crate::xdr::group_records;

        reveal(<ArgAcquireCred as Xdr>::shape);
        reveal(<ArgAcquireCred as Xdr>::tree);
        self.call_ctx.lemma_fits();
        xdr::lemma_fits_optional(self.input_cred_handle);
        self.add_cred_to_input_handle.lemma_fits();
        xdr::lemma_fits_optional(self.desired_name);
        self.time_req.lemma_fits();
        xdr::lemma_fits_array(self.desired_mechs@);
        self.cred_usage.lemma_fits();
        self.initiator_time_req.lemma_fits();
        self.acceptor_time_req.lemma_fits();
        xdr::lemma_fits_array(self.options@);
    }

    fn encode(&self, e: &mut XdrEncoder) {
        broadcast use crate::xdr::group_records;

        reveal(<ArgAcquireCred as Xdr>::tree);
        self.call_ctx.encode(e);
        xdr::encode_optional(e, &self.input_cred_handle);
        self.add_cred_to_input_handle.encode(e);
        xdr::encode_optional(e, &self.desired_name);
        self.time_req.encode(e);
        xdr::encode_array(e, self.desired_mechs.as_slice());
        self.cred_usage.encode(e);
        self.initiator_time_req.encode(e);
        self.acceptor_time_req.encode(e);
        xdr::encode_array(e, self.options.as_slice());
    }

    fn decode(d: &mut XdrDecoder) -> (r: XdrResult<Self>) {
        broadcast use crate::xdr::group_records;

        reveal(<ArgAcquireCred as Xdr>::shape);
        reveal(<ArgAcquireCred as Xdr>::tree);
        let call_ctx = GssxCallCtx::decode(d)?;
        let input_cred_handle: Option<GssxCred> = xdr::decode_optional(d)?;
        let add_cred_to_input_handle: bool = bool::decode(d)?;
        let desired_name: Option<GssxName> = xdr::decode_optional(d)?;
        let time_req: u64 = u64::decode(d)?;
        let desired_mechs: GssxOidSet = xdr::decode_array(d)?;
        let cred_usage: i32 = i32::decode(d)?;
        let initiator_time_req: u64 = u64::decode(d)?;
        let acceptor_time_req: u64 = u64::decode(d)?;
        let options: Vec<GssxOption> = xdr::decode_array(d)?;
        Ok(ArgAcquireCred {
            call_ctx,
            input_cred_handle,
            add_cred_to_input_handle,
            desired_name,
            time_req,
            desired_mechs,
            cred_usage,
            initiator_time_req,
            acceptor_time_req,
            options,
        })
    }
}

/// Result of `acquire_cred`.
#[derive(Debug, PartialEq, Eq)]
pub struct ResAcquireCred {
    pub status: GssxStatus,
    pub output_cred_handle: Option<GssxCred>,
    pub options: Vec<GssxOption>,
}

impl ResAcquireCred {
    /// Every field is empty, absent, false or zero.
    pub open spec fn blank(&self) -> bool {
        &&& self.status.blank()
        &&& self.output_cred_handle is None
        &&& self.options@.len() == 0
    }
}

impl Default for ResAcquireCred {
    fn default() -> (r: Self)
        ensures
            r.blank(),
    {
        ResAcquireCred {
            status: GssxStatus::default(),
            output_cred_handle: None,
            options: Vec::new(),
        }
    }
}

impl Clone for ResAcquireCred {
    fn clone(&self) -> (r: Self)
        ensures
            r.tree() == self.tree(),
    {
        reveal(<ResAcquireCred as Xdr>::tree);
        let r = ResAcquireCred {
            status: self.status.clone(),
            output_cred_handle: self.output_cred_handle.clone(),
            options: self.options.clone(),
        };
        proof {
            xdr::lemma_same_trees(self.options@, r.options@);
        }
        r
    }
}

impl Xdr for ResAcquireCred {
    #[verifier::opaque]
    open spec fn shape() -> Shape {
        xdr::pair(
            GssxStatus::shape(),
            xdr::pair(xdr::optional_of(GssxCred::shape()), xdr::array_of(GssxOption::shape())),
        )
    }

    #[verifier::opaque]
    open spec fn tree(&self) -> Tree {
        xdr::both(
            self.status.tree(),
            xdr::both(
                xdr::optional_tree(self.output_cred_handle),
                xdr::array_tree(self.options@),
            ),
        )
    }

    open spec fn canonical(&self) -> bool {
        true
    }

    proof fn lemma_fits(&self) {
        broadcast use crate::xdr::group_records;

        reveal(<ResAcquireCred as Xdr>::shape);
        reveal(<ResAcquireCred as Xdr>::tree);
        self.status.lemma_fits();
        xdr::lemma_fits_optional(self.output_cred_handle);
        xdr::lemma_fits_array(self.options@);
    }

    fn encode(&self, e: &mut XdrEncoder) {
        broadcast use crate::xdr::group_records;

        reveal(<ResAcquireCred as Xdr>::tree);
        self.status.encode(e);
        xdr::encode_optional(e, &self.output_cred_handle);
        xdr::encode_array(e, self.options.as_slice());
    }

    fn decode(d: &mut XdrDecoder) -> (r: XdrResult<Self>) {
        broadcast use crate::xdr::group_records;

        reveal(<ResAcquireCred as Xdr>::shape);
        reveal(<ResAcquireCred as Xdr>::tree);
        let status = GssxStatus::decode(d)?;
        let output_cred_handle: Option<GssxCred> = xdr::decode_optional(d)?;
        let options: Vec<GssxOption> = xdr::decode_array(d)?;
        Ok(ResAcquireCred { status, output_cred_handle, options })
    }
}

/// Argument of `export_cred`.
#[derive(Debug, PartialEq, Eq)]
pub struct ArgExportCred {
    pub call_ctx: GssxCallCtx,
    pub input_cred_handle: GssxCred,
    pub cred_usage: i32,
    pub options: Vec<GssxOption>,
}

impl ArgExportCred {
    /// Every field is empty, absent, false or zero.
    pub open spec fn blank(&self) -> bool {
        &&& self.call_ctx.blank()
        &&& self.input_cred_handle.blank()
        &&& self.cred_usage == 0
        &&& self.options@.len() == 0
    }
}

impl Default for ArgExportCred {
    fn default() -> (r: Self)
        ensures
            r.blank(),
    {
        ArgExportCred {
            call_ctx: GssxCallCtx::default(),
            input_cred_handle: GssxCred::default(),
            cred_usage: 0,
            options: Vec::new(),
        }
    }
}

impl Clone for ArgExportCred {
    fn clone(&self) -> (r: Self)
        ensures
            r.tree() == self.tree(),
    {
        reveal(<ArgExportCred as Xdr>::tree);
        let r = ArgExportCred {
            call_ctx: self.call_ctx.clone(),
            input_cred_handle: self.input_cred_handle.clone(),
            cred_usage: self.cred_usage,
            options: self.options.clone(),
        };
        proof {
            xdr::lemma_same_trees(self.options@, r.options@);
        }
        r
    }
}

impl Xdr for ArgExportCred {
    #[verifier::opaque]
    open spec fn shape() -> Shape {
        xdr::pair(
            GssxCallCtx::shape(),
            xdr::pair(
                GssxCred::shape(),
                xdr::pair(i32::shape(), xdr::array_of(GssxOption::shape())),
            ),
        )
    }

    #[verifier::opaque]
    open spec fn tree(&self) -> Tree {
        xdr::both(
            self.call_ctx.tree(),
            xdr::both(
                self.input_cred_handle.tree(),
                xdr::both(self.cred_usage.tree(), xdr::array_tree(self.options@)),
            ),
        )
    }

    open spec fn canonical(&self) -> bool {
        true
    }

    proof fn lemma_fits(&self) {
        broadcast use crate::xdr::group_records;

        reveal(<ArgExportCred as Xdr>::shape);
        reveal(<ArgExportCred as Xdr>::tree);
        self.call_ctx.lemma_fits();
        self.input_cred_handle.lemma_fits();
        self.cred_usage.lemma_fits();
        xdr::lemma_fits_array(self.options@);
    }

    fn encode(&self, e: &mut XdrEncoder) {
        broadcast use crate::xdr::group_records;

        reveal(<ArgExportCred as Xdr>::tree);
        self.call_ctx.encode(e);
        self.input_cred_handle.encode(e);
        self.cred_usage.encode(e);
        xdr::encode_array(e, self.options.as_slice());
    }

    fn decode(d: &mut XdrDecoder) -> (r: XdrResult<Self>) {
        broadcast use crate::xdr::group_records;

        reveal(<ArgExportCred as Xdr>::shape);
        reveal(<ArgExportCred as Xdr>::tree);
        let call_ctx = GssxCallCtx::decode(d)?;
        let input_cred_handle = GssxCred::decode(d)?;
        let cred_usage: i32 = i32::decode(d)?;
        let options: Vec<GssxOption> = xdr::decode_array(d)?;
        Ok(ArgExportCred { call_ctx, input_cred_handle, cred_usage, options })
    }
}

/// Result of `export_cred`.
#[derive(Debug, PartialEq, Eq)]
pub struct ResExportCred {
    pub status: GssxStatus,
    pub usage_exported: i32,
    pub exported_handle: Option<OctetString>,
    pub options: Vec<GssxOption>,
}

impl ResExportCred {
    /// Every field is empty, absent, false or zero.
    pub open spec fn blank(&self) -> bool {
        &&& self.status.blank()
        &&& self.usage_exported == 0
        &&& self.exported_handle is None
        &&& self.options@.len() == 0
    }
}

impl Default for ResExportCred {
    fn default() -> (r: Self)
        ensures
            r.blank(),
    {
        ResExportCred {
            status: GssxStatus::default(),
            usage_exported: 0,
            exported_handle: None,
            options: Vec::new(),
        }
    }
}

impl Clone for ResExportCred {
    fn clone(&self) -> (r: Self)
        ensures
            r.tree() == self.tree(),
    {
        reveal(<ResExportCred as Xdr>::tree);
        let r = ResExportCred {
            status: self.status.clone(),
            usage_exported: self.usage_exported,
            exported_handle: self.exported_handle.clone(),
            options: self.options.clone(),
        };
        proof {
            xdr::lemma_same_trees(self.options@, r.options@);
        }
        r
    }
}

impl Xdr for ResExportCred {
    #[verifier::opaque]
    open spec fn shape() -> Shape {
        xdr::pair(
            GssxStatus::shape(),
            xdr::pair(
                i32::shape(),
                xdr::pair(
                    xdr::optional_of(OctetString::shape()),
                    xdr::array_of(GssxOption::shape()),
                ),
            ),
        )
    }

    #[verifier::opaque]
    open spec fn tree(&self) -> Tree {
        xdr::both(
            self.status.tree(),
            xdr::both(
                self.usage_exported.tree(),
                xdr::both(
                    xdr::optional_tree(self.exported_handle),
                    xdr::array_tree(self.options@),
                ),
            ),
        )
    }

    open spec fn canonical(&self) -> bool {
        true
    }

    proof fn lemma_fits(&self) {
        broadcast use crate::xdr::group_records;

        reveal(<ResExportCred as Xdr>::shape);
        reveal(<ResExportCred as Xdr>::tree);
        self.status.lemma_fits();
        self.usage_exported.lemma_fits();
        xdr::lemma_fits_optional(self.exported_handle);
        xdr::lemma_fits_array(self.options@);
    }

    fn encode(&self, e: &mut XdrEncoder) {
        broadcast use crate::xdr::group_records;

        reveal(<ResExportCred as Xdr>::tree);
        self.status.encode(e);
        self.usage_exported.encode(e);
        xdr::encode_optional(e, &self.exported_handle);
        xdr::encode_array(e, self.options.as_slice());
    }

    fn decode(d: &mut XdrDecoder) -> (r: XdrResult<Self>) {
        broadcast use crate::xdr::group_records;

        reveal(<ResExportCred as Xdr>::shape);
        reveal(<ResExportCred as Xdr>::tree);
        let status = GssxStatus::decode(d)?;
        let usage_exported: i32 = i32::decode(d)?;
        let exported_handle: Option<OctetString> = xdr::decode_optional(d)?;
        let options: Vec<GssxOption> = xdr::decode_array(d)?;
        Ok(ResExportCred { status, usage_exported, exported_handle, options })
    }
}

/// Argument of `import_cred`.
#[derive(Debug, PartialEq, Eq)]
pub struct ArgImportCred {
    pub call_ctx: GssxCallCtx,
    pub exported_handle: OctetString,
    pub options: Vec<GssxOption>,
}

impl ArgImportCred {
    /// Every field is empty, absent, false or zero.
    pub open spec fn blank(&self) -> bool {
        &&& self.call_ctx.blank()
        &&& self.exported_handle@.len() == 0
        &&& self.options@.len() == 0
    }
}

impl Default for ArgImportCred {
    fn default() -> (r: Self)
        ensures
            r.blank(),
    {
        ArgImportCred {
            call_ctx: GssxCallCtx::default(),
            exported_handle: Opaque::default(),
            options: Vec::new(),
        }
    }
}

impl Clone for ArgImportCred {
    fn clone(&self) -> (r: Self)
        ensures
            r.tree() == self.tree(),
    {
        reveal(<ArgImportCred as Xdr>::tree);
        let r = ArgImportCred {
            call_ctx: self.call_ctx.clone(),
            exported_handle: self.exported_handle.clone(),
            options: self.options.clone(),
        };
        proof {
            xdr::lemma_same_trees(self.options@, r.options@);
        }
        r
    }
}

impl Xdr for ArgImportCred {
    #[verifier::opaque]
    open spec fn shape() -> Shape {
        xdr::pair(
            GssxCallCtx::shape(),
            xdr::pair(OctetString::shape(), xdr::array_of(GssxOption::shape())),
        )
    }

    #[verifier::opaque]
    open spec fn tree(&self) -> Tree {
        xdr::both(
            self.call_ctx.tree(),
            xdr::both(self.exported_handle.tree(), xdr::array_tree(self.options@)),
        )
    }

    open spec fn canonical(&self) -> bool {
        true
    }

    proof fn lemma_fits(&self) {
        broadcast use crate::xdr::group_records;

        reveal(<ArgImportCred as Xdr>::shape);
        reveal(<ArgImportCred as Xdr>::tree);
        self.call_ctx.lemma_fits();
        self.exported_handle.lemma_fits();
        xdr::lemma_fits_array(self.options@);
    }

    fn encode(&self, e: &mut XdrEncoder) {
        broadcast use crate::xdr::group_records;

        reveal(<ArgImportCred as Xdr>::tree);
        self.call_ctx.encode(e);
        self.exported_handle.encode(e);
        xdr::encode_array(e, self.options.as_slice());
    }

    fn decode(d: &mut XdrDecoder) -> (r: XdrResult<Self>) {
        broadcast use crate::xdr::group_records;

        reveal(<ArgImportCred as Xdr>::shape);
        reveal(<ArgImportCred as Xdr>::tree);
        let call_ctx = GssxCallCtx::decode(d)?;
        let exported_handle = OctetString::decode(d)?;
        let options: Vec<GssxOption> = xdr::decode_array(d)?;
        Ok(ArgImportCred { call_ctx, exported_handle, options })
    }
}

/// Result of `import_cred`.
#[derive(Debug, PartialEq, Eq)]
pub struct ResImportCred {
    pub status: GssxStatus,
    pub output_cred_handle: Option<GssxCred>,
    pub options: Vec<GssxOption>,
}

impl ResImportCred {
    /// Every field is empty, absent, false or zero.
    pub open spec fn blank(&self) -> bool {
        &&& self.status.blank()
        &&& self.output_cred_handle is None
        &&& self.options@.len() == 0
    }
}

impl Default for ResImportCred {
    fn default() -> (r: Self)
        ensures
            r.blank(),
    {
        ResImportCred {
            status: GssxStatus::default(),
            output_cred_handle: None,
            options: Vec::new(),
        }
    }
}

impl Clone for ResImportCred {
    fn clone(&self) -> (r: Self)
        ensures
            r.tree() == self.tree(),
    {
        reveal(<ResImportCred as Xdr>::tree);
        let r = ResImportCred {
            status: self.status.clone(),
            output_cred_handle: self.output_cred_handle.clone(),
            options: self.options.clone(),
        };
        proof {
            xdr::lemma_same_trees(self.options@, r.options@);
        }
        r
    }
}

impl Xdr for ResImportCred {
    #[verifier::opaque]
    open spec fn shape() -> Shape {
        xdr::pair(
            GssxStatus::shape(),
            xdr::pair(xdr::optional_of(GssxCred::shape()), xdr::array_of(GssxOption::shape())),
        )
    }

    #[verifier::opaque]
    open spec fn tree(&self) -> Tree {
        xdr::both(
            self.status.tree(),
            xdr::both(
                xdr::optional_tree(self.output_cred_handle),
                xdr::array_tree(self.options@),
            ),
        )
    }

    open spec fn canonical(&self) -> bool {
        true
    }

    proof fn lemma_fits(&self) {
        broadcast use crate::xdr::group_records;

        reveal(<ResImportCred as Xdr>::shape);
        reveal(<ResImportCred as Xdr>::tree);
        self.status.lemma_fits();
        xdr::lemma_fits_optional(self.output_cred_handle);
        xdr::lemma_fits_array(self.options@);
    }

    fn encode(&self, e: &mut XdrEncoder) {
        broadcast use crate::xdr::group_records;

        reveal(<ResImportCred as Xdr>::tree);
        self.status.encode(e);
        xdr::encode_optional(e, &self.output_cred_handle);
        xdr::encode_array(e, self.options.as_slice());
    }

    fn decode(d: &mut XdrDecoder) -> (r: XdrResult<Self>) {
        broadcast use crate::xdr::group_records;

        reveal(<ResImportCred as Xdr>::shape);
        reveal(<ResImportCred as Xdr>::tree);
        let status = GssxStatus::decode(d)?;
        let output_cred_handle: Option<GssxCred> = xdr::decode_optional(d)?;
        let options: Vec<GssxOption> = xdr::decode_array(d)?;
        Ok(ResImportCred { status, output_cred_handle, options })
    }
}

/// Argument of `store_cred`.
#[derive(Debug, PartialEq, Eq)]
pub struct ArgStoreCred {
    pub call_ctx: GssxCallCtx,
    pub input_cred_handle: GssxCred,
    pub cred_usage: i32,
    pub desired_mech: GssxOid,
    pub overwrite_cred: bool,
    pub default_cred: bool,
    pub options: Vec<GssxOption>,
}

impl ArgStoreCred {
    /// Every field is empty, absent, false or zero.
    pub open spec fn blank(&self) -> bool {
        &&& self.call_ctx.blank()
        &&& self.input_cred_handle.blank()
        &&& self.cred_usage == 0
        &&& self.desired_mech@.len() == 0
        &&& !self.overwrite_cred
        &&& !self.default_cred
        &&& self.options@.len() == 0
    }
}

impl Default for ArgStoreCred {
    fn default() -> (r: Self)
        ensures
            r.blank(),
    {
        ArgStoreCred {
            call_ctx: GssxCallCtx::default(),
            input_cred_handle: GssxCred::default(),
            cred_usage: 0,
            desired_mech: Opaque::default(),
            overwrite_cred: false,
            default_cred: false,
            options: Vec::new(),
        }
    }
}

impl Clone for ArgStoreCred {
    fn clone(&self) -> (r: Self)
        ensures
            r.tree() == self.tree(),
    {
        reveal(<ArgStoreCred as Xdr>::tree);
        let r = ArgStoreCred {
            call_ctx: self.call_ctx.clone(),
            input_cred_handle: self.input_cred_handle.clone(),
            cred_usage: self.cred_usage,
            desired_mech: self.desired_mech.clone(),
            overwrite_cred: self.overwrite_cred,
            default_cred: self.default_cred,
            options: self.options.clone(),
        };
        proof {
            xdr::lemma_same_trees(self.options@, r.options@);
        }
        r
    }
}

impl Xdr for ArgStoreCred {
    #[verifier::opaque]
    open spec fn shape() -> Shape {
        xdr::pair(
            GssxCallCtx::shape(),
            xdr::pair(
                GssxCred::shape(),
                xdr::pair(
                    i32::shape(),
                    xdr::pair(
                        GssxOid::shape(),
                        xdr::pair(
                            bool::shape(),
                            xdr::pair(bool::shape(), xdr::array_of(GssxOption::shape())),
                        ),
                    ),
                ),
            ),
        )
    }

    #[verifier::opaque]
    open spec fn tree(&self) -> Tree {
        xdr::both(
            self.call_ctx.tree(),
            xdr::both(
                self.input_cred_handle.tree(),
                xdr::both(
                    self.cred_usage.tree(),
                    xdr::both(
                        self.desired_mech.tree(),
                        xdr::both(
                            self.overwrite_cred.tree(),
                            xdr::both(self.default_cred.tree(), xdr::array_tree(self.options@)),
                        ),
                    ),
                ),
            ),
        )
    }

    open spec fn canonical(&self) -> bool {
        true
    }

    proof fn lemma_fits(&self) {
        broadcast use crate::xdr::group_records;

        reveal(<ArgStoreCred as Xdr>::shape);
        reveal(<ArgStoreCred as Xdr>::tree);
        self.call_ctx.lemma_fits();
        self.input_cred_handle.lemma_fits();
        self.cred_usage.lemma_fits();
        self.desired_mech.lemma_fits();
        self.overwrite_cred.lemma_fits();
        self.default_cred.lemma_fits();
        xdr::lemma_fits_array(self.options@);
    }

    fn encode(&self, e: &mut XdrEncoder) {
        broadcast use crate::xdr::group_records;

        reveal(<ArgStoreCred as Xdr>::tree);
        self.call_ctx.encode(e);
        self.input_cred_handle.encode(e);
        self.cred_usage.encode(e);
        self.desired_mech.encode(e);
        self.overwrite_cred.encode(e);
        self.default_cred.encode(e);
        xdr::encode_array(e, self.options.as_slice());
    }

    fn decode(d: &mut XdrDecoder) -> (r: XdrResult<Self>) {
        broadcast use crate::xdr::group_records;

        reveal(<ArgStoreCred as Xdr>::shape);
        reveal(<ArgStoreCred as Xdr>::tree);
        let call_ctx = GssxCallCtx::decode(d)?;
        let input_cred_handle = GssxCred::decode(d)?;
        let cred_usage: i32 = i32::decode(d)?;
        let desired_mech = GssxOid::decode(d)?;
        let overwrite_cred: bool = bool::decode(d)?;
        let default_cred: bool = bool::decode(d)?;
        let options: Vec<GssxOption> = xdr::decode_array(d)?;
        Ok(ArgStoreCred {
            call_ctx,
            input_cred_handle,
            cred_usage,
            desired_mech,
            overwrite_cred,
            default_cred,
            options,
        })
    }
}

/// Result of `store_cred`.
#[derive(Debug, PartialEq, Eq)]
pub struct ResStoreCred {
    pub status: GssxStatus,
    pub elements_stored: GssxOidSet,
    pub cred_usage_stored: i32,
    pub options: Vec<GssxOption>,
}

impl ResStoreCred {
    /// Every field is empty, absent, false or zero.
    pub open spec fn blank(&self) -> bool {
        &&& self.status.blank()
        &&& self.elements_stored@.len() == 0
        &&& self.cred_usage_stored == 0
        &&& self.options@.len() == 0
    }
}

impl Default for ResStoreCred {
    fn default() -> (r: Self)
        ensures
            r.blank(),
    {
        ResStoreCred {
            status: GssxStatus::default(),
            elements_stored: Vec::new(),
            cred_usage_stored: 0,
            options: Vec::new(),
        }
    }
}

impl Clone for ResStoreCred {
    fn clone(&self) -> (r: Self)
        ensures
            r.tree() == self.tree(),
    {
        reveal(<ResStoreCred as Xdr>::tree);
        let r = ResStoreCred {
            status: self.status.clone(),
            elements_stored: self.elements_stored.clone(),
            cred_usage_stored: self.cred_usage_stored,
            options: self.options.clone(),
        };
        proof {
            xdr::lemma_same_trees(self.elements_stored@, r.elements_stored@);
            xdr::lemma_same_trees(self.options@, r.options@);
        }
        r
    }
}

impl Xdr for ResStoreCred {
    #[verifier::opaque]
    open spec fn shape() -> Shape {
        xdr::pair(
            GssxStatus::shape(),
            xdr::pair(
                xdr::array_of(GssxOid::shape()),
                xdr::pair(i32::shape(), xdr::array_of(GssxOption::shape())),
            ),
        )
    }

    #[verifier::opaque]
    open spec fn tree(&self) -> Tree {
        xdr::both(
            self.status.tree(),
            xdr::both(
                xdr::array_tree(self.elements_stored@),
                xdr::both(self.cred_usage_stored.tree(), xdr::array_tree(self.options@)),
            ),
        )
    }

    open spec fn canonical(&self) -> bool {
        true
    }

    proof fn lemma_fits(&self) {
        broadcast use crate::xdr::group_records;

        reveal(<ResStoreCred as Xdr>::shape);
        reveal(<ResStoreCred as Xdr>::tree);
        self.status.lemma_fits();
        xdr::lemma_fits_array(self.elements_stored@);
        self.cred_usage_stored.lemma_fits();
        xdr::lemma_fits_array(self.options@);
    }

    fn encode(&self, e: &mut XdrEncoder) {
        broadcast use crate::xdr::group_records;

        reveal(<ResStoreCred as Xdr>::tree);
        self.status.encode(e);
        xdr::encode_array(e, self.elements_stored.as_slice());
        self.cred_usage_stored.encode(e);
        xdr::encode_array(e, self.options.as_slice());
    }

    fn decode(d: &mut XdrDecoder) -> (r: XdrResult<Self>) {
        broadcast use crate::xdr::group_records;

        reveal(<ResStoreCred as Xdr>::shape);
        reveal(<ResStoreCred as Xdr>::tree);
        let status = GssxStatus::decode(d)?;
        let elements_stored: GssxOidSet = xdr::decode_array(d)?;
        let cred_usage_stored: i32 = i32::decode(d)?;
        let options: Vec<GssxOption> = xdr::decode_array(d)?;
        Ok(ResStoreCred { status, elements_stored, cred_usage_stored, options })
    }
}

/// Argument of `init_sec_context`.
#[derive(Debug, PartialEq, Eq)]
pub struct ArgInitSecContext {
    pub call_ctx: GssxCallCtx,
    pub context_handle: Option<GssxCtx>,
    pub cred_handle: Option<GssxCred>,
    pub target_name: Option<GssxName>,
    pub mech_type: GssxOid,
    pub req_flags: u64,
    pub time_req: u64,
    pub input_cb: Option<GssxCb>,
    pub input_token: Option<GssxBuffer>,
    pub options: Vec<GssxOption>,
}

impl ArgInitSecContext {
    /// Every field is empty, absent, false or zero.
    pub open spec fn blank(&self) -> bool {
        &&& self.call_ctx.blank()
        &&& self.context_handle is None
        &&& self.cred_handle is None
        &&& self.target_name is None
        &&& self.mech_type@.len() == 0
        &&& self.req_flags == 0
        &&& self.time_req == 0
        &&& self.input_cb is None
        &&& self.input_token is None
        &&& self.options@.len() == 0
    }
}

impl Default for ArgInitSecContext {
    fn default() -> (r: Self)
        ensures
            r.blank(),
    {
        ArgInitSecContext {
            call_ctx: GssxCallCtx::default(),
            context_handle: None,
            cred_handle: None,
            target_name: None,
            mech_type: Opaque::default(),
            req_flags: 0,
            time_req: 0,
            input_cb: None,
            input_token: None,
            options: Vec::new(),
        }
    }
}

impl Clone for ArgInitSecContext {
    fn clone(&self) -> (r: Self)
        ensures
            r.tree() == self.tree(),
    {
        reveal(<ArgInitSecContext as Xdr>::tree);
        let r = ArgInitSecContext {
            call_ctx: self.call_ctx.clone(),
            context_handle: self.context_handle.clone(),
            cred_handle: self.cred_handle.clone(),
            target_name: self.target_name.clone(),
            mech_type: self.mech_type.clone(),
            req_flags: self.req_flags,
            time_req: self.time_req,
            input_cb: self.input_cb.clone(),
            input_token: self.input_token.clone(),
            options: self.options.clone(),
        };
        proof {
            xdr::lemma_same_trees(self.options@, r.options@);
        }
        r
    }
}

impl Xdr for ArgInitSecContext {
    #[verifier::opaque]
    open spec fn shape() -> Shape {
        xdr::pair(
            GssxCallCtx::shape(),
            xdr::pair(
                xdr::optional_of(GssxCtx::shape()),
                xdr::pair(
                    xdr::optional_of(GssxCred::shape()),
                    xdr::pair(
                        xdr::optional_of(GssxName::shape()),
                        xdr::pair(
                            GssxOid::shape(),
                            xdr::pair(
                                u64::shape(),
                                xdr::pair(
                                    u64::shape(),
                                    xdr::pair(
                                        xdr::optional_of(GssxCb::shape()),
                                        xdr::pair(
                                            xdr::optional_of(GssxBuffer::shape()),
                                            xdr::array_of(GssxOption::shape()),
                                        ),
                                    ),
                                ),
                            ),
                        ),
                    ),
                ),
            ),
        )
    }

    #[verifier::opaque]
    open spec fn tree(&self) -> Tree {
        xdr::both(
            self.call_ctx.tree(),
            xdr::both(
                xdr::optional_tree(self.context_handle),
                xdr::both(
                    xdr::optional_tree(self.cred_handle),
                    xdr::both(
                        xdr::optional_tree(self.target_name),
                        xdr::both(
                            self.mech_type.tree(),
                            xdr::both(
                                self.req_flags.tree(),
                                xdr::both(
                                    self.time_req.tree(),
                                    xdr::both(
                                        xdr::optional_tree(self.input_cb),
                                        xdr::both(
                                            xdr::optional_tree(self.input_token),
                                            xdr::array_tree(self.options@),
                                        ),
                                    ),
                                ),
                            ),
                        ),
                    ),
                ),
            ),
        )
    }

    open spec fn canonical(&self) -> bool {
        true
    }

    proof fn lemma_fits(&self) {
        broadcast use crate::xdr::group_records;

        reveal(<ArgInitSecContext as Xdr>::shape);
        reveal(<ArgInitSecContext as Xdr>::tree);
        self.call_ctx.lemma_fits();
        xdr::lemma_fits_optional(self.context_handle);
        xdr::lemma_fits_optional(self.cred_handle);
        xdr::lemma_fits_optional(self.target_name);
        self.mech_type.lemma_fits();
        self.req_flags.lemma_fits();
        self.time_req.lemma_fits();
        xdr::lemma_fits_optional(self.input_cb);
        xdr::lemma_fits_optional(self.input_token);
        xdr::lemma_fits_array(self.options@);
    }

    fn encode(&self, e: &mut XdrEncoder) {
        broadcast use crate::xdr::group_records;

        reveal(<ArgInitSecContext as Xdr>::tree);
        self.call_ctx.encode(e);
        xdr::encode_optional(e, &self.context_handle);
        xdr::encode_optional(e, &self.cred_handle);
        xdr::encode_optional(e, &self.target_name);
        self.mech_type.encode(e);
        self.req_flags.encode(e);
        self.time_req.encode(e);
        xdr::encode_optional(e, &self.input_cb);
        xdr::encode_optional(e, &self.input_token);
        xdr::encode_array(e, self.options.as_slice());
    }

    fn decode(d: &mut XdrDecoder) -> (r: XdrResult<Self>) {
        broadcast use crate::xdr::group_records;

        reveal(<ArgInitSecContext as Xdr>::shape);
        reveal(<ArgInitSecContext as Xdr>::tree);
        let call_ctx = GssxCallCtx::decode(d)?;
        let context_handle: Option<GssxCtx> = xdr::decode_optional(d)?;
        let cred_handle: Option<GssxCred> = xdr::decode_optional(d)?;
        let target_name: Option<GssxName> = xdr::decode_optional(d)?;
        let mech_type = GssxOid::decode(d)?;
        let req_flags: u64 = u64::decode(d)?;
        let time_req: u64 = u64::decode(d)?;
        let input_cb: Option<GssxCb> = xdr::decode_optional(d)?;
        let input_token: Option<GssxBuffer> = xdr::decode_optional(d)?;
        let options: Vec<GssxOption> = xdr::decode_array(d)?;
        Ok(ArgInitSecContext {
            call_ctx,
            context_handle,
            cred_handle,
            target_name,
            mech_type,
            req_flags,
            time_req,
            input_cb,
            input_token,
            options,
        })
    }
}

/// Result of `init_sec_context`.
#[derive(Debug, PartialEq, Eq)]
pub struct ResInitSecContext {
    pub status: GssxStatus,
    pub context_handle: Option<GssxCtx>,
    pub output_token: Option<GssxBuffer>,
    pub options: Vec<GssxOption>,
}

impl ResInitSecContext {
    /// Every field is empty, absent, false or zero.
    pub open spec fn blank(&self) -> bool {
        &&& self.status.blank()
        &&& self.context_handle is None
        &&& self.output_token is None
        &&& self.options@.len() == 0
    }
}

impl Default for ResInitSecContext {
    fn default() -> (r: Self)
        ensures
            r.blank(),
    {
        ResInitSecContext {
            status: GssxStatus::default(),
            context_handle: None,
            output_token: None,
            options: Vec::new(),
        }
    }
}

impl Clone for ResInitSecContext {
    fn clone(&self) -> (r: Self)
        ensures
            r.tree() == self.tree(),
    {
        reveal(<ResInitSecContext as Xdr>::tree);
        let r = ResInitSecContext {
            status: self.status.clone(),
            context_handle: self.context_handle.clone(),
            output_token: self.output_token.clone(),
            options: self.options.clone(),
        };
        proof {
            xdr::lemma_same_trees(self.options@, r.options@);
        }
        r
    }
}

impl Xdr for ResInitSecContext {
    #[verifier::opaque]
    open spec fn shape() -> Shape {
        xdr::pair(
            GssxStatus::shape(),
            xdr::pair(
                xdr::optional_of(GssxCtx::shape()),
                xdr::pair(
                    xdr::optional_of(GssxBuffer::shape()),
                    xdr::array_of(GssxOption::shape()),
                ),
            ),
        )
    }

    #[verifier::opaque]
    open spec fn tree(&self) -> Tree {
        xdr::both(
            self.status.tree(),
            xdr::both(
                xdr::optional_tree(self.context_handle),
                xdr::both(xdr::optional_tree(self.output_token), xdr::array_tree(self.options@)),
            ),
        )
    }

    open spec fn canonical(&self) -> bool {
        true
    }

    proof fn lemma_fits(&self) {
        broadcast use crate::xdr::group_records;

        reveal(<ResInitSecContext as Xdr>::shape);
        reveal(<ResInitSecContext as Xdr>::tree);
        self.status.lemma_fits();
        xdr::lemma_fits_optional(self.context_handle);
        xdr::lemma_fits_optional(self.output_token);
        xdr::lemma_fits_array(self.options@);
    }

    fn encode(&self, e: &mut XdrEncoder) {
        broadcast use crate::xdr::group_records;

        reveal(<ResInitSecContext as Xdr>::tree);
        self.status.encode(e);
        xdr::encode_optional(e, &self.context_handle);
        xdr::encode_optional(e, &self.output_token);
        xdr::encode_array(e, self.options.as_slice());
    }

    fn decode(d: &mut XdrDecoder) -> (r: XdrResult<Self>) {
        broadcast use crate::xdr::group_records;

        reveal(<ResInitSecContext as Xdr>::shape);
        reveal(<ResInitSecContext as Xdr>::tree);
        let status = GssxStatus::decode(d)?;
        let context_handle: Option<GssxCtx> = xdr::decode_optional(d)?;
        let output_token: Option<GssxBuffer> = xdr::decode_optional(d)?;
        let options: Vec<GssxOption> = xdr::decode_array(d)?;
        Ok(ResInitSecContext { status, context_handle, output_token, options })
    }
}

/// Argument of `accept_sec_context`.
#[derive(Debug, PartialEq, Eq)]
pub struct ArgAcceptSecContext {
    pub call_ctx: GssxCallCtx,
    pub context_handle: Option<GssxCtx>,
    pub cred_handle: Option<GssxCred>,
    pub input_token: GssxBuffer,
    pub input_cb: Option<GssxCb>,
    pub ret_deleg_cred: bool,
    pub options: Vec<GssxOption>,
}

impl ArgAcceptSecContext {
    /// Every field is empty, absent, false or zero.
    pub open spec fn blank(&self) -> bool {
        &&& self.call_ctx.blank()
        &&& self.context_handle is None
        &&& self.cred_handle is None
        &&& self.input_token@.len() == 0
        &&& self.input_cb is None
        &&& !self.ret_deleg_cred
        &&& self.options@.len() == 0
    }
}

impl Default for ArgAcceptSecContext {
    fn default() -> (r: Self)
        ensures
            r.blank(),
    {
        ArgAcceptSecContext {
            call_ctx: GssxCallCtx::default(),
            context_handle: None,
            cred_handle: None,
            input_token: Opaque::default(),
            input_cb: None,
            ret_deleg_cred: false,
            options: Vec::new(),
        }
    }
}

impl Clone for ArgAcceptSecContext {
    fn clone(&self) -> (r: Self)
        ensures
            r.tree() == self.tree(),
    {
        reveal(<ArgAcceptSecContext as Xdr>::tree);
        let r = ArgAcceptSecContext {
            call_ctx: self.call_ctx.clone(),
            context_handle: self.context_handle.clone(),
            cred_handle: self.cred_handle.clone(),
            input_token: self.input_token.clone(),
            input_cb: self.input_cb.clone(),
            ret_deleg_cred: self.ret_deleg_cred,
            options: self.options.clone(),
        };
        proof {
            xdr::lemma_same_trees(self.options@, r.options@);
        }
        r
    }
}

impl Xdr for ArgAcceptSecContext {
    #[verifier::opaque]
    open spec fn shape() -> Shape {
        xdr::pair(
            GssxCallCtx::shape(),
            xdr::pair(
                xdr::optional_of(GssxCtx::shape()),
                xdr::pair(
                    xdr::optional_of(GssxCred::shape()),
                    xdr::pair(
                        GssxBuffer::shape(),
                        xdr::pair(
                            xdr::optional_of(GssxCb::shape()),
                            xdr::pair(bool::shape(), xdr::array_of(GssxOption::shape())),
                        ),
                    ),
                ),
            ),
        )
    }

    #[verifier::opaque]
    open spec fn tree(&self) -> Tree {
        xdr::both(
            self.call_ctx.tree(),
            xdr::both(
                xdr::optional_tree(self.context_handle),
                xdr::both(
                    xdr::optional_tree(self.cred_handle),
                    xdr::both(
                        self.input_token.tree(),
                        xdr::both(
                            xdr::optional_tree(self.input_cb),
                            xdr::both(
                                self.ret_deleg_cred.tree(),
                                xdr::array_tree(self.options@),
                            ),
                        ),
                    ),
                ),
            ),
        )
    }

    open spec fn canonical(&self) -> bool {
        true
    }

    proof fn lemma_fits(&self) {
        broadcast use crate::xdr::group_records;

        reveal(<ArgAcceptSecContext as Xdr>::shape);
        reveal(<ArgAcceptSecContext as Xdr>::tree);
        self.call_ctx.lemma_fits();
        xdr::lemma_fits_optional(self.context_handle);
        xdr::lemma_fits_optional(self.cred_handle);
        self.input_token.lemma_fits();
        xdr::lemma_fits_optional(self.input_cb);
        self.ret_deleg_cred.lemma_fits();
        xdr::lemma_fits_array(self.options@);
    }

    fn encode(&self, e: &mut XdrEncoder) {
        broadcast use crate::xdr::group_records;

        reveal(<ArgAcceptSecContext as Xdr>::tree);
        self.call_ctx.encode(e);
        xdr::encode_optional(e, &self.context_handle);
        xdr::encode_optional(e, &self.cred_handle);
        self.input_token.encode(e);
        xdr::encode_optional(e, &self.input_cb);
        self.ret_deleg_cred.encode(e);
        xdr::encode_array(e, self.options.as_slice());
    }

    fn decode(d: &mut XdrDecoder) -> (r: XdrResult<Self>) {
        broadcast use crate::xdr::group_records;

        reveal(<ArgAcceptSecContext as Xdr>::shape);
        reveal(<ArgAcceptSecContext as Xdr>::tree);
        let call_ctx = GssxCallCtx::decode(d)?;
        let context_handle: Option<GssxCtx> = xdr::decode_optional(d)?;
        let cred_handle: Option<GssxCred> = xdr::decode_optional(d)?;
        let input_token = GssxBuffer::decode(d)?;
        let input_cb: Option<GssxCb> = xdr::decode_optional(d)?;
        let ret_deleg_cred: bool = bool::decode(d)?;
        let options: Vec<GssxOption> = xdr::decode_array(d)?;
        Ok(ArgAcceptSecContext {
            call_ctx,
            context_handle,
            cred_handle,
            input_token,
            input_cb,
            ret_deleg_cred,
            options,
        })
    }
}

/// Result of `accept_sec_context`.
#[derive(Debug, PartialEq, Eq)]
pub struct ResAcceptSecContext {
    pub status: GssxStatus,
    pub context_handle: Option<GssxCtx>,
    pub output_token: Option<GssxBuffer>,
    pub delegated_cred_handle: Option<GssxCred>,
    pub options: Vec<GssxOption>,
}

impl ResAcceptSecContext {
    /// Every field is empty, absent, false or zero.
    pub open spec fn blank(&self) -> bool {
        &&& self.status.blank()
        &&& self.context_handle is None
        &&& self.output_token is None
        &&& self.delegated_cred_handle is None
        &&& self.options@.len() == 0
    }
}

impl Default for ResAcceptSecContext {
    fn default() -> (r: Self)
        ensures
            r.blank(),
    {
        ResAcceptSecContext {
            status: GssxStatus::default(),
            context_handle: None,
            output_token: None,
            delegated_cred_handle: None,
            options: Vec::new(),
        }
    }
}

impl Clone for ResAcceptSecContext {
    fn clone(&self) -> (r: Self)
        ensures
            r.tree() == self.tree(),
    {
        reveal(<ResAcceptSecContext as Xdr>::tree);
        let r = ResAcceptSecContext {
            status: self.status.clone(),
            context_handle: self.context_handle.clone(),
            output_token: self.output_token.clone(),
            delegated_cred_handle: self.delegated_cred_handle.clone(),
            options: self.options.clone(),
        };
        proof {
            xdr::lemma_same_trees(self.options@, r.options@);
        }
        r
    }
}

impl Xdr for ResAcceptSecContext {
    #[verifier::opaque]
    open spec fn shape() -> Shape {
        xdr::pair(
            GssxStatus::shape(),
            xdr::pair(
                xdr::optional_of(GssxCtx::shape()),
                xdr::pair(
                    xdr::optional_of(GssxBuffer::shape()),
                    xdr::pair(
                        xdr::optional_of(GssxCred::shape()),
                        xdr::array_of(GssxOption::shape()),
                    ),
                ),
            ),
        )
    }

    #[verifier::opaque]
    open spec fn tree(&self) -> Tree {
        xdr::both(
            self.status.tree(),
            xdr::both(
                xdr::optional_tree(self.context_handle),
                xdr::both(
                    xdr::optional_tree(self.output_token),
                    xdr::both(
                        xdr::optional_tree(self.delegated_cred_handle),
                        xdr::array_tree(self.options@),
                    ),
                ),
            ),
        )
    }

    open spec fn canonical(&self) -> bool {
        true
    }

    proof fn lemma_fits(&self) {
        broadcast use crate::xdr::group_records;

        reveal(<ResAcceptSecContext as Xdr>::shape);
        reveal(<ResAcceptSecContext as Xdr>::tree);
        self.status.lemma_fits();
        xdr::lemma_fits_optional(self.context_handle);
        xdr::lemma_fits_optional(self.output_token);
        xdr::lemma_fits_optional(self.delegated_cred_handle);
        xdr::lemma_fits_array(self.options@);
    }

    fn encode(&self, e: &mut XdrEncoder) {
        broadcast use crate::xdr::group_records;

        reveal(<ResAcceptSecContext as Xdr>::tree);
        self.status.encode(e);
        xdr::encode_optional(e, &self.context_handle);
        xdr::encode_optional(e, &self.output_token);
        xdr::encode_optional(e, &self.delegated_cred_handle);
        xdr::encode_array(e, self.options.as_slice());
    }

    fn decode(d: &mut XdrDecoder) -> (r: XdrResult<Self>) {
        broadcast use crate::xdr::group_records;

        reveal(<ResAcceptSecContext as Xdr>::shape);
        reveal(<ResAcceptSecContext as Xdr>::tree);
        let status = GssxStatus::decode(d)?;
        let context_handle: Option<GssxCtx> = xdr::decode_optional(d)?;
        let output_token: Option<GssxBuffer> = xdr::decode_optional(d)?;
        let delegated_cred_handle: Option<GssxCred> = xdr::decode_optional(d)?;
        let options: Vec<GssxOption> = xdr::decode_array(d)?;
        Ok(ResAcceptSecContext {
            status,
            context_handle,
            output_token,
            delegated_cred_handle,
            options,
        })
    }
}

/// Argument of `get_mic`.
#[derive(Debug, PartialEq, Eq)]
pub struct ArgGetMic {
    pub call_ctx: GssxCallCtx,
    pub context_handle: GssxCtx,
    pub qop_req: u64,
    pub message_buffer: GssxBuffer,
}

impl ArgGetMic {
    /// Every field is empty, absent, false or zero.
    pub open spec fn blank(&self) -> bool {
        &&& self.call_ctx.blank()
        &&& self.context_handle.blank()
        &&& self.qop_req == 0
        &&& self.message_buffer@.len() == 0
    }
}

impl Default for ArgGetMic {
    fn default() -> (r: Self)
        ensures
            r.blank(),
    {
        ArgGetMic {
            call_ctx: GssxCallCtx::default(),
            context_handle: GssxCtx::default(),
            qop_req: 0,
            message_buffer: Opaque::default(),
        }
    }
}

impl Clone for ArgGetMic {
    fn clone(&self) -> (r: Self)
        ensures
            r.tree() == self.tree(),
    {
        reveal(<ArgGetMic as Xdr>::tree);
        let r = ArgGetMic {
            call_ctx: self.call_ctx.clone(),
            context_handle: self.context_handle.clone(),
            qop_req: self.qop_req,
            message_buffer: self.message_buffer.clone(),
        };
        r
    }
}

impl Xdr for ArgGetMic {
    #[verifier::opaque]
    open spec fn shape() -> Shape {
        xdr::pair(
            GssxCallCtx::shape(),
            xdr::pair(GssxCtx::shape(), xdr::pair(u64::shape(), GssxBuffer::shape())),
        )
    }

    #[verifier::opaque]
    open spec fn tree(&self) -> Tree {
        xdr::both(
            self.call_ctx.tree(),
            xdr::both(
                self.context_handle.tree(),
                xdr::both(self.qop_req.tree(), self.message_buffer.tree()),
            ),
        )
    }

    open spec fn canonical(&self) -> bool {
        true
    }

    proof fn lemma_fits(&self) {
        broadcast use crate::xdr::group_records;

        reveal(<ArgGetMic as Xdr>::shape);
        reveal(<ArgGetMic as Xdr>::tree);
        self.call_ctx.lemma_fits();
        self.context_handle.lemma_fits();
        self.qop_req.lemma_fits();
        self.message_buffer.lemma_fits();
    }

    fn encode(&self, e: &mut XdrEncoder) {
        broadcast use crate::xdr::group_records;

        reveal(<ArgGetMic as Xdr>::tree);
        self.call_ctx.encode(e);
        self.context_handle.encode(e);
        self.qop_req.encode(e);
        self.message_buffer.encode(e);
    }

    fn decode(d: &mut XdrDecoder) -> (r: XdrResult<Self>) {
        broadcast use crate::xdr::group_records;

        reveal(<ArgGetMic as Xdr>::shape);
        reveal(<ArgGetMic as Xdr>::tree);
        let call_ctx = GssxCallCtx::decode(d)?;
        let context_handle = GssxCtx::decode(d)?;
        let qop_req: u64 = u64::decode(d)?;
        let message_buffer = GssxBuffer::decode(d)?;
        Ok(ArgGetMic { call_ctx, context_handle, qop_req, message_buffer })
    }
}

/// Result of `get_mic`.
#[derive(Debug, PartialEq, Eq)]
pub struct ResGetMic {
    pub status: GssxStatus,
    pub context_handle: Option<GssxCtx>,
    pub token_buffer: GssxBuffer,
    pub qop_state: Option<u64>,
}

impl ResGetMic {
    /// Every field is empty, absent, false or zero.
    pub open spec fn blank(&self) -> bool {
        &&& self.status.blank()
        &&& self.context_handle is None
        &&& self.token_buffer@.len() == 0
        &&& self.qop_state is None
    }
}

impl Default for ResGetMic {
    fn default() -> (r: Self)
        ensures
            r.blank(),
    {
        ResGetMic {
            status: GssxStatus::default(),
            context_handle: None,
            token_buffer: Opaque::default(),
            qop_state: None,
        }
    }
}

impl Clone for ResGetMic {
    fn clone(&self) -> (r: Self)
        ensures
            r.tree() == self.tree(),
    {
        reveal(<ResGetMic as Xdr>::tree);
        let r = ResGetMic {
            status: self.status.clone(),
            context_handle: self.context_handle.clone(),
            token_buffer: self.token_buffer.clone(),
            qop_state: self.qop_state.clone(),
        };
        r
    }
}

impl Xdr for ResGetMic {
    #[verifier::opaque]
    open spec fn shape() -> Shape {
        xdr::pair(
            GssxStatus::shape(),
            xdr::pair(
                xdr::optional_of(GssxCtx::shape()),
                xdr::pair(GssxBuffer::shape(), xdr::optional_of(u64::shape())),
            ),
        )
    }

    #[verifier::opaque]
    open spec fn tree(&self) -> Tree {
        xdr::both(
            self.status.tree(),
            xdr::both(
                xdr::optional_tree(self.context_handle),
                xdr::both(self.token_buffer.tree(), xdr::optional_tree(self.qop_state)),
            ),
        )
    }

    open spec fn canonical(&self) -> bool {
        true
    }

    proof fn lemma_fits(&self) {
        broadcast use crate::xdr::group_records;

        reveal(<ResGetMic as Xdr>::shape);
        reveal(<ResGetMic as Xdr>::tree);
        self.status.lemma_fits();
        xdr::lemma_fits_optional(self.context_handle);
        self.token_buffer.lemma_fits();
        xdr::lemma_fits_optional(self.qop_state);
    }

    fn encode(&self, e: &mut XdrEncoder) {
        broadcast use crate::xdr::group_records;

        reveal(<ResGetMic as Xdr>::tree);
        self.status.encode(e);
        xdr::encode_optional(e, &self.context_handle);
        self.token_buffer.encode(e);
        xdr::encode_optional(e, &self.qop_state);
    }

    fn decode(d: &mut XdrDecoder) -> (r: XdrResult<Self>) {
        broadcast use crate::xdr::group_records;

        reveal(<ResGetMic as Xdr>::shape);
        reveal(<ResGetMic as Xdr>::tree);
        let status = GssxStatus::decode(d)?;
        let context_handle: Option<GssxCtx> = xdr::decode_optional(d)?;
        let token_buffer = GssxBuffer::decode(d)?;
        let qop_state: Option<u64> = xdr::decode_optional(d)?;
        Ok(ResGetMic { status, context_handle, token_buffer, qop_state })
    }
}

/// Argument of `verify_mic`.
#[derive(Debug, PartialEq, Eq)]
pub struct ArgVerifyMic {
    pub call_ctx: GssxCallCtx,
    pub context_handle: GssxCtx,
    pub message_buffer: GssxBuffer,
    pub token_buffer: GssxBuffer,
}

impl ArgVerifyMic {
    /// Every field is empty, absent, false or zero.
    pub open spec fn blank(&self) -> bool {
        &&& self.call_ctx.blank()
        &&& self.context_handle.blank()
        &&& self.message_buffer@.len() == 0
        &&& self.token_buffer@.len() == 0
    }
}

impl Default for ArgVerifyMic {
    fn default() -> (r: Self)
        ensures
            r.blank(),
    {
        ArgVerifyMic {
            call_ctx: GssxCallCtx::default(),
            context_handle: GssxCtx::default(),
            message_buffer: Opaque::default(),
            token_buffer: Opaque::default(),
        }
    }
}

impl Clone for ArgVerifyMic {
    fn clone(&self) -> (r: Self)
        ensures
            r.tree() == self.tree(),
    {
        reveal(<ArgVerifyMic as Xdr>::tree);
        let r = ArgVerifyMic {
            call_ctx: self.call_ctx.clone(),
            context_handle: self.context_handle.clone(),
            message_buffer: self.message_buffer.clone(),
            token_buffer: self.token_buffer.clone(),
        };
        r
    }
}

impl Xdr for ArgVerifyMic {
    #[verifier::opaque]
    open spec fn shape() -> Shape {
        xdr::pair(
            GssxCallCtx::shape(),
            xdr::pair(GssxCtx::shape(), xdr::pair(GssxBuffer::shape(), GssxBuffer::shape())),
        )
    }

    #[verifier::opaque]
    open spec fn tree(&self) -> Tree {
        xdr::both(
            self.call_ctx.tree(),
            xdr::both(
                self.context_handle.tree(),
                xdr::both(self.message_buffer.tree(), self.token_buffer.tree()),
            ),
        )
    }

    open spec fn canonical(&self) -> bool {
        true
    }

    proof fn lemma_fits(&self) {
        broadcast use crate::xdr::group_records;

        reveal(<ArgVerifyMic as Xdr>::shape);
        reveal(<ArgVerifyMic as Xdr>::tree);
        self.call_ctx.lemma_fits();
        self.context_handle.lemma_fits();
        self.message_buffer.lemma_fits();
        self.token_buffer.lemma_fits();
    }

    fn encode(&self, e: &mut XdrEncoder) {
        broadcast use crate::xdr::group_records;

        reveal(<ArgVerifyMic as Xdr>::tree);
        self.call_ctx.encode(e);
        self.context_handle.encode(e);
        self.message_buffer.encode(e);
        self.token_buffer.encode(e);
    }

    fn decode(d: &mut XdrDecoder) -> (r: XdrResult<Self>) {
        broadcast use crate::xdr::group_records;

        reveal(<ArgVerifyMic as Xdr>::shape);
        reveal(<ArgVerifyMic as Xdr>::tree);
        let call_ctx = GssxCallCtx::decode(d)?;
        let context_handle = GssxCtx::decode(d)?;
        let message_buffer = GssxBuffer::decode(d)?;
        let token_buffer = GssxBuffer::decode(d)?;
        Ok(ArgVerifyMic { call_ctx, context_handle, message_buffer, token_buffer })
    }
}

/// Result of `verify_mic`.
#[derive(Debug, PartialEq, Eq)]
pub struct ResVerifyMic {
    pub status: GssxStatus,
    pub context_handle: Option<GssxCtx>,
    pub qop_state: Option<u64>,
}

impl ResVerifyMic {
    /// Every field is empty, absent, false or zero.
    pub open spec fn blank(&self) -> bool {
        &&& self.status.blank()
        &&& self.context_handle is None
        &&& self.qop_state is None
    }
}

impl Default for ResVerifyMic {
    fn default() -> (r: Self)
        ensures
            r.blank(),
    {
        ResVerifyMic {
            status: GssxStatus::default(),
            context_handle: None,
            qop_state: None,
        }
    }
}

impl Clone for ResVerifyMic {
    fn clone(&self) -> (r: Self)
        ensures
            r.tree() == self.tree(),
    {
        reveal(<ResVerifyMic as Xdr>::tree);
        let r = ResVerifyMic {
            status: self.status.clone(),
            context_handle: self.context_handle.clone(),
            qop_state: self.qop_state.clone(),
        };
        r
    }
}

impl Xdr for ResVerifyMic {
    #[verifier::opaque]
    open spec fn shape() -> Shape {
        xdr::pair(
            GssxStatus::shape(),
            xdr::pair(xdr::optional_of(GssxCtx::shape()), xdr::optional_of(u64::shape())),
        )
    }

    #[verifier::opaque]
    open spec fn tree(&self) -> Tree {
        xdr::both(
            self.status.tree(),
            xdr::both(
                xdr::optional_tree(self.context_handle),
                xdr::optional_tree(self.qop_state),
            ),
        )
    }

    open spec fn canonical(&self) -> bool {
        true
    }

    proof fn lemma_fits(&self) {
        broadcast use crate::xdr::group_records;

        reveal(<ResVerifyMic as Xdr>::shape);
        reveal(<ResVerifyMic as Xdr>::tree);
        self.status.lemma_fits();
        xdr::lemma_fits_optional(self.context_handle);
        xdr::lemma_fits_optional(self.qop_state);
    }

    fn encode(&self, e: &mut XdrEncoder) {
        broadcast use crate::xdr::group_records;

        reveal(<ResVerifyMic as Xdr>::tree);
        self.status.encode(e);
        xdr::encode_optional(e, &self.context_handle);
        xdr::encode_optional(e, &self.qop_state);
    }

    fn decode(d: &mut XdrDecoder) -> (r: XdrResult<Self>) {
        broadcast use crate::xdr::group_records;

        reveal(<ResVerifyMic as Xdr>::shape);
        reveal(<ResVerifyMic as Xdr>::tree);
        let status = GssxStatus::decode(d)?;
        let context_handle: Option<GssxCtx> = xdr::decode_optional(d)?;
        let qop_state: Option<u64> = xdr::decode_optional(d)?;
        Ok(ResVerifyMic { status, context_handle, qop_state })
    }
}

/// Argument of `wrap`.
#[derive(Debug, PartialEq, Eq)]
pub struct ArgWrap {
    pub call_ctx: GssxCallCtx,
    pub context_handle: GssxCtx,
    pub conf_req: bool,
    pub message_buffer: Vec<GssxBuffer>,
    pub qop_state: u64,
}

impl ArgWrap {
    /// Every field is empty, absent, false or zero.
    pub open spec fn blank(&self) -> bool {
        &&& self.call_ctx.blank()
        &&& self.context_handle.blank()
        &&& !self.conf_req
        &&& self.message_buffer@.len() == 0
        &&& self.qop_state == 0
    }
}

impl Default for ArgWrap {
    fn default() -> (r: Self)
        ensures
            r.blank(),
    {
        ArgWrap {
            call_ctx: GssxCallCtx::default(),
            context_handle: GssxCtx::default(),
            conf_req: false,
            message_buffer: Vec::new(),
            qop_state: 0,
        }
    }
}

impl Clone for ArgWrap {
    fn clone(&self) -> (r: Self)
        ensures
            r.tree() == self.tree(),
    {
        reveal(<ArgWrap as Xdr>::tree);
        let r = ArgWrap {
            call_ctx: self.call_ctx.clone(),
            context_handle: self.context_handle.clone(),
            conf_req: self.conf_req,
            message_buffer: self.message_buffer.clone(),
            qop_state: self.qop_state,
        };
        proof {
            xdr::lemma_same_trees(self.message_buffer@, r.message_buffer@);
        }
        r
    }
}

impl Xdr for ArgWrap {
    #[verifier::opaque]
    open spec fn shape() -> Shape {
        xdr::pair(
            GssxCallCtx::shape(),
            xdr::pair(
                GssxCtx::shape(),
                xdr::pair(
                    bool::shape(),
                    xdr::pair(xdr::array_of(GssxBuffer::shape()), u64::shape()),
                ),
            ),
        )
    }

    #[verifier::opaque]
    open spec fn tree(&self) -> Tree {
        xdr::both(
            self.call_ctx.tree(),
            xdr::both(
                self.context_handle.tree(),
                xdr::both(
                    self.conf_req.tree(),
                    xdr::both(xdr::array_tree(self.message_buffer@), self.qop_state.tree()),
                ),
            ),
        )
    }

    open spec fn canonical(&self) -> bool {
        true
    }

    proof fn lemma_fits(&self) {
        broadcast use crate::xdr::group_records;

        reveal(<ArgWrap as Xdr>::shape);
        reveal(<ArgWrap as Xdr>::tree);
        self.call_ctx.lemma_fits();
        self.context_handle.lemma_fits();
        self.conf_req.lemma_fits();
        xdr::lemma_fits_array(self.message_buffer@);
        self.qop_state.lemma_fits();
    }

    fn encode(&self, e: &mut XdrEncoder) {
        broadcast use crate::xdr::group_records;

        reveal(<ArgWrap as Xdr>::tree);
        self.call_ctx.encode(e);
        self.context_handle.encode(e);
        self.conf_req.encode(e);
        xdr::encode_array(e, self.message_buffer.as_slice());
        self.qop_state.encode(e);
    }

    fn decode(d: &mut XdrDecoder) -> (r: XdrResult<Self>) {
        broadcast use crate::xdr::group_records;

        reveal(<ArgWrap as Xdr>::shape);
        reveal(<ArgWrap as Xdr>::tree);
        let call_ctx = GssxCallCtx::decode(d)?;
        let context_handle = GssxCtx::decode(d)?;
        let conf_req: bool = bool::decode(d)?;
        let message_buffer: Vec<GssxBuffer> = xdr::decode_array(d)?;
        let qop_state: u64 = u64::decode(d)?;
        Ok(ArgWrap { call_ctx, context_handle, conf_req, message_buffer, qop_state })
    }
}

/// Result of `wrap`.
#[derive(Debug, PartialEq, Eq)]
pub struct ResWrap {
    pub status: GssxStatus,
    pub context_handle: Option<GssxCtx>,
    pub token_buffer: Vec<GssxBuffer>,
    pub conf_state: Option<bool>,
    pub qop_state: Option<u64>,
}

impl ResWrap {
    /// Every field is empty, absent, false or zero.
    pub open spec fn blank(&self) -> bool {
        &&& self.status.blank()
        &&& self.context_handle is None
        &&& self.token_buffer@.len() == 0
        &&& self.conf_state is None
        &&& self.qop_state is None
    }
}

impl Default for ResWrap {
    fn default() -> (r: Self)
        ensures
            r.blank(),
    {
        ResWrap {
            status: GssxStatus::default(),
            context_handle: None,
            token_buffer: Vec::new(),
            conf_state: None,
            qop_state: None,
        }
    }
}

impl Clone for ResWrap {
    fn clone(&self) -> (r: Self)
        ensures
            r.tree() == self.tree(),
    {
        reveal(<ResWrap as Xdr>::tree);
        let r = ResWrap {
            status: self.status.clone(),
            context_handle: self.context_handle.clone(),
            token_buffer: self.token_buffer.clone(),
            conf_state: self.conf_state.clone(),
            qop_state: self.qop_state.clone(),
        };
        proof {
            xdr::lemma_same_trees(self.token_buffer@, r.token_buffer@);
        }
        r
    }
}

impl Xdr for ResWrap {
    #[verifier::opaque]
    open spec fn shape() -> Shape {
        xdr::pair(
            GssxStatus::shape(),
            xdr::pair(
                xdr::optional_of(GssxCtx::shape()),
                xdr::pair(
                    xdr::array_of(GssxBuffer::shape()),
                    xdr::pair(xdr::optional_of(bool::shape()), xdr::optional_of(u64::shape())),
                ),
            ),
        )
    }

    #[verifier::opaque]
    open spec fn tree(&self) -> Tree {
        xdr::both(
            self.status.tree(),
            xdr::both(
                xdr::optional_tree(self.context_handle),
                xdr::both(
                    xdr::array_tree(self.token_buffer@),
                    xdr::both(
                        xdr::optional_tree(self.conf_state),
                        xdr::optional_tree(self.qop_state),
                    ),
                ),
            ),
        )
    }

    open spec fn canonical(&self) -> bool {
        true
    }

    proof fn lemma_fits(&self) {
        broadcast use crate::xdr::group_records;

        reveal(<ResWrap as Xdr>::shape);
        reveal(<ResWrap as Xdr>::tree);
        self.status.lemma_fits();
        xdr::lemma_fits_optional(self.context_handle);
        xdr::lemma_fits_array(self.token_buffer@);
        xdr::lemma_fits_optional(self.conf_state);
        xdr::lemma_fits_optional(self.qop_state);
    }

    fn encode(&self, e: &mut XdrEncoder) {
        broadcast use crate::xdr::group_records;

        reveal(<ResWrap as Xdr>::tree);
        self.status.encode(e);
        xdr::encode_optional(e, &self.context_handle);
        xdr::encode_array(e, self.token_buffer.as_slice());
        xdr::encode_optional(e, &self.conf_state);
        xdr::encode_optional(e, &self.qop_state);
    }

    fn decode(d: &mut XdrDecoder) -> (r: XdrResult<Self>) {
        broadcast use crate::xdr::group_records;

        reveal(<ResWrap as Xdr>::shape);
        reveal(<ResWrap as Xdr>::tree);
        let status = GssxStatus::decode(d)?;
        let context_handle: Option<GssxCtx> = xdr::decode_optional(d)?;
        let token_buffer: Vec<GssxBuffer> = xdr::decode_array(d)?;
        let conf_state: Option<bool> = xdr::decode_optional(d)?;
        let qop_state: Option<u64> = xdr::decode_optional(d)?;
        Ok(ResWrap { status, context_handle, token_buffer, conf_state, qop_state })
    }
}

/// Argument of `unwrap`.
#[derive(Debug, PartialEq, Eq)]
pub struct ArgUnwrap {
    pub call_ctx: GssxCallCtx,
    pub context_handle: GssxCtx,
    pub token_buffer: Vec<GssxBuffer>,
    pub qop_state: u64,
}

impl ArgUnwrap {
    /// Every field is empty, absent, false or zero.
    pub open spec fn blank(&self) -> bool {
        &&& self.call_ctx.blank()
        &&& self.context_handle.blank()
        &&& self.token_buffer@.len() == 0
        &&& self.qop_state == 0
    }
}

impl Default for ArgUnwrap {
    fn default() -> (r: Self)
        ensures
            r.blank(),
    {
        ArgUnwrap {
            call_ctx: GssxCallCtx::default(),
            context_handle: GssxCtx::default(),
            token_buffer: Vec::new(),
            qop_state: 0,
        }
    }
}

impl Clone for ArgUnwrap {
    fn clone(&self) -> (r: Self)
        ensures
            r.tree() == self.tree(),
    {
        reveal(<ArgUnwrap as Xdr>::tree);
        let r = ArgUnwrap {
            call_ctx: self.call_ctx.clone(),
            context_handle: self.context_handle.clone(),
            token_buffer: self.token_buffer.clone(),
            qop_state: self.qop_state,
        };
        proof {
            xdr::lemma_same_trees(self.token_buffer@, r.token_buffer@);
        }
        r
    }
}

impl Xdr for ArgUnwrap {
    #[verifier::opaque]
    open spec fn shape() -> Shape {
        xdr::pair(
            GssxCallCtx::shape(),
            xdr::pair(
                GssxCtx::shape(),
                xdr::pair(xdr::array_of(GssxBuffer::shape()), u64::shape()),
            ),
        )
    }

    #[verifier::opaque]
    open spec fn tree(&self) -> Tree {
        xdr::both(
            self.call_ctx.tree(),
            xdr::both(
                self.context_handle.tree(),
                xdr::both(xdr::array_tree(self.token_buffer@), self.qop_state.tree()),
            ),
        )
    }

    open spec fn canonical(&self) -> bool {
        true
    }

    proof fn lemma_fits(&self) {
        broadcast use crate::xdr::group_records;

        reveal(<ArgUnwrap as Xdr>::shape);
        reveal(<ArgUnwrap as Xdr>::tree);
        self.call_ctx.lemma_fits();
        self.context_handle.lemma_fits();
        xdr::lemma_fits_array(self.token_buffer@);
        self.qop_state.lemma_fits();
    }

    fn encode(&self, e: &mut XdrEncoder) {
        broadcast use crate::xdr::group_records;

        reveal(<ArgUnwrap as Xdr>::tree);
        self.call_ctx.encode(e);
        self.context_handle.encode(e);
        xdr::encode_array(e, self.token_buffer.as_slice());
        self.qop_state.encode(e);
    }

    fn decode(d: &mut XdrDecoder) -> (r: XdrResult<Self>) {
        broadcast use crate::xdr::group_records;

        reveal(<ArgUnwrap as Xdr>::shape);
        reveal(<ArgUnwrap as Xdr>::tree);
        let call_ctx = GssxCallCtx::decode(d)?;
        let context_handle = GssxCtx::decode(d)?;
        let token_buffer: Vec<GssxBuffer> = xdr::decode_array(d)?;
        let qop_state: u64 = u64::decode(d)?;
        Ok(ArgUnwrap { call_ctx, context_handle, token_buffer, qop_state })
    }
}

/// Result of `unwrap`.
#[derive(Debug, PartialEq, Eq)]
pub struct ResUnwrap {
    pub status: GssxStatus,
    pub context_handle: Option<GssxCtx>,
    pub message_buffer: Vec<GssxBuffer>,
    pub conf_state: Option<bool>,
    pub qop_state: Option<u64>,
}

impl ResUnwrap {
    /// Every field is empty, absent, false or zero.
    pub open spec fn blank(&self) -> bool {
        &&& self.status.blank()
        &&& self.context_handle is None
        &&& self.message_buffer@.len() == 0
        &&& self.conf_state is None
        &&& self.qop_state is None
    }
}

impl Default for ResUnwrap {
    fn default() -> (r: Self)
        ensures
            r.blank(),
    {
        ResUnwrap {
            status: GssxStatus::default(),
            context_handle: None,
            message_buffer: Vec::new(),
            conf_state: None,
            qop_state: None,
        }
    }
}

impl Clone for ResUnwrap {
    fn clone(&self) -> (r: Self)
        ensures
            r.tree() == self.tree(),
    {
        reveal(<ResUnwrap as Xdr>::tree);
        let r = ResUnwrap {
            status: self.status.clone(),
            context_handle: self.context_handle.clone(),
            message_buffer: self.message_buffer.clone(),
            conf_state: self.conf_state.clone(),
            qop_state: self.qop_state.clone(),
        };
        proof {
            xdr::lemma_same_trees(self.message_buffer@, r.message_buffer@);
        }
        r
    }
}

impl Xdr for ResUnwrap {
    #[verifier::opaque]
    open spec fn shape() -> Shape {
        xdr::pair(
            GssxStatus::shape(),
            xdr::pair(
                xdr::optional_of(GssxCtx::shape()),
                xdr::pair(
                    xdr::array_of(GssxBuffer::shape()),
                    xdr::pair(xdr::optional_of(bool::shape()), xdr::optional_of(u64::shape())),
                ),
            ),
        )
    }

    #[verifier::opaque]
    open spec fn tree(&self) -> Tree {
        xdr::both(
            self.status.tree(),
            xdr::both(
                xdr::optional_tree(self.context_handle),
                xdr::both(
                    xdr::array_tree(self.message_buffer@),
                    xdr::both(
                        xdr::optional_tree(self.conf_state),
                        xdr::optional_tree(self.qop_state),
                    ),
                ),
            ),
        )
    }

    open spec fn canonical(&self) -> bool {
        true
    }

    proof fn lemma_fits(&self) {
        broadcast use crate::xdr::group_records;

        reveal(<ResUnwrap as Xdr>::shape);
        reveal(<ResUnwrap as Xdr>::tree);
        self.status.lemma_fits();
        xdr::lemma_fits_optional(self.context_handle);
        xdr::lemma_fits_array(self.message_buffer@);
        xdr::lemma_fits_optional(self.conf_state);
        xdr::lemma_fits_optional(self.qop_state);
    }

    fn encode(&self, e: &mut XdrEncoder) {
        broadcast use crate::xdr::group_records;

        reveal(<ResUnwrap as Xdr>::tree);
        self.status.encode(e);
        xdr::encode_optional(e, &self.context_handle);
        xdr::encode_array(e, self.message_buffer.as_slice());
        xdr::encode_optional(e, &self.conf_state);
        xdr::encode_optional(e, &self.qop_state);
    }

    fn decode(d: &mut XdrDecoder) -> (r: XdrResult<Self>) {
        broadcast use crate::xdr::group_records;

        reveal(<ResUnwrap as Xdr>::shape);
        reveal(<ResUnwrap as Xdr>::tree);
        let status = GssxStatus::decode(d)?;
        let context_handle: Option<GssxCtx> = xdr::decode_optional(d)?;
        let message_buffer: Vec<GssxBuffer> = xdr::decode_array(d)?;
        let conf_state: Option<bool> = xdr::decode_optional(d)?;
        let qop_state: Option<u64> = xdr::decode_optional(d)?;
        Ok(ResUnwrap { status, context_handle, message_buffer, conf_state, qop_state })
    }
}

/// Argument of `wrap_size_limit`.
#[derive(Debug, PartialEq, Eq)]
pub struct ArgWrapSizeLimit {
    pub call_ctx: GssxCallCtx,
    pub context_handle: GssxCtx,
    pub conf_req: bool,
    pub qop_state: u64,
    pub req_output_size: u64,
}

impl ArgWrapSizeLimit {
    /// Every field is empty, absent, false or zero.
    pub open spec fn blank(&self) -> bool {
        &&& self.call_ctx.blank()
        &&& self.context_handle.blank()
        &&& !self.conf_req
        &&& self.qop_state == 0
        &&& self.req_output_size == 0
    }
}

impl Default for ArgWrapSizeLimit {
    fn default() -> (r: Self)
        ensures
            r.blank(),
    {
        ArgWrapSizeLimit {
            call_ctx: GssxCallCtx::default(),
            context_handle: GssxCtx::default(),
            conf_req: false,
            qop_state: 0,
            req_output_size: 0,
        }
    }
}

impl Clone for ArgWrapSizeLimit {
    fn clone(&self) -> (r: Self)
        ensures
            r.tree() == self.tree(),
    {
        reveal(<ArgWrapSizeLimit as Xdr>::tree);
        let r = ArgWrapSizeLimit {
            call_ctx: self.call_ctx.clone(),
            context_handle: self.context_handle.clone(),
            conf_req: self.conf_req,
            qop_state: self.qop_state,
            req_output_size: self.req_output_size,
        };
        r
    }
}

impl Xdr for ArgWrapSizeLimit {
    #[verifier::opaque]
    open spec fn shape() -> Shape {
        xdr::pair(
            GssxCallCtx::shape(),
            xdr::pair(
                GssxCtx::shape(),
                xdr::pair(bool::shape(), xdr::pair(u64::shape(), u64::shape())),
            ),
        )
    }

    #[verifier::opaque]
    open spec fn tree(&self) -> Tree {
        xdr::both(
            self.call_ctx.tree(),
            xdr::both(
                self.context_handle.tree(),
                xdr::both(
                    self.conf_req.tree(),
                    xdr::both(self.qop_state.tree(), self.req_output_size.tree()),
                ),
            ),
        )
    }

    open spec fn canonical(&self) -> bool {
        true
    }

    proof fn lemma_fits(&self) {
        broadcast use crate::xdr::group_records;

        reveal(<ArgWrapSizeLimit as Xdr>::shape);
        reveal(<ArgWrapSizeLimit as Xdr>::tree);
        self.call_ctx.lemma_fits();
        self.context_handle.lemma_fits();
        self.conf_req.lemma_fits();
        self.qop_state.lemma_fits();
        self.req_output_size.lemma_fits();
    }

    fn encode(&self, e: &mut XdrEncoder) {
        broadcast use crate::xdr::group_records;

        reveal(<ArgWrapSizeLimit as Xdr>::tree);
        self.call_ctx.encode(e);
        self.context_handle.encode(e);
        self.conf_req.encode(e);
        self.qop_state.encode(e);
        self.req_output_size.encode(e);
    }

    fn decode(d: &mut XdrDecoder) -> (r: XdrResult<Self>) {
        broadcast use crate::xdr::group_records;

        reveal(<ArgWrapSizeLimit as Xdr>::shape);
        reveal(<ArgWrapSizeLimit as Xdr>::tree);
        let call_ctx = GssxCallCtx::decode(d)?;
        let context_handle = GssxCtx::decode(d)?;
        let conf_req: bool = bool::decode(d)?;
        let qop_state: u64 = u64::decode(d)?;
        let req_output_size: u64 = u64::decode(d)?;
        Ok(ArgWrapSizeLimit { call_ctx, context_handle, conf_req, qop_state, req_output_size })
    }
}

/// Result of `wrap_size_limit`.
#[derive(Debug, PartialEq, Eq)]
pub struct ResWrapSizeLimit {
    pub status: GssxStatus,
    pub max_input_size: u64,
}

impl ResWrapSizeLimit {
    /// Every field is empty, absent, false or zero.
    pub open spec fn blank(&self) -> bool {
        &&& self.status.blank()
        &&& self.max_input_size == 0
    }
}

impl Default for ResWrapSizeLimit {
    fn default() -> (r: Self)
        ensures
            r.blank(),
    {
        ResWrapSizeLimit {
            status: GssxStatus::default(),
            max_input_size: 0,
        }
    }
}

impl Clone for ResWrapSizeLimit {
    fn clone(&self) -> (r: Self)
        ensures
            r.tree() == self.tree(),
    {
        reveal(<ResWrapSizeLimit as Xdr>::tree);
        let r = ResWrapSizeLimit {
            status: self.status.clone(),
            max_input_size: self.max_input_size,
        };
        r
    }
}

impl Xdr for ResWrapSizeLimit {
    #[verifier::opaque]
    open spec fn shape() -> Shape {
        xdr::pair(GssxStatus::shape(), u64::shape())
    }

    #[verifier::opaque]
    open spec fn tree(&self) -> Tree {
        xdr::both(self.status.tree(), self.max_input_size.tree())
    }

    open spec fn canonical(&self) -> bool {
        true
    }

    proof fn lemma_fits(&self) {
        broadcast use crate::xdr::group_records;

        reveal(<ResWrapSizeLimit as Xdr>::shape);
        reveal(<ResWrapSizeLimit as Xdr>::tree);
        self.status.lemma_fits();
        self.max_input_size.lemma_fits();
    }

    fn encode(&self, e: &mut XdrEncoder) {
        broadcast use crate::xdr::group_records;

        reveal(<ResWrapSizeLimit as Xdr>::tree);
        self.status.encode(e);
        self.max_input_size.encode(e);
    }

    fn decode(d: &mut XdrDecoder) -> (r: XdrResult<Self>) {
        broadcast use crate::xdr::group_records;

        reveal(<ResWrapSizeLimit as Xdr>::shape);
        reveal(<ResWrapSizeLimit as Xdr>::tree);
        let status = GssxStatus::decode(d)?;
        let max_input_size: u64 = u64::decode(d)?;
        Ok(ResWrapSizeLimit { status, max_input_size })
    }
}

} // verus!
