//! The `gssx` data types shared by the procedures.
//!
//! Each record is written field by field, in the order of its declaration.

use vstd::prelude::*;

use crate::xdr;
use crate::xdr::{Shape, Tree, Xdr, XdrDecoder, XdrEncoder, XdrResult};

verus! {

/// The `gssx` enums are signed 4-byte integers.
impl Xdr for i32 {
    open spec fn shape() -> Shape {
        Shape::Word
    }

    open spec fn tree(&self) -> Tree {
        Tree::Word(*self as u32)
    }

    open spec fn canonical(&self) -> bool {
        true
    }

    proof fn lemma_fits(&self) {
        reveal(xdr::fits);
    }

    fn encode(&self, e: &mut XdrEncoder) {
        reveal(xdr::bytes);
        e.put_enum(*self);
    }

    fn decode(d: &mut XdrDecoder) -> (r: XdrResult<Self>) {
        reveal(xdr::parse);
        let v: i32 = d.get_enum()?;
        proof {
            xdr::lemma_signed_word(xdr::word_at(old(d).data(), old(d).at()));
        }
        Ok(v)
    }
}

/// Variable-length opaque or string value.
#[derive(Debug, PartialEq, Eq)]
pub struct Opaque(pub Vec<u8>);

impl View for Opaque {
    type V = Seq<u8>;

    open spec fn view(&self) -> Seq<u8> {
        self.0@
    }
}

impl Opaque {
    pub fn new(data: Vec<u8>) -> (r: Self)
        ensures
            r@ == data@,
    {
        Opaque(data)
    }

    pub fn is_empty(&self) -> (r: bool)
        ensures
            r == (self@.len() == 0),
    {
        self.0.len() == 0
    }

    pub fn as_slice(&self) -> (r: &[u8])
        ensures
            r@ == self@,
    {
        self.0.as_slice()
    }

    /// The bytes of `data`.
    pub fn from_slice(data: &[u8]) -> (r: Self)
        ensures
            r@ == data@,
    {
        Opaque(vstd::slice::slice_to_vec(data))
    }
}

impl From<Vec<u8>> for Opaque {
    fn from(v: Vec<u8>) -> (r: Self) {
        Opaque(v)
    }
}

impl vstd::std_specs::convert::FromSpecImpl<Vec<u8>> for Opaque {
    open spec fn obeys_from_spec() -> bool {
        true
    }

    open spec fn from_spec(v: Vec<u8>) -> Self {
        Opaque(v)
    }
}

impl Default for Opaque {
    fn default() -> (r: Self)
        ensures
            r@.len() == 0,
    {
        Opaque(Vec::new())
    }
}

impl Clone for Opaque {
    fn clone(&self) -> (r: Self)
        ensures
            r@ == self@,
            r.tree() == self.tree(),
    {
        let r = Opaque::from_slice(self.as_slice());
        r
    }
}

impl Xdr for Opaque {
    open spec fn shape() -> Shape {
        Shape::Opaque
    }

    open spec fn tree(&self) -> Tree {
        Tree::Opaque(self@)
    }

    open spec fn canonical(&self) -> bool {
        true
    }

    proof fn lemma_fits(&self) {
        reveal(xdr::fits);
    }

    fn encode(&self, e: &mut XdrEncoder) {
        e.put_opaque(self.0.as_slice());
    }

    fn decode(d: &mut XdrDecoder) -> (r: XdrResult<Self>) {
        reveal(xdr::parse);
        let data = d.get_opaque()?;
        Ok(Opaque(data))
    }
}

/// Names for the uses of opaque data.
pub type GssxBuffer = Opaque;

pub type GssxOid = Opaque;

pub type OctetString = Opaque;

pub type Utf8String = Opaque;

/// A set of OIDs is an array of them.
pub type GssxOidSet = Vec<GssxOid>;

/// A named option.
#[derive(Debug, PartialEq, Eq)]
pub struct GssxOption {
    pub option: GssxBuffer,
    pub value: GssxBuffer,
}

impl GssxOption {
    /// Every field is empty, absent, false or zero.
    pub open spec fn blank(&self) -> bool {
        &&& self.option@.len() == 0
        &&& self.value@.len() == 0
    }
}

impl Default for GssxOption {
    fn default() -> (r: Self)
        ensures
            r.blank(),
    {
        GssxOption {
            option: Opaque::default(),
            value: Opaque::default(),
        }
    }
}

impl Clone for GssxOption {
    fn clone(&self) -> (r: Self)
        ensures
            r.tree() == self.tree(),
    {
        reveal(<GssxOption as Xdr>::tree);
        let r = GssxOption {
            option: self.option.clone(),
            value: self.value.clone(),
        };
        r
    }
}

impl Xdr for GssxOption {
    #[verifier::opaque]
    open spec fn shape() -> Shape {
        xdr::pair(GssxBuffer::shape(), GssxBuffer::shape())
    }

    #[verifier::opaque]
    open spec fn tree(&self) -> Tree {
        xdr::both(self.option.tree(), self.value.tree())
    }

    open spec fn canonical(&self) -> bool {
        true
    }

    proof fn lemma_fits(&self) {
        broadcast use crate::xdr::group_records;

        reveal(<GssxOption as Xdr>::shape);
        reveal(<GssxOption as Xdr>::tree);
        self.option.lemma_fits();
        self.value.lemma_fits();
    }

    fn encode(&self, e: &mut XdrEncoder) {
        broadcast use crate::xdr::group_records;

        reveal(<GssxOption as Xdr>::tree);
        self.option.encode(e);
        self.value.encode(e);
    }

    fn decode(d: &mut XdrDecoder) -> (r: XdrResult<Self>) {
        broadcast use crate::xdr::group_records;

        reveal(<GssxOption as Xdr>::shape);
        reveal(<GssxOption as Xdr>::tree);
        let option = GssxBuffer::decode(d)?;
        let value = GssxBuffer::decode(d)?;
        Ok(GssxOption { option, value })
    }
}

/// A mechanism attribute and its descriptions.
#[derive(Debug, PartialEq, Eq)]
pub struct GssxMechAttr {
    pub attr: GssxOid,
    pub name: GssxBuffer,
    pub short_desc: GssxBuffer,
    pub long_desc: GssxBuffer,
    pub extensions: Vec<GssxOption>,
}

impl GssxMechAttr {
    /// Every field is empty, absent, false or zero.
    pub open spec fn blank(&self) -> bool {
        &&& self.attr@.len() == 0
        &&& self.name@.len() == 0
        &&& self.short_desc@.len() == 0
        &&& self.long_desc@.len() == 0
        &&& self.extensions@.len() == 0
    }
}

impl Default for GssxMechAttr {
    fn default() -> (r: Self)
        ensures
            r.blank(),
    {
        GssxMechAttr {
            attr: Opaque::default(),
            name: Opaque::default(),
            short_desc: Opaque::default(),
            long_desc: Opaque::default(),
            extensions: Vec::new(),
        }
    }
}

impl Clone for GssxMechAttr {
    fn clone(&self) -> (r: Self)
        ensures
            r.tree() == self.tree(),
    {
        reveal(<GssxMechAttr as Xdr>::tree);
        let r = GssxMechAttr {
            attr: self.attr.clone(),
            name: self.name.clone(),
            short_desc: self.short_desc.clone(),
            long_desc: self.long_desc.clone(),
            extensions: self.extensions.clone(),
        };
        proof {
            xdr::lemma_same_trees(self.extensions@, r.extensions@);
        }
        r
    }
}

impl Xdr for GssxMechAttr {
    #[verifier::opaque]
    open spec fn shape() -> Shape {
        xdr::pair(
            GssxOid::shape(),
            xdr::pair(
                GssxBuffer::shape(),
                xdr::pair(
                    GssxBuffer::shape(),
                    xdr::pair(GssxBuffer::shape(), xdr::array_of(GssxOption::shape())),
                ),
            ),
        )
    }

    #[verifier::opaque]
    open spec fn tree(&self) -> Tree {
        xdr::both(
            self.attr.tree(),
            xdr::both(
                self.name.tree(),
                xdr::both(
                    self.short_desc.tree(),
                    xdr::both(self.long_desc.tree(), xdr::array_tree(self.extensions@)),
                ),
            ),
        )
    }

    open spec fn canonical(&self) -> bool {
        true
    }

    proof fn lemma_fits(&self) {
        broadcast use crate::xdr::group_records;

        reveal(<GssxMechAttr as Xdr>::shape);
        reveal(<GssxMechAttr as Xdr>::tree);
        self.attr.lemma_fits();
        self.name.lemma_fits();
        self.short_desc.lemma_fits();
        self.long_desc.lemma_fits();
        xdr::lemma_fits_array(self.extensions@);
    }

    fn encode(&self, e: &mut XdrEncoder) {
        broadcast use crate::xdr::group_records;

        reveal(<GssxMechAttr as Xdr>::tree);
        self.attr.encode(e);
        self.name.encode(e);
        self.short_desc.encode(e);
        self.long_desc.encode(e);
        xdr::encode_array(e, self.extensions.as_slice());
    }

    fn decode(d: &mut XdrDecoder) -> (r: XdrResult<Self>) {
        broadcast use crate::xdr::group_records;

        reveal(<GssxMechAttr as Xdr>::shape);
        reveal(<GssxMechAttr as Xdr>::tree);
        let attr = GssxOid::decode(d)?;
        let name = GssxBuffer::decode(d)?;
        let short_desc = GssxBuffer::decode(d)?;
        let long_desc = GssxBuffer::decode(d)?;
        let extensions: Vec<GssxOption> = xdr::decode_array(d)?;
        Ok(GssxMechAttr { attr, name, short_desc, long_desc, extensions })
    }
}

/// What a mechanism supports.
#[derive(Debug, PartialEq, Eq)]
pub struct GssxMechInfo {
    pub mech: GssxOid,
    pub name_types: GssxOidSet,
    pub mech_attrs: GssxOidSet,
    pub known_mech_attrs: GssxOidSet,
    pub cred_options: GssxOidSet,
    pub sec_ctx_options: GssxOidSet,
    pub saslname_sasl_mech_name: GssxBuffer,
    pub saslname_mech_name: GssxBuffer,
    pub saslname_mech_desc: GssxBuffer,
    pub extensions: Vec<GssxOption>,
}

impl GssxMechInfo {
    /// Every field is empty, absent, false or zero.
    pub open spec fn blank(&self) -> bool {
        &&& self.mech@.len() == 0
        &&& self.name_types@.len() == 0
        &&& self.mech_attrs@.len() == 0
        &&& self.known_mech_attrs@.len() == 0
        &&& self.cred_options@.len() == 0
        &&& self.sec_ctx_options@.len() == 0
        &&& self.saslname_sasl_mech_name@.len() == 0
        &&& self.saslname_mech_name@.len() == 0
        &&& self.saslname_mech_desc@.len() == 0
        &&& self.extensions@.len() == 0
    }
}

impl Default for GssxMechInfo {
    fn default() -> (r: Self)
        ensures
            r.blank(),
    {
        GssxMechInfo {
            mech: Opaque::default(),
            name_types: Vec::new(),
            mech_attrs: Vec::new(),
            known_mech_attrs: Vec::new(),
            cred_options: Vec::new(),
            sec_ctx_options: Vec::new(),
            saslname_sasl_mech_name: Opaque::default(),
            saslname_mech_name: Opaque::default(),
            saslname_mech_desc: Opaque::default(),
            extensions: Vec::new(),
        }
    }
}

impl Clone for GssxMechInfo {
    fn clone(&self) -> (r: Self)
        ensures
            r.tree() == self.tree(),
    {
        reveal(<GssxMechInfo as Xdr>::tree);
        let r = GssxMechInfo {
            mech: self.mech.clone(),
            name_types: self.name_types.clone(),
            mech_attrs: self.mech_attrs.clone(),
            known_mech_attrs: self.known_mech_attrs.clone(),
            cred_options: self.cred_options.clone(),
            sec_ctx_options: self.sec_ctx_options.clone(),
            saslname_sasl_mech_name: self.saslname_sasl_mech_name.clone(),
            saslname_mech_name: self.saslname_mech_name.clone(),
            saslname_mech_desc: self.saslname_mech_desc.clone(),
            extensions: self.extensions.clone(),
        };
        proof {
            xdr::lemma_same_trees(self.name_types@, r.name_types@);
            xdr::lemma_same_trees(self.mech_attrs@, r.mech_attrs@);
            xdr::lemma_same_trees(self.known_mech_attrs@, r.known_mech_attrs@);
            xdr::lemma_same_trees(self.cred_options@, r.cred_options@);
            xdr::lemma_same_trees(self.sec_ctx_options@, r.sec_ctx_options@);
            xdr::lemma_same_trees(self.extensions@, r.extensions@);
        }
        r
    }
}

impl Xdr for GssxMechInfo {
    #[verifier::opaque]
    open spec fn shape() -> Shape {
        xdr::pair(
            GssxOid::shape(),
            xdr::pair(
                xdr::array_of(GssxOid::shape()),
                xdr::pair(
                    xdr::array_of(GssxOid::shape()),
                    xdr::pair(
                        xdr::array_of(GssxOid::shape()),
                        xdr::pair(
                            xdr::array_of(GssxOid::shape()),
                            xdr::pair(
                                xdr::array_of(GssxOid::shape()),
                                xdr::pair(
                                    GssxBuffer::shape(),
                                    xdr::pair(
                                        GssxBuffer::shape(),
                                        xdr::pair(
                                            GssxBuffer::shape(),
                                            xdr::array_of(GssxOption::shape()),
                                        ),
                                    ),
                                ),
                            ),
                        ),
                    ),
                ),
            ),
        )
    }

    #[verifier::opaque]
    open spec fn tree(&self) -> Tree {
        xdr::both(
            self.mech.tree(),
            xdr::both(
                xdr::array_tree(self.name_types@),
                xdr::both(
                    xdr::array_tree(self.mech_attrs@),
                    xdr::both(
                        xdr::array_tree(self.known_mech_attrs@),
                        xdr::both(
                            xdr::array_tree(self.cred_options@),
                            xdr::both(
                                xdr::array_tree(self.sec_ctx_options@),
                                xdr::both(
                                    self.saslname_sasl_mech_name.tree(),
                                    xdr::both(
                                        self.saslname_mech_name.tree(),
                                        xdr::both(
                                            self.saslname_mech_desc.tree(),
                                            xdr::array_tree(self.extensions@),
                                        ),
                                    ),
                                ),
                            ),
                        ),
                    ),
                ),
            ),
        )
    }

    open spec fn canonical(&self) -> bool {
        true
    }

    proof fn lemma_fits(&self) {
        broadcast use crate::xdr::group_records;

        reveal(<GssxMechInfo as Xdr>::shape);
        reveal(<GssxMechInfo as Xdr>::tree);
        self.mech.lemma_fits();
        xdr::lemma_fits_array(self.name_types@);
        xdr::lemma_fits_array(self.mech_attrs@);
        xdr::lemma_fits_array(self.known_mech_attrs@);
        xdr::lemma_fits_array(self.cred_options@);
        xdr::lemma_fits_array(self.sec_ctx_options@);
        self.saslname_sasl_mech_name.lemma_fits();
        self.saslname_mech_name.lemma_fits();
        self.saslname_mech_desc.lemma_fits();
        xdr::lemma_fits_array(self.extensions@);
    }

    fn encode(&self, e: &mut XdrEncoder) {
        broadcast use crate::xdr::group_records;

        reveal(<GssxMechInfo as Xdr>::tree);
        self.mech.encode(e);
        xdr::encode_array(e, self.name_types.as_slice());
        xdr::encode_array(e, self.mech_attrs.as_slice());
        xdr::encode_array(e, self.known_mech_attrs.as_slice());
        xdr::encode_array(e, self.cred_options.as_slice());
        xdr::encode_array(e, self.sec_ctx_options.as_slice());
        self.saslname_sasl_mech_name.encode(e);
        self.saslname_mech_name.encode(e);
        self.saslname_mech_desc.encode(e);
        xdr::encode_array(e, self.extensions.as_slice());
    }

    fn decode(d: &mut XdrDecoder) -> (r: XdrResult<Self>) {
        broadcast use crate::xdr::group_records;

        reveal(<GssxMechInfo as Xdr>::shape);
        reveal(<GssxMechInfo as Xdr>::tree);
        let mech = GssxOid::decode(d)?;
        let name_types: GssxOidSet = xdr::decode_array(d)?;
        let mech_attrs: GssxOidSet = xdr::decode_array(d)?;
        let known_mech_attrs: GssxOidSet = xdr::decode_array(d)?;
        let cred_options: GssxOidSet = xdr::decode_array(d)?;
        let sec_ctx_options: GssxOidSet = xdr::decode_array(d)?;
        let saslname_sasl_mech_name = GssxBuffer::decode(d)?;
        let saslname_mech_name = GssxBuffer::decode(d)?;
        let saslname_mech_desc = GssxBuffer::decode(d)?;
        let extensions: Vec<GssxOption> = xdr::decode_array(d)?;
        Ok(GssxMechInfo {
            mech,
            name_types,
            mech_attrs,
            known_mech_attrs,
            cred_options,
            sec_ctx_options,
            saslname_sasl_mech_name,
            saslname_mech_name,
            saslname_mech_desc,
            extensions,
        })
    }
}

/// A name attribute.
#[derive(Debug, PartialEq, Eq)]
pub struct GssxNameAttr {
    pub attr: GssxBuffer,
    pub value: GssxBuffer,
    pub extensions: Vec<GssxOption>,
}

impl GssxNameAttr {
    /// Every field is empty, absent, false or zero.
    pub open spec fn blank(&self) -> bool {
        &&& self.attr@.len() == 0
        &&& self.value@.len() == 0
        &&& self.extensions@.len() == 0
    }
}

impl Default for GssxNameAttr {
    fn default() -> (r: Self)
        ensures
            r.blank(),
    {
        GssxNameAttr {
            attr: Opaque::default(),
            value: Opaque::default(),
            extensions: Vec::new(),
        }
    }
}

impl Clone for GssxNameAttr {
    fn clone(&self) -> (r: Self)
        ensures
            r.tree() == self.tree(),
    {
        reveal(<GssxNameAttr as Xdr>::tree);
        let r = GssxNameAttr {
            attr: self.attr.clone(),
            value: self.value.clone(),
            extensions: self.extensions.clone(),
        };
        proof {
            xdr::lemma_same_trees(self.extensions@, r.extensions@);
        }
        r
    }
}

impl Xdr for GssxNameAttr {
    #[verifier::opaque]
    open spec fn shape() -> Shape {
        xdr::pair(
            GssxBuffer::shape(),
            xdr::pair(GssxBuffer::shape(), xdr::array_of(GssxOption::shape())),
        )
    }

    #[verifier::opaque]
    open spec fn tree(&self) -> Tree {
        xdr::both(
            self.attr.tree(),
            xdr::both(self.value.tree(), xdr::array_tree(self.extensions@)),
        )
    }

    open spec fn canonical(&self) -> bool {
        true
    }

    proof fn lemma_fits(&self) {
        broadcast use crate::xdr::group_records;

        reveal(<GssxNameAttr as Xdr>::shape);
        reveal(<GssxNameAttr as Xdr>::tree);
        self.attr.lemma_fits();
        self.value.lemma_fits();
        xdr::lemma_fits_array(self.extensions@);
    }

    fn encode(&self, e: &mut XdrEncoder) {
        broadcast use crate::xdr::group_records;

        reveal(<GssxNameAttr as Xdr>::tree);
        self.attr.encode(e);
        self.value.encode(e);
        xdr::encode_array(e, self.extensions.as_slice());
    }

    fn decode(d: &mut XdrDecoder) -> (r: XdrResult<Self>) {
        broadcast use crate::xdr::group_records;

        reveal(<GssxNameAttr as Xdr>::shape);
        reveal(<GssxNameAttr as Xdr>::tree);
        let attr = GssxBuffer::decode(d)?;
        let value = GssxBuffer::decode(d)?;
        let extensions: Vec<GssxOption> = xdr::decode_array(d)?;
        Ok(GssxNameAttr { attr, value, extensions })
    }
}

/// The status of a call.
#[derive(Debug, PartialEq, Eq)]
pub struct GssxStatus {
    pub major_status: u64,
    pub mech: GssxOid,
    pub minor_status: u64,
    pub major_status_string: Utf8String,
    pub minor_status_string: Utf8String,
    pub server_ctx: OctetString,
    pub options: Vec<GssxOption>,
}

impl GssxStatus {
    /// Every field is empty, absent, false or zero.
    pub open spec fn blank(&self) -> bool {
        &&& self.major_status == 0
        &&& self.mech@.len() == 0
        &&& self.minor_status == 0
        &&& self.major_status_string@.len() == 0
        &&& self.minor_status_string@.len() == 0
        &&& self.server_ctx@.len() == 0
        &&& self.options@.len() == 0
    }
}

impl Default for GssxStatus {
    fn default() -> (r: Self)
        ensures
            r.blank(),
    {
        GssxStatus {
            major_status: 0,
            mech: Opaque::default(),
            minor_status: 0,
            major_status_string: Opaque::default(),
            minor_status_string: Opaque::default(),
            server_ctx: Opaque::default(),
            options: Vec::new(),
        }
    }
}

impl Clone for GssxStatus {
    fn clone(&self) -> (r: Self)
        ensures
            r.tree() == self.tree(),
    {
        reveal(<GssxStatus as Xdr>::tree);
        let r = GssxStatus {
            major_status: self.major_status,
            mech: self.mech.clone(),
            minor_status: self.minor_status,
            major_status_string: self.major_status_string.clone(),
            minor_status_string: self.minor_status_string.clone(),
            server_ctx: self.server_ctx.clone(),
            options: self.options.clone(),
        };
        proof {
            xdr::lemma_same_trees(self.options@, r.options@);
        }
        r
    }
}

impl Xdr for GssxStatus {
    #[verifier::opaque]
    open spec fn shape() -> Shape {
        xdr::pair(
            u64::shape(),
            xdr::pair(
                GssxOid::shape(),
                xdr::pair(
                    u64::shape(),
                    xdr::pair(
                        Utf8String::shape(),
                        xdr::pair(
                            Utf8String::shape(),
                            xdr::pair(OctetString::shape(), xdr::array_of(GssxOption::shape())),
                        ),
                    ),
                ),
            ),
        )
    }

    #[verifier::opaque]
    open spec fn tree(&self) -> Tree {
        xdr::both(
            self.major_status.tree(),
            xdr::both(
                self.mech.tree(),
                xdr::both(
                    self.minor_status.tree(),
                    xdr::both(
                        self.major_status_string.tree(),
                        xdr::both(
                            self.minor_status_string.tree(),
                            xdr::both(self.server_ctx.tree(), xdr::array_tree(self.options@)),
                        ),
                    ),
                ),
            ),
        )
    }

    open spec fn canonical(&self) -> bool {
        true
    }

    proof fn lemma_fits(&self) {
        broadcast use crate::xdr::group_records;

        reveal(<GssxStatus as Xdr>::shape);
        reveal(<GssxStatus as Xdr>::tree);
        self.major_status.lemma_fits();
        self.mech.lemma_fits();
        self.minor_status.lemma_fits();
        self.major_status_string.lemma_fits();
        self.minor_status_string.lemma_fits();
        self.server_ctx.lemma_fits();
        xdr::lemma_fits_array(self.options@);
    }

    fn encode(&self, e: &mut XdrEncoder) {
        broadcast use crate::xdr::group_records;

        reveal(<GssxStatus as Xdr>::tree);
        self.major_status.encode(e);
        self.mech.encode(e);
        self.minor_status.encode(e);
        self.major_status_string.encode(e);
        self.minor_status_string.encode(e);
        self.server_ctx.encode(e);
        xdr::encode_array(e, self.options.as_slice());
    }

    fn decode(d: &mut XdrDecoder) -> (r: XdrResult<Self>) {
        broadcast use crate::xdr::group_records;

        reveal(<GssxStatus as Xdr>::shape);
        reveal(<GssxStatus as Xdr>::tree);
        let major_status: u64 = u64::decode(d)?;
        let mech = GssxOid::decode(d)?;
        let minor_status: u64 = u64::decode(d)?;
        let major_status_string = Utf8String::decode(d)?;
        let minor_status_string = Utf8String::decode(d)?;
        let server_ctx = OctetString::decode(d)?;
        let options: Vec<GssxOption> = xdr::decode_array(d)?;
        Ok(GssxStatus {
            major_status,
            mech,
            minor_status,
            major_status_string,
            minor_status_string,
            server_ctx,
            options,
        })
    }
}

/// The context that every call carries.
#[derive(Debug, PartialEq, Eq)]
pub struct GssxCallCtx {
    pub locale: Utf8String,
    pub server_ctx: OctetString,
    pub options: Vec<GssxOption>,
}

impl GssxCallCtx {
    /// Every field is empty, absent, false or zero.
    pub open spec fn blank(&self) -> bool {
        &&& self.locale@.len() == 0
        &&& self.server_ctx@.len() == 0
        &&& self.options@.len() == 0
    }
}

impl Default for GssxCallCtx {
    fn default() -> (r: Self)
        ensures
            r.blank(),
    {
        GssxCallCtx {
            locale: Opaque::default(),
            server_ctx: Opaque::default(),
            options: Vec::new(),
        }
    }
}

impl Clone for GssxCallCtx {
    fn clone(&self) -> (r: Self)
        ensures
            r.tree() == self.tree(),
    {
        reveal(<GssxCallCtx as Xdr>::tree);
        let r = GssxCallCtx {
            locale: self.locale.clone(),
            server_ctx: self.server_ctx.clone(),
            options: self.options.clone(),
        };
        proof {
            xdr::lemma_same_trees(self.options@, r.options@);
        }
        r
    }
}

impl Xdr for GssxCallCtx {
    #[verifier::opaque]
    open spec fn shape() -> Shape {
        xdr::pair(
            Utf8String::shape(),
            xdr::pair(OctetString::shape(), xdr::array_of(GssxOption::shape())),
        )
    }

    #[verifier::opaque]
    open spec fn tree(&self) -> Tree {
        xdr::both(
            self.locale.tree(),
            xdr::both(self.server_ctx.tree(), xdr::array_tree(self.options@)),
        )
    }

    open spec fn canonical(&self) -> bool {
        true
    }

    proof fn lemma_fits(&self) {
        broadcast use crate::xdr::group_records;

        reveal(<GssxCallCtx as Xdr>::shape);
        reveal(<GssxCallCtx as Xdr>::tree);
        self.locale.lemma_fits();
        self.server_ctx.lemma_fits();
        xdr::lemma_fits_array(self.options@);
    }

    fn encode(&self, e: &mut XdrEncoder) {
        broadcast use crate::xdr::group_records;

        reveal(<GssxCallCtx as Xdr>::tree);
        self.locale.encode(e);
        self.server_ctx.encode(e);
        xdr::encode_array(e, self.options.as_slice());
    }

    fn decode(d: &mut XdrDecoder) -> (r: XdrResult<Self>) {
        broadcast use crate::xdr::group_records;

        reveal(<GssxCallCtx as Xdr>::shape);
        reveal(<GssxCallCtx as Xdr>::tree);
        let locale = Utf8String::decode(d)?;
        let server_ctx = OctetString::decode(d)?;
        let options: Vec<GssxOption> = xdr::decode_array(d)?;
        Ok(GssxCallCtx { locale, server_ctx, options })
    }
}

/// A name, in the forms it is known in.
#[derive(Debug, PartialEq, Eq)]
pub struct GssxName {
    pub display_name: GssxBuffer,
    pub name_type: GssxOid,
    pub exported_name: GssxBuffer,
    pub exported_composite_name: GssxBuffer,
    pub name_attributes: Vec<GssxNameAttr>,
    pub extensions: Vec<GssxOption>,
}

impl GssxName {
    /// Every field is empty, absent, false or zero.
    pub open spec fn blank(&self) -> bool {
        &&& self.display_name@.len() == 0
        &&& self.name_type@.len() == 0
        &&& self.exported_name@.len() == 0
        &&& self.exported_composite_name@.len() == 0
        &&& self.name_attributes@.len() == 0
        &&& self.extensions@.len() == 0
    }
}

impl Default for GssxName {
    fn default() -> (r: Self)
        ensures
            r.blank(),
    {
        GssxName {
            display_name: Opaque::default(),
            name_type: Opaque::default(),
            exported_name: Opaque::default(),
            exported_composite_name: Opaque::default(),
            name_attributes: Vec::new(),
            extensions: Vec::new(),
        }
    }
}

impl Clone for GssxName {
    fn clone(&self) -> (r: Self)
        ensures
            r.tree() == self.tree(),
    {
        reveal(<GssxName as Xdr>::tree);
        let r = GssxName {
            display_name: self.display_name.clone(),
            name_type: self.name_type.clone(),
            exported_name: self.exported_name.clone(),
            exported_composite_name: self.exported_composite_name.clone(),
            name_attributes: self.name_attributes.clone(),
            extensions: self.extensions.clone(),
        };
        proof {
            xdr::lemma_same_trees(self.name_attributes@, r.name_attributes@);
            xdr::lemma_same_trees(self.extensions@, r.extensions@);
        }
        r
    }
}

impl Xdr for GssxName {
    #[verifier::opaque]
    open spec fn shape() -> Shape {
        xdr::pair(
            GssxBuffer::shape(),
            xdr::pair(
                GssxOid::shape(),
                xdr::pair(
                    GssxBuffer::shape(),
                    xdr::pair(
                        GssxBuffer::shape(),
                        xdr::pair(
                            xdr::array_of(GssxNameAttr::shape()),
                            xdr::array_of(GssxOption::shape()),
                        ),
                    ),
                ),
            ),
        )
    }

    #[verifier::opaque]
    open spec fn tree(&self) -> Tree {
        xdr::both(
            self.display_name.tree(),
            xdr::both(
                self.name_type.tree(),
                xdr::both(
                    self.exported_name.tree(),
                    xdr::both(
                        self.exported_composite_name.tree(),
                        xdr::both(
                            xdr::array_tree(self.name_attributes@),
                            xdr::array_tree(self.extensions@),
                        ),
                    ),
                ),
            ),
        )
    }

    open spec fn canonical(&self) -> bool {
        true
    }

    proof fn lemma_fits(&self) {
        broadcast use crate::xdr::group_records;

        reveal(<GssxName as Xdr>::shape);
        reveal(<GssxName as Xdr>::tree);
        self.display_name.lemma_fits();
        self.name_type.lemma_fits();
        self.exported_name.lemma_fits();
        self.exported_composite_name.lemma_fits();
        xdr::lemma_fits_array(self.name_attributes@);
        xdr::lemma_fits_array(self.extensions@);
    }

    fn encode(&self, e: &mut XdrEncoder) {
        broadcast use crate::xdr::group_records;

        reveal(<GssxName as Xdr>::tree);
        self.display_name.encode(e);
        self.name_type.encode(e);
        self.exported_name.encode(e);
        self.exported_composite_name.encode(e);
        xdr::encode_array(e, self.name_attributes.as_slice());
        xdr::encode_array(e, self.extensions.as_slice());
    }

    fn decode(d: &mut XdrDecoder) -> (r: XdrResult<Self>) {
        broadcast use crate::xdr::group_records;

        reveal(<GssxName as Xdr>::shape);
        reveal(<GssxName as Xdr>::tree);
        let display_name = GssxBuffer::decode(d)?;
        let name_type = GssxOid::decode(d)?;
        let exported_name = GssxBuffer::decode(d)?;
        let exported_composite_name = GssxBuffer::decode(d)?;
        let name_attributes: Vec<GssxNameAttr> = xdr::decode_array(d)?;
        let extensions: Vec<GssxOption> = xdr::decode_array(d)?;
        Ok(GssxName {
            display_name,
            name_type,
            exported_name,
            exported_composite_name,
            name_attributes,
            extensions,
        })
    }
}

/// One mechanism of a credential.
#[derive(Debug, PartialEq, Eq)]
pub struct GssxCredElement {
    pub mn: GssxName,
    pub mech: GssxOid,
    pub cred_usage: i32,
    pub initiator_time_rec: u64,
    pub acceptor_time_rec: u64,
    pub options: Vec<GssxOption>,
}

impl GssxCredElement {
    /// Every field is empty, absent, false or zero.
    pub open spec fn blank(&self) -> bool {
        &&& self.mn.blank()
        &&& self.mech@.len() == 0
        &&& self.cred_usage == 0
        &&& self.initiator_time_rec == 0
        &&& self.acceptor_time_rec == 0
        &&& self.options@.len() == 0
    }
}

impl Default for GssxCredElement {
    fn default() -> (r: Self)
        ensures
            r.blank(),
    {
        GssxCredElement {
            mn: GssxName::default(),
            mech: Opaque::default(),
            cred_usage: 0,
            initiator_time_rec: 0,
            acceptor_time_rec: 0,
            options: Vec::new(),
        }
    }
}

impl Clone for GssxCredElement {
    fn clone(&self) -> (r: Self)
        ensures
            r.tree() == self.tree(),
    {
        reveal(<GssxCredElement as Xdr>::tree);
        let r = GssxCredElement {
            mn: self.mn.clone(),
            mech: self.mech.clone(),
            cred_usage: self.cred_usage,
            initiator_time_rec: self.initiator_time_rec,
            acceptor_time_rec: self.acceptor_time_rec,
            options: self.options.clone(),
        };
        proof {
            xdr::lemma_same_trees(self.options@, r.options@);
        }
        r
    }
}

impl Xdr for GssxCredElement {
    #[verifier::opaque]
    open spec fn shape() -> Shape {
        xdr::pair(
            GssxName::shape(),
            xdr::pair(
                GssxOid::shape(),
                xdr::pair(
                    i32::shape(),
                    xdr::pair(
                        u64::shape(),
                        xdr::pair(u64::shape(), xdr::array_of(GssxOption::shape())),
                    ),
                ),
            ),
        )
    }

    #[verifier::opaque]
    open spec fn tree(&self) -> Tree {
        xdr::both(
            self.mn.tree(),
            xdr::both(
                self.mech.tree(),
                xdr::both(
                    self.cred_usage.tree(),
                    xdr::both(
                        self.initiator_time_rec.tree(),
                        xdr::both(self.acceptor_time_rec.tree(), xdr::array_tree(self.options@)),
                    ),
                ),
            ),
        )
    }

    open spec fn canonical(&self) -> bool {
        true
    }

    proof fn lemma_fits(&self) {
        broadcast use crate::xdr::group_records;

        reveal(<GssxCredElement as Xdr>::shape);
        reveal(<GssxCredElement as Xdr>::tree);
        self.mn.lemma_fits();
        self.mech.lemma_fits();
        self.cred_usage.lemma_fits();
        self.initiator_time_rec.lemma_fits();
        self.acceptor_time_rec.lemma_fits();
        xdr::lemma_fits_array(self.options@);
    }

    fn encode(&self, e: &mut XdrEncoder) {
        broadcast use crate::xdr::group_records;

        reveal(<GssxCredElement as Xdr>::tree);
        self.mn.encode(e);
        self.mech.encode(e);
        self.cred_usage.encode(e);
        self.initiator_time_rec.encode(e);
        self.acceptor_time_rec.encode(e);
        xdr::encode_array(e, self.options.as_slice());
    }

    fn decode(d: &mut XdrDecoder) -> (r: XdrResult<Self>) {
        broadcast use crate::xdr::group_records;

        reveal(<GssxCredElement as Xdr>::shape);
        reveal(<GssxCredElement as Xdr>::tree);
        let mn = GssxName::decode(d)?;
        let mech = GssxOid::decode(d)?;
        let cred_usage: i32 = i32::decode(d)?;
        let initiator_time_rec: u64 = u64::decode(d)?;
        let acceptor_time_rec: u64 = u64::decode(d)?;
        let options: Vec<GssxOption> = xdr::decode_array(d)?;
        Ok(GssxCredElement {
            mn,
            mech,
            cred_usage,
            initiator_time_rec,
            acceptor_time_rec,
            options,
        })
    }
}

/// A credential.
#[derive(Debug, PartialEq, Eq)]
pub struct GssxCred {
    pub desired_name: GssxName,
    pub elements: Vec<GssxCredElement>,
    pub cred_handle_reference: OctetString,
    pub needs_release: bool,
}

impl GssxCred {
    /// Every field is empty, absent, false or zero.
    pub open spec fn blank(&self) -> bool {
        &&& self.desired_name.blank()
        &&& self.elements@.len() == 0
        &&& self.cred_handle_reference@.len() == 0
        &&& !self.needs_release
    }
}

impl Default for GssxCred {
    fn default() -> (r: Self)
        ensures
            r.blank(),
    {
        GssxCred {
            desired_name: GssxName::default(),
            elements: Vec::new(),
            cred_handle_reference: Opaque::default(),
            needs_release: false,
        }
    }
}

impl Clone for GssxCred {
    fn clone(&self) -> (r: Self)
        ensures
            r.tree() == self.tree(),
    {
        reveal(<GssxCred as Xdr>::tree);
        let r = GssxCred {
            desired_name: self.desired_name.clone(),
            elements: self.elements.clone(),
            cred_handle_reference: self.cred_handle_reference.clone(),
            needs_release: self.needs_release,
        };
        proof {
            xdr::lemma_same_trees(self.elements@, r.elements@);
        }
        r
    }
}

impl Xdr for GssxCred {
    #[verifier::opaque]
    open spec fn shape() -> Shape {
        xdr::pair(
            GssxName::shape(),
            xdr::pair(
                xdr::array_of(GssxCredElement::shape()),
                xdr::pair(OctetString::shape(), bool::shape()),
            ),
        )
    }

    #[verifier::opaque]
    open spec fn tree(&self) -> Tree {
        xdr::both(
            self.desired_name.tree(),
            xdr::both(
                xdr::array_tree(self.elements@),
                xdr::both(self.cred_handle_reference.tree(), self.needs_release.tree()),
            ),
        )
    }

    open spec fn canonical(&self) -> bool {
        true
    }

    proof fn lemma_fits(&self) {
        broadcast use crate::xdr::group_records;

        reveal(<GssxCred as Xdr>::shape);
        reveal(<GssxCred as Xdr>::tree);
        self.desired_name.lemma_fits();
        xdr::lemma_fits_array(self.elements@);
        self.cred_handle_reference.lemma_fits();
        self.needs_release.lemma_fits();
    }

    fn encode(&self, e: &mut XdrEncoder) {
        broadcast use crate::xdr::group_records;

        reveal(<GssxCred as Xdr>::tree);
        self.desired_name.encode(e);
        xdr::encode_array(e, self.elements.as_slice());
        self.cred_handle_reference.encode(e);
        self.needs_release.encode(e);
    }

    fn decode(d: &mut XdrDecoder) -> (r: XdrResult<Self>) {
        broadcast use crate::xdr::group_records;

        reveal(<GssxCred as Xdr>::shape);
        reveal(<GssxCred as Xdr>::tree);
        let desired_name = GssxName::decode(d)?;
        let elements: Vec<GssxCredElement> = xdr::decode_array(d)?;
        let cred_handle_reference = OctetString::decode(d)?;
        let needs_release: bool = bool::decode(d)?;
        Ok(GssxCred { desired_name, elements, cred_handle_reference, needs_release })
    }
}

/// A security context.
#[derive(Debug, PartialEq, Eq)]
pub struct GssxCtx {
    pub exported_context_token: GssxBuffer,
    pub state: OctetString,
    pub needs_release: bool,
    pub mech: GssxOid,
    pub src_name: GssxName,
    pub targ_name: GssxName,
    pub lifetime: u64,
    pub ctx_flags: u64,
    pub locally_initiated: bool,
    pub open: bool,
    pub options: Vec<GssxOption>,
}

impl GssxCtx {
    /// Every field is empty, absent, false or zero.
    pub open spec fn blank(&self) -> bool {
        &&& self.exported_context_token@.len() == 0
        &&& self.state@.len() == 0
        &&& !self.needs_release
        &&& self.mech@.len() == 0
        &&& self.src_name.blank()
        &&& self.targ_name.blank()
        &&& self.lifetime == 0
        &&& self.ctx_flags == 0
        &&& !self.locally_initiated
        &&& !self.open
        &&& self.options@.len() == 0
    }
}

impl Default for GssxCtx {
    fn default() -> (r: Self)
        ensures
            r.blank(),
    {
        GssxCtx {
            exported_context_token: Opaque::default(),
            state: Opaque::default(),
            needs_release: false,
            mech: Opaque::default(),
            src_name: GssxName::default(),
            targ_name: GssxName::default(),
            lifetime: 0,
            ctx_flags: 0,
            locally_initiated: false,
            open: false,
            options: Vec::new(),
        }
    }
}

impl Clone for GssxCtx {
    fn clone(&self) -> (r: Self)
        ensures
            r.tree() == self.tree(),
    {
        reveal(<GssxCtx as Xdr>::tree);
        let r = GssxCtx {
            exported_context_token: self.exported_context_token.clone(),
            state: self.state.clone(),
            needs_release: self.needs_release,
            mech: self.mech.clone(),
            src_name: self.src_name.clone(),
            targ_name: self.targ_name.clone(),
            lifetime: self.lifetime,
            ctx_flags: self.ctx_flags,
            locally_initiated: self.locally_initiated,
            open: self.open,
            options: self.options.clone(),
        };
        proof {
            xdr::lemma_same_trees(self.options@, r.options@);
        }
        r
    }
}

impl Xdr for GssxCtx {
    #[verifier::opaque]
    open spec fn shape() -> Shape {
        xdr::pair(
            GssxBuffer::shape(),
            xdr::pair(
                OctetString::shape(),
                xdr::pair(
                    bool::shape(),
                    xdr::pair(
                        GssxOid::shape(),
                        xdr::pair(
                            GssxName::shape(),
                            xdr::pair(
                                GssxName::shape(),
                                xdr::pair(
                                    u64::shape(),
                                    xdr::pair(
                                        u64::shape(),
                                        xdr::pair(
                                            bool::shape(),
                                            xdr::pair(
                                                bool::shape(),
                                                xdr::array_of(GssxOption::shape()),
                                            ),
                                        ),
                                    ),
                                ),
                            ),
                        ),
                    ),
                ),
            ),
        )
    }

    #[verifier::opaque]
    open spec fn tree(&self) -> Tree {
        xdr::both(
            self.exported_context_token.tree(),
            xdr::both(
                self.state.tree(),
                xdr::both(
                    self.needs_release.tree(),
                    xdr::both(
                        self.mech.tree(),
                        xdr::both(
                            self.src_name.tree(),
                            xdr::both(
                                self.targ_name.tree(),
                                xdr::both(
                                    self.lifetime.tree(),
                                    xdr::both(
                                        self.ctx_flags.tree(),
                                        xdr::both(
                                            self.locally_initiated.tree(),
                                            xdr::both(
                                                self.open.tree(),
                                                xdr::array_tree(self.options@),
                                            ),
                                        ),
                                    ),
                                ),
                            ),
                        ),
                    ),
                ),
            ),
        )
    }

    open spec fn canonical(&self) -> bool {
        true
    }

    proof fn lemma_fits(&self) {
        broadcast use crate::xdr::group_records;

        reveal(<GssxCtx as Xdr>::shape);
        reveal(<GssxCtx as Xdr>::tree);
        self.exported_context_token.lemma_fits();
        self.state.lemma_fits();
        self.needs_release.lemma_fits();
        self.mech.lemma_fits();
        self.src_name.lemma_fits();
        self.targ_name.lemma_fits();
        self.lifetime.lemma_fits();
        self.ctx_flags.lemma_fits();
        self.locally_initiated.lemma_fits();
        self.open.lemma_fits();
        xdr::lemma_fits_array(self.options@);
    }

    fn encode(&self, e: &mut XdrEncoder) {
        broadcast use crate::xdr::group_records;

        reveal(<GssxCtx as Xdr>::tree);
        self.exported_context_token.encode(e);
        self.state.encode(e);
        self.needs_release.encode(e);
        self.mech.encode(e);
        self.src_name.encode(e);
        self.targ_name.encode(e);
        self.lifetime.encode(e);
        self.ctx_flags.encode(e);
        self.locally_initiated.encode(e);
        self.open.encode(e);
        xdr::encode_array(e, self.options.as_slice());
    }

    fn decode(d: &mut XdrDecoder) -> (r: XdrResult<Self>) {
        broadcast use crate::xdr::group_records;

        reveal(<GssxCtx as Xdr>::shape);
        reveal(<GssxCtx as Xdr>::tree);
        let exported_context_token = GssxBuffer::decode(d)?;
        let state = OctetString::decode(d)?;
        let needs_release: bool = bool::decode(d)?;
        let mech = GssxOid::decode(d)?;
        let src_name = GssxName::decode(d)?;
        let targ_name = GssxName::decode(d)?;
        let lifetime: u64 = u64::decode(d)?;
        let ctx_flags: u64 = u64::decode(d)?;
        let locally_initiated: bool = bool::decode(d)?;
        let open: bool = bool::decode(d)?;
        let options: Vec<GssxOption> = xdr::decode_array(d)?;
        Ok(GssxCtx {
            exported_context_token,
            state,
            needs_release,
            mech,
            src_name,
            targ_name,
            lifetime,
            ctx_flags,
            locally_initiated,
            open,
            options,
        })
    }
}

/// The discriminants of [`GssxHandle`].
pub const GSSX_C_HANDLE_SEC_CTX: i32 = 0;

pub const GSSX_C_HANDLE_CRED: i32 = 1;

/// A context or a credential, or an opaque extension under another
/// discriminant.
#[derive(Debug, PartialEq, Eq)]
pub enum GssxHandle {
    SecCtx(GssxCtx),
    Cred(GssxCred),
    /// Any other discriminant: opaque extensions blob.
    Extensions { handle_type: i32, data: OctetString },
}

impl Clone for GssxHandle {
    fn clone(&self) -> (r: Self)
        ensures
            r.tree() == self.tree(),
    {
        reveal(<GssxHandle as Xdr>::tree);
        match self {
            GssxHandle::SecCtx(ctx) => GssxHandle::SecCtx(ctx.clone()),
            GssxHandle::Cred(cred) => GssxHandle::Cred(cred.clone()),
            GssxHandle::Extensions { handle_type, data } => GssxHandle::Extensions {
                handle_type: *handle_type,
                data: data.clone(),
            },
        }
    }
}

impl Xdr for GssxHandle {
    #[verifier::opaque]
    open spec fn shape() -> Shape {
        Shape::Switch(seq![GssxCtx::shape(), GssxCred::shape()], Box::new(Shape::Opaque))
    }

    #[verifier::opaque]
    open spec fn tree(&self) -> Tree {
        match self {
            GssxHandle::SecCtx(ctx) => Tree::Case(0, Box::new(ctx.tree())),
            GssxHandle::Cred(cred) => Tree::Case(1, Box::new(cred.tree())),
            GssxHandle::Extensions { handle_type, data } => Tree::Case(
                *handle_type as u32,
                Box::new(data.tree()),
            ),
        }
    }

    /// An extension stands under neither of the other discriminants.
    open spec fn canonical(&self) -> bool {
        self matches GssxHandle::Extensions { handle_type, .. } ==> handle_type != 0
            && handle_type != 1
    }

    proof fn lemma_fits(&self) {
        reveal(<GssxHandle as Xdr>::shape);
        reveal(<GssxHandle as Xdr>::tree);
        reveal(xdr::fits);
        match self {
            GssxHandle::SecCtx(ctx) => {
                ctx.lemma_fits();
            },
            GssxHandle::Cred(cred) => {
                cred.lemma_fits();
            },
            GssxHandle::Extensions { handle_type, data } => {
                xdr::lemma_unsigned_word(*handle_type);
                data.lemma_fits();
            },
        }
    }

    fn encode(&self, e: &mut XdrEncoder) {
        reveal(<GssxHandle as Xdr>::tree);
        reveal(xdr::bytes);
        match self {
            GssxHandle::SecCtx(ctx) => {
                e.put_enum(GSSX_C_HANDLE_SEC_CTX);
                ctx.encode(e);
            },
            GssxHandle::Cred(cred) => {
                e.put_enum(GSSX_C_HANDLE_CRED);
                cred.encode(e);
            },
            GssxHandle::Extensions { handle_type, data } => {
                e.put_enum(*handle_type);
                data.encode(e);
            },
        }
        assert(e@ =~= old(e)@ + xdr::bytes(self.tree()));
    }

    fn decode(d: &mut XdrDecoder) -> (r: XdrResult<Self>) {
        reveal(<GssxHandle as Xdr>::shape);
        reveal(<GssxHandle as Xdr>::tree);
        reveal(xdr::parse);
        let handle_type: i32 = d.get_enum()?;
        proof {
            xdr::lemma_signed_word(xdr::word_at(old(d).data(), old(d).at()));
        }
        if handle_type == GSSX_C_HANDLE_CRED {
            let cred = GssxCred::decode(d)?;
            Ok(GssxHandle::Cred(cred))
        } else if handle_type == GSSX_C_HANDLE_SEC_CTX {
            let ctx = GssxCtx::decode(d)?;
            Ok(GssxHandle::SecCtx(ctx))
        } else {
            let data = Opaque::decode(d)?;
            Ok(GssxHandle::Extensions { handle_type, data })
        }
    }
}

/// Channel bindings.
#[derive(Debug, PartialEq, Eq)]
pub struct GssxCb {
    pub initiator_addrtype: u64,
    pub initiator_address: GssxBuffer,
    pub acceptor_addrtype: u64,
    pub acceptor_address: GssxBuffer,
    pub application_data: GssxBuffer,
}

impl GssxCb {
    /// Every field is empty, absent, false or zero.
    pub open spec fn blank(&self) -> bool {
        &&& self.initiator_addrtype == 0
        &&& self.initiator_address@.len() == 0
        &&& self.acceptor_addrtype == 0
        &&& self.acceptor_address@.len() == 0
        &&& self.application_data@.len() == 0
    }
}

impl Default for GssxCb {
    fn default() -> (r: Self)
        ensures
            r.blank(),
    {
        GssxCb {
            initiator_addrtype: 0,
            initiator_address: Opaque::default(),
            acceptor_addrtype: 0,
            acceptor_address: Opaque::default(),
            application_data: Opaque::default(),
        }
    }
}

impl Clone for GssxCb {
    fn clone(&self) -> (r: Self)
        ensures
            r.tree() == self.tree(),
    {
        reveal(<GssxCb as Xdr>::tree);
        let r = GssxCb {
            initiator_addrtype: self.initiator_addrtype,
            initiator_address: self.initiator_address.clone(),
            acceptor_addrtype: self.acceptor_addrtype,
            acceptor_address: self.acceptor_address.clone(),
            application_data: self.application_data.clone(),
        };
        r
    }
}

impl Xdr for GssxCb {
    #[verifier::opaque]
    open spec fn shape() -> Shape {
        xdr::pair(
            u64::shape(),
            xdr::pair(
                GssxBuffer::shape(),
                xdr::pair(u64::shape(), xdr::pair(GssxBuffer::shape(), GssxBuffer::shape())),
            ),
        )
    }

    #[verifier::opaque]
    open spec fn tree(&self) -> Tree {
        xdr::both(
            self.initiator_addrtype.tree(),
            xdr::both(
                self.initiator_address.tree(),
                xdr::both(
                    self.acceptor_addrtype.tree(),
                    xdr::both(self.acceptor_address.tree(), self.application_data.tree()),
                ),
            ),
        )
    }

    open spec fn canonical(&self) -> bool {
        true
    }

    proof fn lemma_fits(&self) {
        broadcast use crate::xdr::group_records;

        reveal(<GssxCb as Xdr>::shape);
        reveal(<GssxCb as Xdr>::tree);
        self.initiator_addrtype.lemma_fits();
        self.initiator_address.lemma_fits();
        self.acceptor_addrtype.lemma_fits();
        self.acceptor_address.lemma_fits();
        self.application_data.lemma_fits();
    }

    fn encode(&self, e: &mut XdrEncoder) {
        broadcast use crate::xdr::group_records;

        reveal(<GssxCb as Xdr>::tree);
        self.initiator_addrtype.encode(e);
        self.initiator_address.encode(e);
        self.acceptor_addrtype.encode(e);
        self.acceptor_address.encode(e);
        self.application_data.encode(e);
    }

    fn decode(d: &mut XdrDecoder) -> (r: XdrResult<Self>) {
        broadcast use crate::xdr::group_records;

        reveal(<GssxCb as Xdr>::shape);
        reveal(<GssxCb as Xdr>::tree);
        let initiator_addrtype: u64 = u64::decode(d)?;
        let initiator_address = GssxBuffer::decode(d)?;
        let acceptor_addrtype: u64 = u64::decode(d)?;
        let acceptor_address = GssxBuffer::decode(d)?;
        let application_data = GssxBuffer::decode(d)?;
        Ok(GssxCb {
            initiator_addrtype,
            initiator_address,
            acceptor_addrtype,
            acceptor_address,
            application_data,
        })
    }
}

} // verus!
