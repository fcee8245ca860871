//! New records hold nothing, and copies are the same on the wire.

use vstd::prelude::*;

use crate::gssx::{
    GssxCallCtx, GssxCb, GssxCred, GssxCredElement, GssxCtx, GssxMechAttr, GssxMechInfo, GssxName,
    GssxNameAttr, GssxOption, GssxStatus,
};
use crate::proc::{
    ArgAcceptSecContext, ArgAcquireCred, ArgExportCred, ArgGetCallContext, ArgGetMic,
    ArgImportAndCanonName, ArgImportCred, ArgIndicateMechs, ArgInitSecContext, ArgStoreCred,
    ArgUnwrap, ArgVerifyMic, ArgWrap, ArgWrapSizeLimit, ResAcceptSecContext, ResAcquireCred,
    ResExportCred, ResGetCallContext, ResGetMic, ResImportAndCanonName, ResImportCred,
    ResIndicateMechs, ResInitSecContext, ResReleaseHandle, ResStoreCred, ResUnwrap, ResVerifyMic,
    ResWrap, ResWrapSizeLimit,
};
use crate::wire_laws;
use crate::xdr::Xdr;

verus! {

/// A new `GssxOption` is empty in every part, and a copy is the same on the wire.
pub proof fn new_gssx_option(r: GssxOption, v: &GssxOption, c: GssxOption)
    requires
        call_ensures(<GssxOption as Default>::default, (), r),
        call_ensures(<GssxOption as Clone>::clone, (v,), c),
    ensures
        r.option@.len() == 0,
        r.value@.len() == 0,
        wire_laws::wire(c) == wire_laws::wire(*v),
{
}

/// A new `GssxMechAttr` is empty in every part, and a copy is the same on the wire.
pub proof fn new_gssx_mech_attr(r: GssxMechAttr, v: &GssxMechAttr, c: GssxMechAttr)
    requires
        call_ensures(<GssxMechAttr as Default>::default, (), r),
        call_ensures(<GssxMechAttr as Clone>::clone, (v,), c),
    ensures
        r.attr@.len() == 0,
        r.name@.len() == 0,
        r.short_desc@.len() == 0,
        r.long_desc@.len() == 0,
        r.extensions@.len() == 0,
        wire_laws::wire(c) == wire_laws::wire(*v),
{
}

/// A new `GssxMechInfo` is empty in every part, and a copy is the same on the wire.
pub proof fn new_gssx_mech_info(r: GssxMechInfo, v: &GssxMechInfo, c: GssxMechInfo)
    requires
        call_ensures(<GssxMechInfo as Default>::default, (), r),
        call_ensures(<GssxMechInfo as Clone>::clone, (v,), c),
    ensures
        r.mech@.len() == 0,
        r.name_types@.len() == 0,
        r.mech_attrs@.len() == 0,
        r.known_mech_attrs@.len() == 0,
        r.cred_options@.len() == 0,
        r.sec_ctx_options@.len() == 0,
        r.saslname_sasl_mech_name@.len() == 0,
        r.saslname_mech_name@.len() == 0,
        r.saslname_mech_desc@.len() == 0,
        r.extensions@.len() == 0,
        wire_laws::wire(c) == wire_laws::wire(*v),
{
}

/// A new `GssxNameAttr` is empty in every part, and a copy is the same on the wire.
pub proof fn new_gssx_name_attr(r: GssxNameAttr, v: &GssxNameAttr, c: GssxNameAttr)
    requires
        call_ensures(<GssxNameAttr as Default>::default, (), r),
        call_ensures(<GssxNameAttr as Clone>::clone, (v,), c),
    ensures
        r.attr@.len() == 0,
        r.value@.len() == 0,
        r.extensions@.len() == 0,
        wire_laws::wire(c) == wire_laws::wire(*v),
{
}

/// A new `GssxStatus` is empty in every part, and a copy is the same on the wire.
pub proof fn new_gssx_status(r: GssxStatus, v: &GssxStatus, c: GssxStatus)
    requires
        call_ensures(<GssxStatus as Default>::default, (), r),
        call_ensures(<GssxStatus as Clone>::clone, (v,), c),
    ensures
        r.major_status == 0,
        r.mech@.len() == 0,
        r.minor_status == 0,
        r.major_status_string@.len() == 0,
        r.minor_status_string@.len() == 0,
        r.server_ctx@.len() == 0,
        r.options@.len() == 0,
        wire_laws::wire(c) == wire_laws::wire(*v),
{
}

/// A new `GssxCallCtx` is empty in every part, and a copy is the same on the wire.
pub proof fn new_gssx_call_ctx(r: GssxCallCtx, v: &GssxCallCtx, c: GssxCallCtx)
    requires
        call_ensures(<GssxCallCtx as Default>::default, (), r),
        call_ensures(<GssxCallCtx as Clone>::clone, (v,), c),
    ensures
        r.locale@.len() == 0,
        r.server_ctx@.len() == 0,
        r.options@.len() == 0,
        wire_laws::wire(c) == wire_laws::wire(*v),
{
}

/// A new `GssxName` is empty in every part, and a copy is the same on the wire.
pub proof fn new_gssx_name(r: GssxName, v: &GssxName, c: GssxName)
    requires
        call_ensures(<GssxName as Default>::default, (), r),
        call_ensures(<GssxName as Clone>::clone, (v,), c),
    ensures
        r.display_name@.len() == 0,
        r.name_type@.len() == 0,
        r.exported_name@.len() == 0,
        r.exported_composite_name@.len() == 0,
        r.name_attributes@.len() == 0,
        r.extensions@.len() == 0,
        wire_laws::wire(c) == wire_laws::wire(*v),
{
}

/// A new `GssxCredElement` is empty in every part, and a copy is the same on the wire.
pub proof fn new_gssx_cred_element(r: GssxCredElement, v: &GssxCredElement, c: GssxCredElement)
    requires
        call_ensures(<GssxCredElement as Default>::default, (), r),
        call_ensures(<GssxCredElement as Clone>::clone, (v,), c),
    ensures
        r.mn.blank(),
        r.mech@.len() == 0,
        r.cred_usage == 0,
        r.initiator_time_rec == 0,
        r.acceptor_time_rec == 0,
        r.options@.len() == 0,
        wire_laws::wire(c) == wire_laws::wire(*v),
{
}

/// A new `GssxCred` is empty in every part, and a copy is the same on the wire.
pub proof fn new_gssx_cred(r: GssxCred, v: &GssxCred, c: GssxCred)
    requires
        call_ensures(<GssxCred as Default>::default, (), r),
        call_ensures(<GssxCred as Clone>::clone, (v,), c),
    ensures
        r.desired_name.blank(),
        r.elements@.len() == 0,
        r.cred_handle_reference@.len() == 0,
        !r.needs_release,
        wire_laws::wire(c) == wire_laws::wire(*v),
{
}

/// A new `GssxCtx` is empty in every part, and a copy is the same on the wire.
pub proof fn new_gssx_ctx(r: GssxCtx, v: &GssxCtx, c: GssxCtx)
    requires
        call_ensures(<GssxCtx as Default>::default, (), r),
        call_ensures(<GssxCtx as Clone>::clone, (v,), c),
    ensures
        r.exported_context_token@.len() == 0,
        r.state@.len() == 0,
        !r.needs_release,
        r.mech@.len() == 0,
        r.src_name.blank(),
        r.targ_name.blank(),
        r.lifetime == 0,
        r.ctx_flags == 0,
        !r.locally_initiated,
        !r.open,
        r.options@.len() == 0,
        wire_laws::wire(c) == wire_laws::wire(*v),
{
}

/// A new `GssxCb` is empty in every part, and a copy is the same on the wire.
pub proof fn new_gssx_cb(r: GssxCb, v: &GssxCb, c: GssxCb)
    requires
        call_ensures(<GssxCb as Default>::default, (), r),
        call_ensures(<GssxCb as Clone>::clone, (v,), c),
    ensures
        r.initiator_addrtype == 0,
        r.initiator_address@.len() == 0,
        r.acceptor_addrtype == 0,
        r.acceptor_address@.len() == 0,
        r.application_data@.len() == 0,
        wire_laws::wire(c) == wire_laws::wire(*v),
{
}

/// A new `ResReleaseHandle` is empty in every part, and a copy is the same on the wire.
pub proof fn new_res_release_handle(r: ResReleaseHandle, v: &ResReleaseHandle, c: ResReleaseHandle)
    requires
        call_ensures(<ResReleaseHandle as Default>::default, (), r),
        call_ensures(<ResReleaseHandle as Clone>::clone, (v,), c),
    ensures
        r.status.blank(),
        wire_laws::wire(c) == wire_laws::wire(*v),
{
}

/// A new `ArgIndicateMechs` is empty in every part, and a copy is the same on the wire.
pub proof fn new_arg_indicate_mechs(r: ArgIndicateMechs, v: &ArgIndicateMechs, c: ArgIndicateMechs)
    requires
        call_ensures(<ArgIndicateMechs as Default>::default, (), r),
        call_ensures(<ArgIndicateMechs as Clone>::clone, (v,), c),
    ensures
        r.call_ctx.blank(),
        wire_laws::wire(c) == wire_laws::wire(*v),
{
}

/// A new `ResIndicateMechs` is empty in every part, and a copy is the same on the wire.
pub proof fn new_res_indicate_mechs(r: ResIndicateMechs, v: &ResIndicateMechs, c: ResIndicateMechs)
    requires
        call_ensures(<ResIndicateMechs as Default>::default, (), r),
        call_ensures(<ResIndicateMechs as Clone>::clone, (v,), c),
    ensures
        r.status.blank(),
        r.mechs@.len() == 0,
        r.mech_attr_descs@.len() == 0,
        r.supported_extensions@.len() == 0,
        r.options@.len() == 0,
        wire_laws::wire(c) == wire_laws::wire(*v),
{
}

/// A new `ArgImportAndCanonName` is empty in every part, and a copy is the same on the wire.
pub proof fn new_arg_import_and_canon_name(r: ArgImportAndCanonName, v: &ArgImportAndCanonName, c: ArgImportAndCanonName)
    requires
        call_ensures(<ArgImportAndCanonName as Default>::default, (), r),
        call_ensures(<ArgImportAndCanonName as Clone>::clone, (v,), c),
    ensures
        r.call_ctx.blank(),
        r.input_name.blank(),
        r.mech@.len() == 0,
        r.name_attributes@.len() == 0,
        r.options@.len() == 0,
        wire_laws::wire(c) == wire_laws::wire(*v),
{
}

/// A new `ResImportAndCanonName` is empty in every part, and a copy is the same on the wire.
pub proof fn new_res_import_and_canon_name(r: ResImportAndCanonName, v: &ResImportAndCanonName, c: ResImportAndCanonName)
    requires
        call_ensures(<ResImportAndCanonName as Default>::default, (), r),
        call_ensures(<ResImportAndCanonName as Clone>::clone, (v,), c),
    ensures
        r.status.blank(),
        r.output_name is None,
        r.options@.len() == 0,
        wire_laws::wire(c) == wire_laws::wire(*v),
{
}

/// A new `ArgGetCallContext` is empty in every part, and a copy is the same on the wire.
pub proof fn new_arg_get_call_context(r: ArgGetCallContext, v: &ArgGetCallContext, c: ArgGetCallContext)
    requires
        call_ensures(<ArgGetCallContext as Default>::default, (), r),
        call_ensures(<ArgGetCallContext as Clone>::clone, (v,), c),
    ensures
        r.call_ctx.blank(),
        r.options@.len() == 0,
        wire_laws::wire(c) == wire_laws::wire(*v),
{
}

/// A new `ResGetCallContext` is empty in every part, and a copy is the same on the wire.
pub proof fn new_res_get_call_context(r: ResGetCallContext, v: &ResGetCallContext, c: ResGetCallContext)
    requires
        call_ensures(<ResGetCallContext as Default>::default, (), r),
        call_ensures(<ResGetCallContext as Clone>::clone, (v,), c),
    ensures
        r.status.blank(),
        r.server_call_ctx@.len() == 0,
        r.options@.len() == 0,
        wire_laws::wire(c) == wire_laws::wire(*v),
{
}

/// A new `ArgAcquireCred` is empty in every part, and a copy is the same on the wire.
pub proof fn new_arg_acquire_cred(r: ArgAcquireCred, v: &ArgAcquireCred, c: ArgAcquireCred)
    requires
        call_ensures(<ArgAcquireCred as Default>::default, (), r),
        call_ensures(<ArgAcquireCred as Clone>::clone, (v,), c),
    ensures
        r.call_ctx.blank(),
        r.input_cred_handle is None,
        !r.add_cred_to_input_handle,
        r.desired_name is None,
        r.time_req == 0,
        r.desired_mechs@.len() == 0,
        r.cred_usage == 0,
        r.initiator_time_req == 0,
        r.acceptor_time_req == 0,
        r.options@.len() == 0,
        wire_laws::wire(c) == wire_laws::wire(*v),
{
}

/// A new `ResAcquireCred` is empty in every part, and a copy is the same on the wire.
pub proof fn new_res_acquire_cred(r: ResAcquireCred, v: &ResAcquireCred, c: ResAcquireCred)
    requires
        call_ensures(<ResAcquireCred as Default>::default, (), r),
        call_ensures(<ResAcquireCred as Clone>::clone, (v,), c),
    ensures
        r.status.blank(),
        r.output_cred_handle is None,
        r.options@.len() == 0,
        wire_laws::wire(c) == wire_laws::wire(*v),
{
}

/// A new `ArgExportCred` is empty in every part, and a copy is the same on the wire.
pub proof fn new_arg_export_cred(r: ArgExportCred, v: &ArgExportCred, c: ArgExportCred)
    requires
        call_ensures(<ArgExportCred as Default>::default, (), r),
        call_ensures(<ArgExportCred as Clone>::clone, (v,), c),
    ensures
        r.call_ctx.blank(),
        r.input_cred_handle.blank(),
        r.cred_usage == 0,
        r.options@.len() == 0,
        wire_laws::wire(c) == wire_laws::wire(*v),
{
}

/// A new `ResExportCred` is empty in every part, and a copy is the same on the wire.
pub proof fn new_res_export_cred(r: ResExportCred, v: &ResExportCred, c: ResExportCred)
    requires
        call_ensures(<ResExportCred as Default>::default, (), r),
        call_ensures(<ResExportCred as Clone>::clone, (v,), c),
    ensures
        r.status.blank(),
        r.usage_exported == 0,
        r.exported_handle is None,
        r.options@.len() == 0,
        wire_laws::wire(c) == wire_laws::wire(*v),
{
}

/// A new `ArgImportCred` is empty in every part, and a copy is the same on the wire.
pub proof fn new_arg_import_cred(r: ArgImportCred, v: &ArgImportCred, c: ArgImportCred)
    requires
        call_ensures(<ArgImportCred as Default>::default, (), r),
        call_ensures(<ArgImportCred as Clone>::clone, (v,), c),
    ensures
        r.call_ctx.blank(),
        r.exported_handle@.len() == 0,
        r.options@.len() == 0,
        wire_laws::wire(c) == wire_laws::wire(*v),
{
}

/// A new `ResImportCred` is empty in every part, and a copy is the same on the wire.
pub proof fn new_res_import_cred(r: ResImportCred, v: &ResImportCred, c: ResImportCred)
    requires
        call_ensures(<ResImportCred as Default>::default, (), r),
        call_ensures(<ResImportCred as Clone>::clone, (v,), c),
    ensures
        r.status.blank(),
        r.output_cred_handle is None,
        r.options@.len() == 0,
        wire_laws::wire(c) == wire_laws::wire(*v),
{
}

/// A new `ArgStoreCred` is empty in every part, and a copy is the same on the wire.
pub proof fn new_arg_store_cred(r: ArgStoreCred, v: &ArgStoreCred, c: ArgStoreCred)
    requires
        call_ensures(<ArgStoreCred as Default>::default, (), r),
        call_ensures(<ArgStoreCred as Clone>::clone, (v,), c),
    ensures
        r.call_ctx.blank(),
        r.input_cred_handle.blank(),
        r.cred_usage == 0,
        r.desired_mech@.len() == 0,
        !r.overwrite_cred,
        !r.default_cred,
        r.options@.len() == 0,
        wire_laws::wire(c) == wire_laws::wire(*v),
{
}

/// A new `ResStoreCred` is empty in every part, and a copy is the same on the wire.
pub proof fn new_res_store_cred(r: ResStoreCred, v: &ResStoreCred, c: ResStoreCred)
    requires
        call_ensures(<ResStoreCred as Default>::default, (), r),
        call_ensures(<ResStoreCred as Clone>::clone, (v,), c),
    ensures
        r.status.blank(),
        r.elements_stored@.len() == 0,
        r.cred_usage_stored == 0,
        r.options@.len() == 0,
        wire_laws::wire(c) == wire_laws::wire(*v),
{
}

/// A new `ArgInitSecContext` is empty in every part, and a copy is the same on the wire.
pub proof fn new_arg_init_sec_context(r: ArgInitSecContext, v: &ArgInitSecContext, c: ArgInitSecContext)
    requires
        call_ensures(<ArgInitSecContext as Default>::default, (), r),
        call_ensures(<ArgInitSecContext as Clone>::clone, (v,), c),
    ensures
        r.call_ctx.blank(),
        r.context_handle is None,
        r.cred_handle is None,
        r.target_name is None,
        r.mech_type@.len() == 0,
        r.req_flags == 0,
        r.time_req == 0,
        r.input_cb is None,
        r.input_token is None,
        r.options@.len() == 0,
        wire_laws::wire(c) == wire_laws::wire(*v),
{
}

/// A new `ResInitSecContext` is empty in every part, and a copy is the same on the wire.
pub proof fn new_res_init_sec_context(r: ResInitSecContext, v: &ResInitSecContext, c: ResInitSecContext)
    requires
        call_ensures(<ResInitSecContext as Default>::default, (), r),
        call_ensures(<ResInitSecContext as Clone>::clone, (v,), c),
    ensures
        r.status.blank(),
        r.context_handle is None,
        r.output_token is None,
        r.options@.len() == 0,
        wire_laws::wire(c) == wire_laws::wire(*v),
{
}

/// A new `ArgAcceptSecContext` is empty in every part, and a copy is the same on the wire.
pub proof fn new_arg_accept_sec_context(r: ArgAcceptSecContext, v: &ArgAcceptSecContext, c: ArgAcceptSecContext)
    requires
        call_ensures(<ArgAcceptSecContext as Default>::default, (), r),
        call_ensures(<ArgAcceptSecContext as Clone>::clone, (v,), c),
    ensures
        r.call_ctx.blank(),
        r.context_handle is None,
        r.cred_handle is None,
        r.input_token@.len() == 0,
        r.input_cb is None,
        !r.ret_deleg_cred,
        r.options@.len() == 0,
        wire_laws::wire(c) == wire_laws::wire(*v),
{
}

/// A new `ResAcceptSecContext` is empty in every part, and a copy is the same on the wire.
pub proof fn new_res_accept_sec_context(r: ResAcceptSecContext, v: &ResAcceptSecContext, c: ResAcceptSecContext)
    requires
        call_ensures(<ResAcceptSecContext as Default>::default, (), r),
        call_ensures(<ResAcceptSecContext as Clone>::clone, (v,), c),
    ensures
        r.status.blank(),
        r.context_handle is None,
        r.output_token is None,
        r.delegated_cred_handle is None,
        r.options@.len() == 0,
        wire_laws::wire(c) == wire_laws::wire(*v),
{
}

/// A new `ArgGetMic` is empty in every part, and a copy is the same on the wire.
pub proof fn new_arg_get_mic(r: ArgGetMic, v: &ArgGetMic, c: ArgGetMic)
    requires
        call_ensures(<ArgGetMic as Default>::default, (), r),
        call_ensures(<ArgGetMic as Clone>::clone, (v,), c),
    ensures
        r.call_ctx.blank(),
        r.context_handle.blank(),
        r.qop_req == 0,
        r.message_buffer@.len() == 0,
        wire_laws::wire(c) == wire_laws::wire(*v),
{
}

/// A new `ResGetMic` is empty in every part, and a copy is the same on the wire.
pub proof fn new_res_get_mic(r: ResGetMic, v: &ResGetMic, c: ResGetMic)
    requires
        call_ensures(<ResGetMic as Default>::default, (), r),
        call_ensures(<ResGetMic as Clone>::clone, (v,), c),
    ensures
        r.status.blank(),
        r.context_handle is None,
        r.token_buffer@.len() == 0,
        r.qop_state is None,
        wire_laws::wire(c) == wire_laws::wire(*v),
{
}

/// A new `ArgVerifyMic` is empty in every part, and a copy is the same on the wire.
pub proof fn new_arg_verify_mic(r: ArgVerifyMic, v: &ArgVerifyMic, c: ArgVerifyMic)
    requires
        call_ensures(<ArgVerifyMic as Default>::default, (), r),
        call_ensures(<ArgVerifyMic as Clone>::clone, (v,), c),
    ensures
        r.call_ctx.blank(),
        r.context_handle.blank(),
        r.message_buffer@.len() == 0,
        r.token_buffer@.len() == 0,
        wire_laws::wire(c) == wire_laws::wire(*v),
{
}

/// A new `ResVerifyMic` is empty in every part, and a copy is the same on the wire.
pub proof fn new_res_verify_mic(r: ResVerifyMic, v: &ResVerifyMic, c: ResVerifyMic)
    requires
        call_ensures(<ResVerifyMic as Default>::default, (), r),
        call_ensures(<ResVerifyMic as Clone>::clone, (v,), c),
    ensures
        r.status.blank(),
        r.context_handle is None,
        r.qop_state is None,
        wire_laws::wire(c) == wire_laws::wire(*v),
{
}

/// A new `ArgWrap` is empty in every part, and a copy is the same on the wire.
pub proof fn new_arg_wrap(r: ArgWrap, v: &ArgWrap, c: ArgWrap)
    requires
        call_ensures(<ArgWrap as Default>::default, (), r),
        call_ensures(<ArgWrap as Clone>::clone, (v,), c),
    ensures
        r.call_ctx.blank(),
        r.context_handle.blank(),
        !r.conf_req,
        r.message_buffer@.len() == 0,
        r.qop_state == 0,
        wire_laws::wire(c) == wire_laws::wire(*v),
{
}

/// A new `ResWrap` is empty in every part, and a copy is the same on the wire.
pub proof fn new_res_wrap(r: ResWrap, v: &ResWrap, c: ResWrap)
    requires
        call_ensures(<ResWrap as Default>::default, (), r),
        call_ensures(<ResWrap as Clone>::clone, (v,), c),
    ensures
        r.status.blank(),
        r.context_handle is None,
        r.token_buffer@.len() == 0,
        r.conf_state is None,
        r.qop_state is None,
        wire_laws::wire(c) == wire_laws::wire(*v),
{
}

/// A new `ArgUnwrap` is empty in every part, and a copy is the same on the wire.
pub proof fn new_arg_unwrap(r: ArgUnwrap, v: &ArgUnwrap, c: ArgUnwrap)
    requires
        call_ensures(<ArgUnwrap as Default>::default, (), r),
        call_ensures(<ArgUnwrap as Clone>::clone, (v,), c),
    ensures
        r.call_ctx.blank(),
        r.context_handle.blank(),
        r.token_buffer@.len() == 0,
        r.qop_state == 0,
        wire_laws::wire(c) == wire_laws::wire(*v),
{
}

/// A new `ResUnwrap` is empty in every part, and a copy is the same on the wire.
pub proof fn new_res_unwrap(r: ResUnwrap, v: &ResUnwrap, c: ResUnwrap)
    requires
        call_ensures(<ResUnwrap as Default>::default, (), r),
        call_ensures(<ResUnwrap as Clone>::clone, (v,), c),
    ensures
        r.status.blank(),
        r.context_handle is None,
        r.message_buffer@.len() == 0,
        r.conf_state is None,
        r.qop_state is None,
        wire_laws::wire(c) == wire_laws::wire(*v),
{
}

/// A new `ArgWrapSizeLimit` is empty in every part, and a copy is the same on the wire.
pub proof fn new_arg_wrap_size_limit(r: ArgWrapSizeLimit, v: &ArgWrapSizeLimit, c: ArgWrapSizeLimit)
    requires
        call_ensures(<ArgWrapSizeLimit as Default>::default, (), r),
        call_ensures(<ArgWrapSizeLimit as Clone>::clone, (v,), c),
    ensures
        r.call_ctx.blank(),
        r.context_handle.blank(),
        !r.conf_req,
        r.qop_state == 0,
        r.req_output_size == 0,
        wire_laws::wire(c) == wire_laws::wire(*v),
{
}

/// A new `ResWrapSizeLimit` is empty in every part, and a copy is the same on the wire.
pub proof fn new_res_wrap_size_limit(r: ResWrapSizeLimit, v: &ResWrapSizeLimit, c: ResWrapSizeLimit)
    requires
        call_ensures(<ResWrapSizeLimit as Default>::default, (), r),
        call_ensures(<ResWrapSizeLimit as Clone>::clone, (v,), c),
    ensures
        r.status.blank(),
        r.max_input_size == 0,
        wire_laws::wire(c) == wire_laws::wire(*v),
{
}

} // verus!
