//! The numbers that both ends of the protocol and the mechanisms agree on.

use vstd::prelude::*;

use crate::consts;
use crate::rpc;

verus! {

/// A major status: a calling error in the top byte, a routine error in the next, and
/// supplementary bits.
pub open spec fn major(calling: int, routine: int, supplementary: int) -> int {
    calling * 0x100_0000 + routine * 0x1_0000 + supplementary
}

/// Each major status has its number.
pub proof fn numbers_of_statuses()
    ensures
        consts::GSS_S_COMPLETE == major(0, 0, 0),
        consts::GSS_S_CONTINUE_NEEDED == major(0, 0, 1),
        consts::GSS_S_CALL_INACCESSIBLE_READ == major(1, 0, 0),
        consts::GSS_S_CALL_INACCESSIBLE_WRITE == major(2, 0, 0),
        consts::GSS_S_CALL_BAD_STRUCTURE == major(3, 0, 0),
        consts::GSS_S_BAD_MECH == major(0, 1, 0),
        consts::GSS_S_BAD_NAME == major(0, 2, 0),
        consts::GSS_S_BAD_STATUS == major(0, 5, 0),
        consts::GSS_S_NO_CRED == major(0, 7, 0),
        consts::GSS_S_NO_CONTEXT == major(0, 8, 0),
        consts::GSS_S_DEFECTIVE_TOKEN == major(0, 9, 0),
        consts::GSS_S_DEFECTIVE_CREDENTIAL == major(0, 10, 0),
        consts::GSS_S_CREDENTIALS_EXPIRED == major(0, 11, 0),
        consts::GSS_S_CONTEXT_EXPIRED == major(0, 12, 0),
        consts::GSS_S_FAILURE == major(0, 13, 0),
        consts::GSS_S_CRED_UNAVAIL == major(0, 13, 0),
        consts::GSS_S_UNAUTHORIZED == major(0, 15, 0),
        consts::GSS_S_UNAVAILABLE == major(0, 16, 0),
        consts::GSS_S_NAME_NOT_MN == major(0, 18, 0),
{
}

/// Usages, kinds of status, the endless lifetime and the errors of the system.
pub proof fn numbers_of_the_interface()
    ensures
        consts::GSS_C_BOTH == 0 && consts::GSS_C_INITIATE == 1 && consts::GSS_C_ACCEPT == 2,
        consts::GSSX_C_INITIATE == 1 && consts::GSSX_C_ACCEPT == 2 && consts::GSSX_C_BOTH == 3,
        consts::GSS_C_GSS_CODE == 1 && consts::GSS_C_MECH_CODE == 2,
        consts::GSS_C_INDEFINITE == u32::MAX,
        consts::EPERM == 1 && consts::ENOENT == 2 && consts::EIO == 5 && consts::ENOMEM == 12,
        consts::EACCES == 13 && consts::EINVAL == 22 && consts::ENOSPC == 28,
        consts::ENOSYS == 38 && consts::EMSGSIZE == 90 && consts::ENOTSUP == 95,
        rpc::GSSPROXY == 400112 && rpc::GSSPROXYVERS == 1 && rpc::RPC_VERS == 2,
        rpc::MAX_RPC_SIZE == 1_048_576 && rpc::MAX_AUTH_BODY == 400,
        rpc::FRAGMENT_BIT == 0x8000_0000u32,
        crate::interposer::error::MAP_ERROR_BASE == 0x0420_0000u32,
        crate::gssx::GSSX_C_HANDLE_SEC_CTX == 0 && crate::gssx::GSSX_C_HANDLE_CRED == 1,
        crate::client::RESPONSE_TIMEOUT_SECS == 15 && crate::client::MAX_TIMEOUT_RETRY == 3,
        crate::gssapi::ccache::GPKRB_SRV_NAME@ == "Encrypted/Credentials/v1@X-GSSPROXY:"@,
        crate::server::config::GP_SOCKET_NAME@ == "/var/lib/gssproxy/default.sock"@,
{
}

/// The digits of an arc in base 128 but for the last one, each with its top bit set.
pub open spec fn leading_digits(n: nat) -> Seq<u8>
    decreases n,
{
    if n == 0 {
        Seq::empty()
    } else {
        leading_digits(n / 128).push((128 + n % 128) as u8)
    }
}

/// An arc of an object identifier: its digits in base 128, of which the last one has its top
/// bit clear.
pub open spec fn arc(n: nat) -> Seq<u8> {
    leading_digits(n / 128).push((n % 128) as u8)
}

/// The first two arcs of an object identifier are one.
pub open spec fn first_arcs(a: nat, b: nat) -> Seq<u8> {
    arc(40 * a + b)
}

proof fn lemma_arcs()
    ensures
        first_arcs(1, 2) == seq![0x2au8],
        first_arcs(1, 3) == seq![0x2bu8],
        first_arcs(2, 16) == seq![0x60u8],
        arc(840) == seq![0x86u8, 0x48u8],
        arc(113554) == seq![0x86u8, 0xf7u8, 0x12u8],
        arc(48018) == seq![0x82u8, 0xf7u8, 0x12u8],
        arc(113730) == seq![0x86u8, 0xf8u8, 0x42u8],
{
    reveal_with_fuel(leading_digits, 4);
    assert(first_arcs(1, 2) =~= seq![0x2au8]);
    assert(first_arcs(1, 3) =~= seq![0x2bu8]);
    assert(first_arcs(2, 16) =~= seq![0x60u8]);
    assert(arc(840) =~= seq![0x86u8, 0x48u8]);
    assert(arc(113554) =~= seq![0x86u8, 0xf7u8, 0x12u8]);
    assert(arc(48018) =~= seq![0x82u8, 0xf7u8, 0x12u8]);
    assert(arc(113730) =~= seq![0x86u8, 0xf8u8, 0x42u8]);
}

proof fn lemma_small_arc(n: nat)
    requires
        n < 128,
    ensures
        arc(n) == seq![n as u8],
{
    assert(arc(n) =~= seq![n as u8]);
}

/// The mechanisms: krb5 is 1.2.840.113554.1.2.2, formerly 1.3.5.1.5.2 and wrongly
/// 1.2.840.48018.1.2.2; IAKERB is 1.3.6.1.5.2.5 and the interposer
/// 2.16.840.1.113730.3.8.15.1.
pub proof fn oids_of_mechanisms()
    ensures
        consts::KRB5_MECH_OID@ == first_arcs(1, 2) + arc(840) + arc(113554) + arc(1) + arc(2)
            + arc(2),
        consts::KRB5_OLD_MECH_OID@ == first_arcs(1, 3) + arc(5) + arc(1) + arc(5) + arc(2),
        consts::KRB5_WRONG_MECH_OID@ == first_arcs(1, 2) + arc(840) + arc(48018) + arc(1) + arc(2)
            + arc(2),
        consts::IAKERB_MECH_OID@ == first_arcs(1, 3) + arc(6) + arc(1) + arc(5) + arc(2) + arc(5),
        consts::GSSPROXY_INTERPOSER_OID@ == first_arcs(2, 16) + arc(840) + arc(1) + arc(113730)
            + arc(3) + arc(8) + arc(15) + arc(1),
        crate::codec::KRB5_OID@ == consts::KRB5_MECH_OID@,
{
    lemma_arcs();
    lemma_small_arc(1);
    lemma_small_arc(2);
    lemma_small_arc(3);
    lemma_small_arc(5);
    lemma_small_arc(6);
    lemma_small_arc(8);
    lemma_small_arc(15);
    assert(consts::KRB5_MECH_OID@ =~= first_arcs(1, 2) + arc(840) + arc(113554) + arc(1) + arc(2)
        + arc(2));
    assert(consts::KRB5_OLD_MECH_OID@ =~= first_arcs(1, 3) + arc(5) + arc(1) + arc(5) + arc(2));
    assert(consts::KRB5_WRONG_MECH_OID@ =~= first_arcs(1, 2) + arc(840) + arc(48018) + arc(1)
        + arc(2) + arc(2));
    assert(consts::IAKERB_MECH_OID@ =~= first_arcs(1, 3) + arc(6) + arc(1) + arc(5) + arc(2)
        + arc(5));
    assert(consts::GSSPROXY_INTERPOSER_OID@ =~= first_arcs(2, 16) + arc(840) + arc(1) + arc(113730)
        + arc(3) + arc(8) + arc(15) + arc(1));
    assert(crate::codec::KRB5_OID@ =~= consts::KRB5_MECH_OID@);
}

/// The types of names stand under 1.2.840.113554.1.2 and under 1.3.6.1.5.6.
pub proof fn oids_of_name_types()
    ensures
        ({
            let mit = first_arcs(1, 2) + arc(840) + arc(113554) + arc(1) + arc(2);
            let ietf = first_arcs(1, 3) + arc(6) + arc(1) + arc(5) + arc(6);
            &&& consts::NT_USER_NAME_OID@ == mit + arc(1) + arc(1)
            &&& consts::NT_MACHINE_UID_NAME_OID@ == mit + arc(1) + arc(2)
            &&& consts::NT_STRING_UID_NAME_OID@ == mit + arc(1) + arc(3)
            &&& consts::NT_HOSTBASED_SERVICE_OID@ == mit + arc(1) + arc(4)
            &&& consts::KRB5_NT_PRINCIPAL_NAME_OID@ == mit + arc(2) + arc(1)
            &&& consts::KRB5_GET_CRED_IMPERSONATOR_OID@ == mit + arc(2) + arc(5) + arc(14)
            &&& consts::NT_HOSTBASED_SERVICE_X_OID@ == ietf + arc(2)
            &&& consts::NT_ANONYMOUS_OID@ == ietf + arc(3)
            &&& consts::NT_EXPORT_NAME_OID@ == ietf + arc(4)
            &&& consts::NT_COMPOSITE_EXPORT_OID@ == ietf + arc(6)
        }),
{
    lemma_arcs();
    lemma_small_arc(1);
    lemma_small_arc(2);
    lemma_small_arc(3);
    lemma_small_arc(4);
    lemma_small_arc(5);
    lemma_small_arc(6);
    lemma_small_arc(14);
    let mit = first_arcs(1, 2) + arc(840) + arc(113554) + arc(1) + arc(2);
    let ietf = first_arcs(1, 3) + arc(6) + arc(1) + arc(5) + arc(6);
    assert(consts::NT_USER_NAME_OID@ =~= mit + arc(1) + arc(1));
    assert(consts::NT_MACHINE_UID_NAME_OID@ =~= mit + arc(1) + arc(2));
    assert(consts::NT_STRING_UID_NAME_OID@ =~= mit + arc(1) + arc(3));
    assert(consts::NT_HOSTBASED_SERVICE_OID@ =~= mit + arc(1) + arc(4));
    assert(consts::KRB5_NT_PRINCIPAL_NAME_OID@ =~= mit + arc(2) + arc(1));
    assert(consts::KRB5_GET_CRED_IMPERSONATOR_OID@ =~= mit + arc(2) + arc(5) + arc(14));
    assert(consts::NT_HOSTBASED_SERVICE_X_OID@ =~= ietf + arc(2));
    assert(consts::NT_ANONYMOUS_OID@ =~= ietf + arc(3));
    assert(consts::NT_EXPORT_NAME_OID@ =~= ietf + arc(4));
    assert(consts::NT_COMPOSITE_EXPORT_OID@ =~= ietf + arc(6));
}

} // verus!
