//! GSSAPI, Kerberos and errno constants.

use vstd::prelude::*;

verus! {

// ---- major status codes ----

pub const GSS_S_COMPLETE: u32 = 0;

/// Supplementary: the routine must be called again.
pub const GSS_S_CONTINUE_NEEDED: u32 = 1;

// Calling errors stand in the top byte.
pub const GSS_S_CALL_INACCESSIBLE_READ: u32 = 0x0100_0000;

pub const GSS_S_CALL_INACCESSIBLE_WRITE: u32 = 0x0200_0000;

pub const GSS_S_CALL_BAD_STRUCTURE: u32 = 0x0300_0000;

// Routine errors stand in the next byte.
pub const GSS_S_BAD_MECH: u32 = 0x0001_0000;

pub const GSS_S_BAD_NAME: u32 = 0x0002_0000;

pub const GSS_S_BAD_STATUS: u32 = 0x0005_0000;

pub const GSS_S_NO_CRED: u32 = 0x0007_0000;

pub const GSS_S_NO_CONTEXT: u32 = 0x0008_0000;

pub const GSS_S_DEFECTIVE_TOKEN: u32 = 0x0009_0000;

pub const GSS_S_DEFECTIVE_CREDENTIAL: u32 = 0x000a_0000;

pub const GSS_S_CREDENTIALS_EXPIRED: u32 = 0x000b_0000;

pub const GSS_S_CONTEXT_EXPIRED: u32 = 0x000c_0000;

pub const GSS_S_FAILURE: u32 = 0x000d_0000;

/// The same code as [`GSS_S_FAILURE`].
pub const GSS_S_CRED_UNAVAIL: u32 = 0x000d_0000;

pub const GSS_S_UNAUTHORIZED: u32 = 0x000f_0000;

pub const GSS_S_UNAVAILABLE: u32 = 0x0010_0000;

pub const GSS_S_NAME_NOT_MN: u32 = 0x0012_0000;

// ---- status selectors ----

pub const GSS_C_GSS_CODE: i32 = 1;

pub const GSS_C_MECH_CODE: i32 = 2;

// ---- credential usage ----

pub const GSS_C_BOTH: i32 = 0;

pub const GSS_C_INITIATE: i32 = 1;

pub const GSS_C_ACCEPT: i32 = 2;

/// A lifetime without end.
pub const GSS_C_INDEFINITE: u32 = 0xffff_ffff;

// ---- credential usage on the wire ----

pub const GSSX_C_INITIATE: i32 = 1;

pub const GSSX_C_ACCEPT: i32 = 2;

pub const GSSX_C_BOTH: i32 = 3;

// ---- errno values ----

pub const EPERM: i32 = 1;

pub const ENOENT: i32 = 2;

pub const EIO: i32 = 5;

pub const ENOMEM: i32 = 12;

pub const EACCES: i32 = 13;

pub const EINVAL: i32 = 22;

pub const ENOSPC: i32 = 28;

pub const ENOSYS: i32 = 38;

pub const EMSGSIZE: i32 = 90;

pub const ENOTSUP: i32 = 95;

// ---- object identifiers (DER bodies) ----

/// The krb5 mechanism: 1.2.840.113554.1.2.2.
pub const KRB5_MECH_OID: [u8; 9] = [0x2a, 0x86, 0x48, 0x86, 0xf7, 0x12, 0x01, 0x02, 0x02];

/// The old krb5 mechanism: 1.3.5.1.5.2.
pub const KRB5_OLD_MECH_OID: [u8; 5] = [0x2b, 0x05, 0x01, 0x05, 0x02];

/// The incorrect krb5 OID that Microsoft emits: 1.2.840.48018.1.2.2.
pub const KRB5_WRONG_MECH_OID: [u8; 9] = [0x2a, 0x86, 0x48, 0x82, 0xf7, 0x12, 0x01, 0x02, 0x02];

/// IAKERB: 1.3.6.1.5.2.5.
pub const IAKERB_MECH_OID: [u8; 6] = [0x2b, 0x06, 0x01, 0x05, 0x02, 0x05];

/// The gssproxy interposer: 2.16.840.1.113730.3.8.15.1.
pub const GSSPROXY_INTERPOSER_OID: [u8; 11] = [
    0x60, 0x86, 0x48, 0x01, 0x86, 0xf8, 0x42, 0x03, 0x08, 0x0f, 0x01,
];

/// User name: 1.2.840.113554.1.2.1.1.
pub const NT_USER_NAME_OID: [u8; 10] = [0x2a, 0x86, 0x48, 0x86, 0xf7, 0x12, 0x01, 0x02, 0x01, 0x01];

/// Machine uid name: 1.2.840.113554.1.2.1.2.
pub const NT_MACHINE_UID_NAME_OID: [u8; 10] = [
    0x2a, 0x86, 0x48, 0x86, 0xf7, 0x12, 0x01, 0x02, 0x01, 0x02,
];

/// String uid name: 1.2.840.113554.1.2.1.3.
pub const NT_STRING_UID_NAME_OID: [u8; 10] = [
    0x2a, 0x86, 0x48, 0x86, 0xf7, 0x12, 0x01, 0x02, 0x01, 0x03,
];

/// Host-based service: 1.2.840.113554.1.2.1.4.
pub const NT_HOSTBASED_SERVICE_OID: [u8; 10] = [
    0x2a, 0x86, 0x48, 0x86, 0xf7, 0x12, 0x01, 0x02, 0x01, 0x04,
];

/// Host-based service, the other OID: 1.3.6.1.5.6.2.
pub const NT_HOSTBASED_SERVICE_X_OID: [u8; 6] = [0x2b, 0x06, 0x01, 0x05, 0x06, 0x02];

/// Anonymous: 1.3.6.1.5.6.3.
pub const NT_ANONYMOUS_OID: [u8; 6] = [0x2b, 0x06, 0x01, 0x05, 0x06, 0x03];

/// Exported name: 1.3.6.1.5.6.4.
pub const NT_EXPORT_NAME_OID: [u8; 6] = [0x2b, 0x06, 0x01, 0x05, 0x06, 0x04];

/// Composite exported name: 1.3.6.1.5.6.6.
pub const NT_COMPOSITE_EXPORT_OID: [u8; 6] = [0x2b, 0x06, 0x01, 0x05, 0x06, 0x06];

/// krb5 principal name: 1.2.840.113554.1.2.2.1.
pub const KRB5_NT_PRINCIPAL_NAME_OID: [u8; 10] = [
    0x2a, 0x86, 0x48, 0x86, 0xf7, 0x12, 0x01, 0x02, 0x02, 0x01,
];

/// Selects the impersonator of a credential: 1.2.840.113554.1.2.2.5.14.
pub const KRB5_GET_CRED_IMPERSONATOR_OID: [u8; 11] = [
    0x2a, 0x86, 0x48, 0x86, 0xf7, 0x12, 0x01, 0x02, 0x02, 0x05, 0x0e,
];

} // verus!
