//! The gssproxy wire protocol, client logic, daemon logic and mechanism
//! interposer rules, with their behaviour stated and proved.

// Bytes and text.
pub mod octets;
pub mod text;
pub mod text_laws;

// The wire.
pub mod xdr;
pub mod xdr_laws;
pub mod frame;
pub mod rpc;
pub mod gssx;
pub mod proc;
pub mod redact;
pub mod codec;
pub mod wire_laws;
pub mod record_laws;
pub mod message_laws;

// Both ends of it.
pub mod consts;
pub mod consts_laws;
pub mod client;
pub mod gpm;
pub mod gpm_laws;
pub mod gssapi;
pub mod interposer;
pub mod server;
