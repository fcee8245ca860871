//! The mechanism interposer: what each entry point decides, and what it makes
//! of the answers of the local mechanism and of the daemon.

pub mod behavior;
pub mod convert;
pub mod error;
pub mod oids;
pub mod special;
pub mod attempt;
pub mod handle;
pub mod context;
pub mod creds;
pub mod ctxlife;
pub mod msgprot;
pub mod mechstatus;
pub mod mech_laws;
pub mod name_laws;
pub mod names;
pub mod context_laws;
pub mod cred_laws;
