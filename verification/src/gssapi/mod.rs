//! What stands between the daemon or the interposer and the GSSAPI and krb5
//! libraries: statuses, sealing and credential caches.

pub mod ccache;
pub mod seal;
pub mod wrap;
pub mod laws;
