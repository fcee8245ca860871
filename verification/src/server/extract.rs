//! Taking a sealed credential out of a credential cache, to store it as one that
//! can be used.
//!
//! The cache holds the credential as the ticket of a credential for
//! [`crate::gssapi::ccache::GPKRB_SRV_NAME`]. The ticket is an encoded credential
//! whose reference is what was sealed.

use vstd::prelude::*;

use crate::gssx::GssxCred;
use crate::xdr;
use crate::xdr::{Tree, Xdr, XdrDecoder, XdrError};
use crate::xdr_laws;

verus! {

/// What is done to read the ticket.
#[derive(Debug, Clone, Copy, PartialEq, Eq, Structural)]
pub enum ReadStep {
    /// Make a krb5 context.
    Context,
    /// Turn the name of the cache into one that C can be handed.
    Name,
    /// Resolve the cache.
    Resolve,
    /// Read the principal of the cache, who is the client.
    Client,
    /// Parse the server principal.
    Server,
    /// Retrieve the credential.
    Retrieve,
    /// Take its ticket.
    Ticket,
}

impl ReadStep {
    /// The step after one that succeeded.
    pub open spec fn after(self) -> ReadStep {
        match self {
            ReadStep::Context => ReadStep::Name,
            ReadStep::Name => ReadStep::Resolve,
            ReadStep::Resolve => ReadStep::Client,
            ReadStep::Client => ReadStep::Server,
            ReadStep::Server => ReadStep::Retrieve,
            ReadStep::Retrieve => ReadStep::Ticket,
            ReadStep::Ticket => ReadStep::Ticket,
        }
    }

    /// What is said of a step that failed.
    pub open spec fn complaint(self, ccache_name: Seq<char>) -> Seq<char> {
        match self {
            ReadStep::Context => "krb5_init_context failed"@,
            ReadStep::Name => "invalid ccache name"@,
            ReadStep::Resolve => "cannot resolve ccache "@ + ccache_name,
            ReadStep::Client => "cannot read ccache principal"@,
            ReadStep::Server => "cannot parse gssproxy server principal"@,
            ReadStep::Retrieve => "no gssproxy credential in ccache"@,
            ReadStep::Ticket => "empty gssproxy credential ticket"@,
        }
    }

    fn failed(self, ccache_name: &str) -> (r: String)
        ensures
            r@ == self.complaint(ccache_name@),
    {
        match self {
            ReadStep::Context => "krb5_init_context failed".to_owned(),
            ReadStep::Name => "invalid ccache name".to_owned(),
            ReadStep::Resolve => {
                let mut s = "cannot resolve ccache ".to_owned();
                s.push_str(ccache_name);
                s
            },
            ReadStep::Client => "cannot read ccache principal".to_owned(),
            ReadStep::Server => "cannot parse gssproxy server principal".to_owned(),
            ReadStep::Retrieve => "no gssproxy credential in ccache".to_owned(),
            ReadStep::Ticket => "empty gssproxy credential ticket".to_owned(),
        }
    }

    /// Go on after a step; `ok` says whether it succeeded.
    pub fn done(self, ok: bool, ccache_name: &str) -> (r: Result<ReadStep, String>)
        ensures
            match r {
                Ok(next) => ok && next == self.after(),
                Err(text) => !ok && text@ == self.complaint(ccache_name@),
            },
    {
        if !ok {
            return Err(self.failed(ccache_name));
        }
        Ok(
            match self {
                ReadStep::Context => ReadStep::Name,
                ReadStep::Name => ReadStep::Resolve,
                ReadStep::Resolve => ReadStep::Client,
                ReadStep::Client => ReadStep::Server,
                ReadStep::Server => ReadStep::Retrieve,
                ReadStep::Retrieve => ReadStep::Ticket,
                ReadStep::Ticket => ReadStep::Ticket,
            },
        )
    }
}

/// The ticket that was found is the encoded credential, unless it is empty.
pub fn read_sealed_blob(ticket: Vec<u8>) -> (r: Result<Vec<u8>, String>)
    ensures
        match r {
            Ok(blob) => blob == ticket && ticket@.len() > 0,
            Err(text) => {
                &&& ticket@.len() == 0
                &&& text@ == ReadStep::Ticket.complaint(""@)
            },
        },
{
    if ticket.len() == 0 {
        return Err(ReadStep::Ticket.failed(""));
    }
    Ok(ticket)
}

/// How a programmer is shown a decoding error.
pub open spec fn shown(e: XdrError) -> Seq<char> {
    match e {
        XdrError::Eof => "Eof"@,
        XdrError::InvalidValue(what) => "InvalidValue(\""@ + what@ + "\")"@,
        XdrError::TooLong => "TooLong"@,
    }
}

/// What is said of a credential that cannot be decoded.
pub open spec fn undecodable(e: XdrError) -> Seq<char> {
    "decoding gssx_cred: "@ + shown(e)
}

/// The reference that stands in the value of a credential.
pub open spec fn reference_of(t: Tree) -> Seq<u8> {
    let elements = *t->Pair_1;
    let reference = *elements->Pair_1;
    (*reference->Pair_0)->Opaque_0
}

/// Take the sealed token out of the encoded credential.
pub fn extract_ccache(blob: &[u8]) -> (r: Result<Vec<u8>, String>)
    ensures
        match xdr::parse(GssxCred::shape(), blob@, 0).val {
            Err(e) => r is Err && r->Err_0@ == undecodable(e),
            Ok(t) => r is Ok && r->Ok_0@ == reference_of(t),
        },
{
    let mut d = XdrDecoder::new(blob);
    match GssxCred::decode(&mut d) {
        Ok(xcred) => {
            proof {
                reveal(<GssxCred as Xdr>::tree);
            }
            Ok(xcred.cred_handle_reference.0)
        },
        Err(e) => {
            let mut s = "decoding gssx_cred: ".to_owned();
            match e {
                XdrError::Eof => s.push_str("Eof"),
                XdrError::InvalidValue(what) => {
                    s.push_str("InvalidValue(\"");
                    s.push_str(what);
                    s.push_str("\")");
                },
                XdrError::TooLong => s.push_str("TooLong"),
            }
            assert(s@ =~= undecodable(e));
            Err(s)
        },
    }
}

/// What is done with the sealed token.
#[derive(Debug, Clone, Copy, PartialEq, Eq, Structural)]
pub enum ExtractStep {
    /// Derive the sealing key from the default keytab.
    Derive,
    /// Unseal the token.
    Unseal,
    /// Import the credential that the token is.
    Import,
    /// Store the credential.
    Store,
}

impl ExtractStep {
    /// What an error is introduced with.
    pub open spec fn introduction(self) -> Seq<char> {
        match self {
            ExtractStep::Derive => "deriving sealing key: "@,
            ExtractStep::Unseal => "decrypting credential handle: "@,
            ExtractStep::Import => "importing credential: "@,
            ExtractStep::Store => "storing credential: "@,
        }
    }

    /// What is said of a step that failed with an error.
    pub fn failed(self, error: &str) -> (r: String)
        ensures
            r@ == self.introduction() + error@,
    {
        let mut s = match self {
            ExtractStep::Derive => "deriving sealing key: ".to_owned(),
            ExtractStep::Unseal => "decrypting credential handle: ".to_owned(),
            ExtractStep::Import => "importing credential: ".to_owned(),
            ExtractStep::Store => "storing credential: ".to_owned(),
        };
        s.push_str(error);
        s
    }
}

/// The reference of every credential that is kept is what is taken out of it.
pub proof fn kept_reference_is_extracted(cred: GssxCred)
    requires
        cred.canonical(),
        xdr::sized(cred.tree()),
    ensures
        ({
            let q = xdr::parse(GssxCred::shape(), xdr::bytes(cred.tree()), 0);
            q.val is Ok && reference_of(q.val->Ok_0) == cred.cred_handle_reference@
        }),
{
    reveal(<GssxCred as Xdr>::tree);
    xdr_laws::decode_undoes_encode(cred, Seq::empty());
    assert(xdr::bytes(cred.tree()) + Seq::<u8>::empty() =~= xdr::bytes(cred.tree()));
}

} // verus!
