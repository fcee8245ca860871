//! How a remote credential is kept in a krb5 credential cache: as the ticket of a
//! credential for a server principal of its own, under the name of the client.

use vstd::prelude::*;

use crate::consts::{EINVAL, EIO, ENOSPC};
use crate::octets;

verus! {

/// The server principal of a kept credential.
pub const GPKRB_SRV_NAME: &'static str = "Encrypted/Credentials/v1@X-GSSPROXY:";

/// The largest credential that is kept.
pub const GPKRB_MAX_CRED_SIZE: usize = 524_288;

/// The krb5 code for a cache that does not exist.
pub const KRB5_CC_NOTFOUND: i32 = -1_765_328_243;

/// A name that C can be handed holds no NUL.
pub open spec fn has_nul(name: Seq<u8>) -> bool {
    name.contains(0)
}

fn contains_byte(name: &[u8], byte: u8) -> (r: bool)
    ensures
        r == name@.contains(byte),
{
    let mut i: usize = 0;
    while i < name.len()
        invariant
            i <= name@.len(),
            forall|j: int| 0 <= j < i ==> name@[j] != byte,
        decreases name@.len() - i,
    {
        if name[i] == byte {
            assert(name@[i as int] == byte);
            return true;
        }
        i += 1;
    }
    false
}

/// Whether a credential can be kept: it must not be too large, and the name of
/// the client must not hold a NUL. The errno otherwise.
pub fn store_remote_cred(client: &[u8], ticket: &[u8]) -> (r: Result<(), i32>)
    ensures
        r == if ticket@.len() > GPKRB_MAX_CRED_SIZE {
            Err::<(), i32>(ENOSPC)
        } else if has_nul(client@) {
            Err(EINVAL)
        } else {
            Ok(())
        },
{
    if ticket.len() > GPKRB_MAX_CRED_SIZE {
        return Err(ENOSPC);
    }
    if contains_byte(client, 0) {
        return Err(EINVAL);
    }
    Ok(())
}

/// A cache is a file: it says so, or says nothing.
pub open spec fn is_file(cc_name: Seq<u8>) -> bool {
    seq![0x46u8, 0x49, 0x4c, 0x45, 0x3a].is_prefix_of(cc_name) || !cc_name.contains(0x3a)
}

/// The place of the first colon, or the end.
pub open spec fn colon(cc_name: Seq<u8>) -> int
    decreases cc_name.len(),
{
    if cc_name.len() == 0 || cc_name[0] == 0x3a {
        0
    } else {
        1 + colon(cc_name.skip(1))
    }
}

/// The type of a cache: what stands before the first colon.
pub open spec fn type_of(cc_name: Seq<u8>) -> Seq<u8> {
    cc_name.take(colon(cc_name))
}

/// Whether a cache is a file.
pub fn names_file(cc_name: &[u8]) -> (r: bool)
    ensures
        r == is_file(cc_name@),
{
    let prefix: [u8; 5] = [0x46, 0x49, 0x4c, 0x45, 0x3a];
    assert(prefix@ =~= seq![0x46u8, 0x49, 0x4c, 0x45, 0x3a]);
    octets::starts_with(cc_name, prefix.as_slice()) || !contains_byte(cc_name, 0x3a)
}

/// The type of a cache.
pub fn cache_type(cc_name: &[u8]) -> (r: Vec<u8>)
    ensures
        r@ == type_of(cc_name@),
{
    let mut i: usize = 0;
    assert(cc_name@.skip(0) =~= cc_name@);
    while i < cc_name.len()
        invariant
            i <= cc_name@.len(),
            colon(cc_name@) == i + colon(cc_name@.skip(i as int)),
        decreases cc_name@.len() - i,
    {
        assert(cc_name@.skip(i as int)[0] == cc_name@[i as int]);
        if cc_name[i] == 0x3a {
            return octets::copy(vstd::slice::slice_subrange(cc_name, 0, i));
        }
        assert(cc_name@.skip(i as int).skip(1) =~= cc_name@.skip(i + 1));
        i += 1;
    }
    octets::copy(vstd::slice::slice_subrange(cc_name, 0, i))
}

/// What is done to the cache next.
#[derive(Debug, Clone, Copy, PartialEq, Eq, Structural)]
pub enum CacheStep {
    /// Take the default cache, which is a file.
    Default,
    /// Look in the collection for the cache of the client.
    Match,
    /// Make a new cache of the same type in the collection.
    NewUnique,
    /// Initialize the cache for the client.
    Initialize,
    /// Store the credential.
    Store,
    /// Make the cache the default of the collection.
    Switch,
    /// This is the result.
    Done(i32),
}

/// The first step: a file is the default cache, and a collection is searched.
pub open spec fn first_step(cc_name: Seq<u8>) -> CacheStep {
    if is_file(cc_name) {
        CacheStep::Default
    } else {
        CacheStep::Match
    }
}

/// The step after one that gave a code. A file is always initialized again, and a
/// cache of a collection only where it is new; any failure but that of the search
/// is the result.
pub open spec fn next_step(
    cc_name: Seq<u8>,
    as_default: bool,
    step: CacheStep,
    code: i32,
) -> CacheStep {
    match step {
        CacheStep::Match => if code == KRB5_CC_NOTFOUND {
            CacheStep::NewUnique
        } else if code != 0 {
            CacheStep::Done(code)
        } else {
            CacheStep::Store
        },
        CacheStep::Done(_) => step,
        _ => if code != 0 {
            CacheStep::Done(code)
        } else {
            match step {
                CacheStep::Default => CacheStep::Initialize,
                CacheStep::NewUnique => CacheStep::Initialize,
                CacheStep::Initialize => CacheStep::Store,
                CacheStep::Store => if !is_file(cc_name) && as_default {
                    CacheStep::Switch
                } else {
                    CacheStep::Done(0)
                },
                _ => CacheStep::Done(0),
            }
        },
    }
}

/// Begin to store into a cache.
pub fn begin_store(cc_name: &[u8]) -> (r: CacheStep)
    ensures
        r == first_step(cc_name@),
{
    if names_file(cc_name) {
        CacheStep::Default
    } else {
        CacheStep::Match
    }
}

/// Go on after a step.
pub fn store_into_ccache(cc_name: &[u8], as_default: bool, step: CacheStep, code: i32) -> (r:
    CacheStep)
    ensures
        r == next_step(cc_name@, as_default, step, code),
{
    match step {
        CacheStep::Match => {
            if code == KRB5_CC_NOTFOUND {
                return CacheStep::NewUnique;
            }
            if code != 0 {
                return CacheStep::Done(code);
            }
            return CacheStep::Store;
        },
        CacheStep::Done(_) => {
            return step;
        },
        _ => {},
    }
    if code != 0 {
        return CacheStep::Done(code);
    }
    match step {
        CacheStep::Default => CacheStep::Initialize,
        CacheStep::NewUnique => CacheStep::Initialize,
        CacheStep::Initialize => CacheStep::Store,
        CacheStep::Store => {
            if !names_file(cc_name) && as_default {
                CacheStep::Switch
            } else {
                CacheStep::Done(0)
            }
        },
        _ => CacheStep::Done(0),
    }
}

/// The names that a kept credential is looked for under must not hold a NUL. The
/// errno otherwise.
pub fn check_names(ccache: Option<&[u8]>, client: Option<&[u8]>) -> (r: Result<(), i32>)
    ensures
        r == if (ccache is Some && has_nul(ccache->Some_0@)) || (client is Some && has_nul(
            client->Some_0@,
        )) {
            Err::<(), i32>(EINVAL)
        } else {
            Ok(())
        },
{
    match ccache {
        Some(n) => {
            if contains_byte(n, 0) {
                return Err(EINVAL);
            }
        },
        None => {},
    }
    match client {
        Some(n) => {
            if contains_byte(n, 0) {
                return Err(EINVAL);
            }
        },
        None => {},
    }
    Ok(())
}

/// What was kept, from the code of the search and the ticket: an empty ticket is
/// an I/O error.
pub fn retrieve_remote_cred(code: i32, ticket: Vec<u8>) -> (r: Result<Vec<u8>, i32>)
    ensures
        r == if code != 0 {
            Err::<Vec<u8>, i32>(code)
        } else if ticket@.len() == 0 {
            Err(EIO)
        } else {
            Ok(ticket)
        },
{
    if code != 0 {
        return Err(code);
    }
    if ticket.len() == 0 {
        return Err(EIO);
    }
    Ok(ticket)
}

/// Whatever the cache is, a store whose steps all succeed stores the credential
/// once and then is a success.
pub proof fn storing_succeeds(cc_name: Seq<u8>, as_default: bool)
    ensures
        ({
            let s1 = first_step(cc_name);
            let s2 = next_step(cc_name, as_default, s1, 0);
            let s3 = next_step(cc_name, as_default, s2, 0);
            let s4 = next_step(cc_name, as_default, s3, 0);
            if is_file(cc_name) {
                s2 is Initialize && s3 is Store && s4 == CacheStep::Done(0)
            } else {
                &&& s2 is Store
                &&& if as_default {
                    s3 is Switch && s4 == CacheStep::Done(0)
                } else {
                    s3 == CacheStep::Done(0)
                }
            }
        }),
{
}

} // verus!
