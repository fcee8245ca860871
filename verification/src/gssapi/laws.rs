//! What is made of the answers of the mechanism, of credential caches and of sealing keys.

use vstd::prelude::*;

use crate::consts::{EINVAL, EIO, ENOSPC, GSS_S_NAME_NOT_MN, GSS_S_UNAVAILABLE};
use crate::gssapi::ccache;
use crate::gssapi::ccache::CacheStep;
use crate::gssapi::seal;
use crate::gssapi::seal::{CredHandle, SealError, SealStep};
use crate::gssapi::wrap;
use crate::gssapi::wrap::{GssError, StatusMessages};
use crate::text;

verus! {

// ---- statuses ----

/// A major status is an error where its routine or calling part is set; the supplementary
/// bits are none. An error keeps its codes and its messages.
pub proof fn what_an_error_is(
    major: u32,
    minor: u32,
    messages: Vec<String>,
    r: bool,
    c: Result<(), GssError>,
)
    requires
        call_ensures(wrap::is_error, (major,), r),
        call_ensures(wrap::check, (major, minor, messages), c),
    ensures
        major == 0 ==> !r,
        major < 0x1_0000 ==> !r,
        major >= 0x1_0000 ==> r,
        c is Ok <==> !r,
        c matches Err(e) ==> e.major == major && e.minor == minor && e.messages == messages,
{
}

/// Messages are put one behind the other, with commas.
pub proof fn messages_are_joined(
    parts: &[String],
    r: String,
    more: &[String],
    m: String,
    last: String,
)
    requires
        call_ensures(wrap::join, (parts,), r),
        more@ == parts@.push(last),
        call_ensures(wrap::join, (more,), m),
    ensures
        parts@.len() == 0 ==> r@.len() == 0 && m@ == last@,
        parts@.len() > 0 ==> m@ == r@ + ", "@ + last@,
{
    let a = wrap::texts(parts@);
    let b = wrap::texts(more@);
    assert(b.len() == more@.len());
    assert(b.drop_last() =~= a);
    assert(b.last() == last@);
    if parts@.len() == 0 {
        assert(a.len() == 0);
        assert(b[0] == last@);
    }
}

/// Eight digits in base 16, and so on for as many as there are.
proof fn lemma_hex(v: nat, n: nat)
    ensures
        wrap::hex(v, n).len() == n,
    decreases n,
{
    if n > 0 {
        lemma_hex(v / 16, (n - 1) as nat);
    }
}

/// The last hexadecimal digit is that of the remainder, and the others are those of the
/// quotient.
pub proof fn hexadecimal_digits(v: nat, n: nat)
    requires
        n > 0,
    ensures
        wrap::hex(v, n).len() == n,
        wrap::hex(v, n).drop_last() == wrap::hex(v / 16, (n - 1) as nat),
        v % 16 < 10 ==> wrap::hex(v, n).last() as int == '0' as int + v % 16,
        v % 16 >= 10 ==> wrap::hex(v, n).last() as int == 'a' as int + v % 16 - 10,
{
    lemma_hex(v, n);
    lemma_hex(v / 16, (n - 1) as nat);
    assert(wrap::hex(v, n).drop_last() =~= wrap::hex(v / 16, (n - 1) as nat));
}

/// The description of an error has its major status in hexadecimal, its minor status in
/// decimal, and its messages.
pub proof fn errors_are_described(e: &GssError, r: String)
    requires
        call_ensures(GssError::message, (e,), r),
    ensures
        r@ == "gssapi error (major=0x"@ + wrap::hex(e.major as nat, 8) + " minor="@
            + text::decimal(e.minor as nat) + "): "@ + wrap::joined(wrap::texts(e.messages@)),
{
}

/// Messages are taken while there are more, and a failure to get one ends it.
pub proof fn messages_are_taken(
    s: &mut StatusMessages,
    major: u32,
    message: String,
    context: u32,
    r: bool,
)
    requires
        call_ensures(StatusMessages::take, (s, major, message, context), r),
    ensures
        major >= 0x1_0000 ==> !r && final(s).messages == old(s).messages,
        major < 0x1_0000 ==> final(s).messages@ == old(s).messages@.push(message) && (r <==> context
            != 0),
{
}

/// A name that is no mechanism name has no exported form, and one that the mechanism cannot
/// export with attributes no composite form; any other failure is an error.
pub proof fn exported_forms(
    major: u32,
    minor: u32,
    messages: Vec<String>,
    token: Vec<u8>,
    r: Result<Option<Vec<u8>>, GssError>,
    c: Result<Option<Vec<u8>>, GssError>,
)
    requires
        call_ensures(wrap::exported, (major, minor, messages, token), r),
        call_ensures(wrap::exported_composite, (major, minor, messages, token), c),
    ensures
        major < 0x1_0000 ==> r is Ok && r->Ok_0 == Some(token) && c is Ok && c->Ok_0 == Some(token),
        major == GSS_S_NAME_NOT_MN ==> r is Ok && r->Ok_0 is None && c is Ok && c->Ok_0 is None,
        major == GSS_S_UNAVAILABLE ==> r is Err && c is Ok && c->Ok_0 is None,
        major >= 0x1_0000 && major != GSS_S_NAME_NOT_MN && major != GSS_S_UNAVAILABLE ==> r is Err
            && c is Err && r->Err_0.major == major && c->Err_0.major == major && r->Err_0.minor
            == minor && c->Err_0.minor == minor,
{
}

// ---- caches ----

/// A credential is kept where it is not too large and its client is a C string.
pub proof fn what_can_be_stored(client: &[u8], ticket: &[u8], r: Result<(), i32>)
    requires
        call_ensures(ccache::store_remote_cred, (client, ticket), r),
    ensures
        ticket@.len() > 524_288 ==> r == Err::<(), i32>(ENOSPC),
        ticket@.len() <= 524_288 && client@.contains(0u8) ==> r == Err::<(), i32>(EINVAL),
        ticket@.len() <= 524_288 && !client@.contains(0u8) ==> r is Ok,
{
}

/// A cache is looked up where the names are C strings, and gives what it holds, which must
/// be something.
pub proof fn what_can_be_retrieved(
    cache: Option<&[u8]>,
    client: Option<&[u8]>,
    c: Result<(), i32>,
    code: i32,
    ticket: Vec<u8>,
    r: Result<Vec<u8>, i32>,
)
    requires
        call_ensures(ccache::check_names, (cache, client), c),
        call_ensures(ccache::retrieve_remote_cred, (code, ticket), r),
    ensures
        cache is Some && cache->Some_0@.contains(0u8) ==> c == Err::<(), i32>(EINVAL),
        client is Some && client->Some_0@.contains(0u8) ==> c == Err::<(), i32>(EINVAL),
        (cache is None || !cache->Some_0@.contains(0u8)) && (client is None
            || !client->Some_0@.contains(0u8)) ==> c is Ok,
        code != 0 ==> r == Err::<Vec<u8>, i32>(code),
        code == 0 && ticket@.len() == 0 ==> r == Err::<Vec<u8>, i32>(EIO),
        code == 0 && ticket@.len() > 0 ==> r == Ok::<Vec<u8>, i32>(ticket),
{
}

/// A cache without a type is a file; otherwise its type stands before the first colon.
pub proof fn types_of_caches(name: &[u8], file: bool, kind: Vec<u8>, rest: Seq<u8>)
    requires
        call_ensures(ccache::names_file, (name,), file),
        call_ensures(ccache::cache_type, (name,), kind),
    ensures
        !name@.contains(0x3au8) ==> file && kind@ == name@,
        name@ == seq![0x46u8, 0x49, 0x4c, 0x45, 0x3a] + rest ==> file,
        file ==> !name@.contains(0x3au8) || name@ == seq![0x46u8, 0x49, 0x4c, 0x45, 0x3a]
            + name@.skip(5),
        name@.contains(0x3au8) ==> kind@.len() < name@.len() && name@[kind@.len() as int] == 0x3a
            && name@.take(kind@.len() as int) == kind@,
        !kind@.contains(0x3au8),
{
    lemma_colon(name@);
    let p = seq![0x46u8, 0x49, 0x4c, 0x45, 0x3a];
    if name@ == p + rest {
        assert(name@.subrange(0, 5) =~= p);
    }
    if p.is_prefix_of(name@) {
        assert(name@ =~= p + name@.skip(5));
    }
    if !name@.contains(0x3au8) {
        assert(kind@ =~= name@);
    }
}

proof fn lemma_colon(s: Seq<u8>)
    ensures
        0 <= ccache::colon(s) <= s.len(),
        s.contains(0x3au8) ==> ccache::colon(s) < s.len() && s[ccache::colon(s)] == 0x3a,
        !s.contains(0x3au8) ==> ccache::colon(s) == s.len(),
        !s.take(ccache::colon(s)).contains(0x3au8),
    decreases s.len(),
{
    if s.len() > 0 && s[0] != 0x3a {
        let t = s.skip(1);
        lemma_colon(t);
        let c = ccache::colon(t);
        if s.contains(0x3au8) {
            let k = choose|k: int| 0 <= k < s.len() && s[k] == 0x3a;
            assert(t[k - 1] == 0x3a);
            assert(t.contains(0x3au8));
            assert(s[c + 1] == t[c]);
        } else if t.contains(0x3au8) {
            let k = choose|k: int| 0 <= k < t.len() && t[k] == 0x3a;
            assert(s[k + 1] == 0x3a);
        }
        let head = s.take(c + 1);
        assert forall|k: int| 0 <= k < head.len() implies head[k] != 0x3a by {
            if k > 0 {
                assert(t.take(c)[k - 1] == s[k]);
                assert(t.take(c).contains(t.take(c)[k - 1]));
            }
        }
    } else if s.len() > 0 {
        assert(s.contains(s[0]));
    }
}

/// A file is the one cache there is; in a collection the cache of the client is looked for.
pub proof fn storing_begins(name: &[u8], r: CacheStep, file: bool)
    requires
        call_ensures(ccache::begin_store, (name,), r),
        call_ensures(ccache::names_file, (name,), file),
    ensures
        file ==> r is Default,
        !file ==> r is Match,
{
}

/// A new cache is initialized before it is stored into; a cache that is there is not. In a
/// collection the cache becomes the default where that is asked for. A failure ends it, but
/// for a cache that is not found, which is made.
pub proof fn steps_of_storing(
    name: &[u8],
    as_default: bool,
    step: CacheStep,
    code: i32,
    r: CacheStep,
    file: bool,
)
    requires
        call_ensures(ccache::store_into_ccache, (name, as_default, step, code), r),
        call_ensures(ccache::names_file, (name,), file),
    ensures
        step is Match && code == -1_765_328_243 ==> r is NewUnique,
        step is Match && code == 0 ==> r is Store,
        step is Match && code != 0 && code != -1_765_328_243 ==> r == CacheStep::Done(code),
        step is Default && code == 0 ==> r is Initialize,
        step is NewUnique && code == 0 ==> r is Initialize,
        step is Initialize && code == 0 ==> r is Store,
        step is Store && code == 0 && !file && as_default ==> r is Switch,
        step is Store && code == 0 && (file || !as_default) ==> r == CacheStep::Done(0),
        step is Switch && code == 0 ==> r == CacheStep::Done(0),
        code != 0 && !(step is Match) && !(step is Done) ==> r == CacheStep::Done(code),
{
}

// ---- sealing keys ----

/// The key is that of the keytab, and otherwise the ephemeral one.
pub proof fn keys_for_sealing(
    keytab: Option<(i32, Vec<u8>)>,
    ephemeral: Option<(i32, Vec<u8>)>,
    r: Result<CredHandle, SealError>,
)
    requires
        call_ensures(CredHandle::new, (keytab, ephemeral), r),
    ensures
        keytab is Some ==> r is Ok && r->Ok_0.enctype == keytab->Some_0.0 && r->Ok_0.key
            == keytab->Some_0.1,
        keytab is None && ephemeral is Some ==> r is Ok && r->Ok_0.enctype == ephemeral->Some_0.0
            && r->Ok_0.key == ephemeral->Some_0.1,
        keytab is None && ephemeral is None ==> r is Err,
{
}

/// The first entry of a keytab with a permitted type counts.
pub proof fn keys_from_a_keytab(
    entries: &[(i32, Vec<u8>)],
    permitted: &[i32],
    r: Option<(i32, Vec<u8>)>,
    i: int,
)
    requires
        call_ensures(seal::derive_from_keytab, (entries, permitted), r),
    ensures
        0 <= i < entries@.len() && permitted@.contains(entries@[i].0) && (forall|k: int|
            0 <= k < i ==> !permitted@.contains((#[trigger] entries@[k]).0)) ==> r is Some
            && r->Some_0.0 == entries@[i].0 && r->Some_0.1@ == entries@[i].1@,
        (forall|k: int|
            0 <= k < entries@.len() ==> !permitted@.contains((#[trigger] entries@[k]).0)) ==> r
            is None,
        r is Some ==> permitted@.contains(r->Some_0.0),
{
    if let Some(k) = r {
        let j = choose|j: int|
            {
                &&& 0 <= j < entries@.len()
                &&& (#[trigger] entries@[j]).0 == k.0 && entries@[j].1@ == k.1@
                &&& seal::is_permitted(permitted@, k.0)
                &&& forall|l: int|
                    0 <= l < j ==> !seal::is_permitted(permitted@, (#[trigger] entries@[l]).0)
            };
        if 0 <= i < entries@.len() && permitted@.contains(entries@[i].0) && (forall|l: int|
            0 <= l < i ==> !permitted@.contains((#[trigger] entries@[l]).0)) {
            if i < j {
                assert(!seal::is_permitted(permitted@, entries@[i].0));
            }
            if j < i {
                assert(!permitted@.contains(entries@[j].0));
            }
        }
    } else if 0 <= i < entries@.len() {
        assert(seal::none_permitted(entries@, permitted@));
        assert(!seal::is_permitted(permitted@, entries@[i].0));
    }
    if forall|l: int| 0 <= l < entries@.len() ==> !permitted@.contains((#[trigger] entries@[l]).0) {
        assert(seal::none_permitted(entries@, permitted@)) by {
            assert forall|l: int| 0 <= l < entries@.len() implies !seal::is_permitted(
                permitted@,
                (#[trigger] entries@[l]).0,
            ) by {
                assert(!permitted@.contains(entries@[l].0));
            }
        }
    }
}

/// Three lengths tell whether the cipher pads: they are asked for first. A cipher that does
/// not pad seals as it is; one that does gets at least eight bytes of padding.
pub proof fn steps_of_sealing(known: &[usize], r: SealStep)
    requires
        call_ensures(seal::seal, (known,), r),
    ensures
        known@.len() == 0 ==> r == SealStep::Probe(0),
        known@.len() == 1 ==> r == SealStep::Probe(1),
        known@.len() == 2 ==> r == SealStep::Probe(2),
        known@.len() == 3 && known@[0] != known@[1] && known@[1] != known@[2] ==> r
            == SealStep::Length(0),
        known@.len() == 3 && (known@[0] == known@[1] || known@[1] == known@[2]) ==> r
            == SealStep::Length(8),
        known@.len() == 4 && known@[0] != known@[1] && known@[1] != known@[2] ==> r
            == (SealStep::Encrypt { pad: 0, cipherlen: known@[3] }),
        known@.len() == 4 && (known@[0] == known@[1] || known@[1] == known@[2]) ==> r
            == SealStep::Length(9),
        r is Encrypt ==> r->cipherlen == known@[3],
        r is Encrypt && r->pad != 0 ==> 8 <= r->pad <= 22,
{
    seal::sealing_ends(known@);
}

/// The padding is as long as the cipher text does not grow by it.
pub proof fn length_of_the_padding(known: &[usize], r: SealStep, k: int)
    requires
        call_ensures(seal::seal, (known,), r),
        known@.len() >= 4,
        known@[0] == known@[1] || known@[1] == known@[2],
        4 <= k < known@.len(),
        k < 19,
        known@[k] > known@[3],
        forall|j: int| 4 <= j < k ==> (#[trigger] known@[j]) <= known@[3],
    ensures
        r == (SealStep::Encrypt { pad: (8 + k - 4) as u8, cipherlen: known@[3] }),
{
    let end = if known@.len() < 19 {
        known@.len() as int
    } else {
        19
    };
    lemma_first(known@, known@[3], 4, k, end);
}

proof fn lemma_first(s: Seq<usize>, bound: usize, i: int, k: int, end: int)
    requires
        i <= k < end,
        s[k] > bound,
        forall|j: int| i <= j < k ==> (#[trigger] s[j]) <= bound,
    ensures
        seal::first_above(s, bound, i, end) == Some(k),
    decreases k - i,
{
    if i < k {
        assert(s[i] <= bound);
        lemma_first(s, bound, i + 1, k, end);
    }
}

/// Padding is put behind the text, each byte with its length, and is taken off again where
/// the cipher pads.
pub proof fn padding_goes_on_and_off(
    plain: &[u8],
    pad: u8,
    r: Vec<u8>,
    known: &[usize],
    data: Vec<u8>,
    u: Vec<u8>,
)
    requires
        call_ensures(seal::put_padding, (plain, pad), r),
        known@.len() >= 3,
        call_ensures(seal::unseal, (known, data), u),
    ensures
        r@.len() == plain@.len() + pad,
        r@.take(plain@.len() as int) == plain@,
        forall|k: int| plain@.len() <= k < r@.len() ==> #[trigger] r@[k] == pad,
        known@[0] != known@[1] && known@[1] != known@[2] ==> u@ == data@,
        (known@[0] == known@[1] || known@[1] == known@[2]) && pad >= 8 && data@ == r@ ==> u@
            == plain@,
{
    assert(r@.take(plain@.len() as int) =~= plain@);
    if pad >= 8 {
        seal::stripping_undoes_padding(plain@, pad);
    }
}

/// A failure of the library has its code, and says what failed.
pub proof fn failures_to_seal(code: i32, what: &str, r: Result<(), SealError>, e: &SealError, m: String)
    requires
        call_ensures(seal::check, (code, what), r),
        call_ensures(SealError::message, (e,), m),
    ensures
        r is Ok <==> code == 0,
        r is Err ==> r->Err_0.code == code && r->Err_0.what@ == what@,
        m@ == e.what@ + " failed (krb5 error "@ + text::signed_decimal(e.code as int) + ")"@,
{
}

} // verus!
