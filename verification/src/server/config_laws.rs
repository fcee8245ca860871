//! What a configuration means, said of its sections and of the connections it is for.

use vstd::prelude::*;

use crate::consts::{GSS_C_ACCEPT, GSS_C_BOTH, GSS_C_INITIATE};
use crate::server::config;
use crate::server::config::{
    Config, ConfigError, Document, IniSection, Outcome, Props, Service, ServiceModel,
};
use crate::text;
use crate::text_laws;

verus! {

// ---- connections ----

/// The socket of a service is the one that it sets, and the daemon's where it sets none.
pub open spec fn listens_on(svc: Service, cfg: Config, socket: Seq<char>) -> bool {
    match svc.socket {
        Some(s) => s@ == socket,
        None => cfg.socket_name@ == socket,
    }
}

/// A service that a connection is given to is a configured one, is for the uid of the
/// peer or any, listens on the socket, and is for the program of the peer where it sets
/// one.
pub proof fn connections_go_to_their_services(
    cfg: &Config,
    uid: u32,
    socket: &str,
    program: Option<&str>,
    r: Option<&Service>,
)
    requires
        call_ensures(Config::match_service, (cfg, uid, socket, program), r),
    ensures
        r matches Some(svc) ==> {
            &&& cfg.services@.contains(*svc)
            &&& svc.any_uid || svc.euid == uid
            &&& listens_on(*svc, *cfg, socket@)
            &&& svc.program matches Some(p) ==> (program matches Some(q) && q@ == p@)
        },
{
}

/// A connection that some service is for is given to a service: that one, or an earlier
/// one. A service that sets no program is for any program, known or not.
pub proof fn connections_find_their_services(
    cfg: &Config,
    uid: u32,
    socket: &str,
    program: Option<&str>,
    r: Option<&Service>,
    i: int,
)
    requires
        call_ensures(Config::match_service, (cfg, uid, socket, program), r),
        0 <= i < cfg.services@.len(),
        cfg.services@[i].any_uid || cfg.services@[i].euid == uid,
        listens_on(cfg.services@[i], *cfg, socket@),
        cfg.services@[i].program is None || (program is Some && program->Some_0@
            == cfg.services@[i].program->Some_0@),
    ensures
        r is Some,
        exists|j: int| 0 <= j <= i && #[trigger] cfg.services@[j] == *r->Some_0,
{
    let s = cfg.services@[i];
    assert(config::serves(
        s@,
        cfg.socket_name@,
        uid,
        socket@,
        config::peer_view(program),
    ));
    if let Some(svc) = r {
        let j = choose|j: int|
            config::is_match(
                cfg.services@,
                cfg.socket_name@,
                uid,
                socket@,
                config::peer_view(program),
                j,
            ) && #[trigger] cfg.services@[j] == *svc;
        assert(j <= i);
    }
}

/// The program of the peer makes no difference to services that set none.
pub proof fn program_matters_only_where_it_is_set(
    cfg: &Config,
    uid: u32,
    socket: &str,
    a: Option<&str>,
    b: Option<&str>,
    r: Option<&Service>,
    s: Option<&Service>,
)
    requires
        call_ensures(Config::match_service, (cfg, uid, socket, a), r),
        call_ensures(Config::match_service, (cfg, uid, socket, b), s),
        forall|i: int| 0 <= i < cfg.services@.len() ==> (#[trigger] cfg.services@[i]).program is None,
    ensures
        r is Some <==> s is Some,
        r is Some ==> *r->Some_0 == *s->Some_0,
{
    let d = cfg.socket_name@;
    let pa = config::peer_view(a);
    let pb = config::peer_view(b);
    assert forall|i: int| 0 <= i < cfg.services@.len() implies config::serves(
        (#[trigger] cfg.services@[i])@,
        d,
        uid,
        socket@,
        pa,
    ) == config::serves(cfg.services@[i]@, d, uid, socket@, pb) by {
        assert(cfg.services@[i]@.program is None);
    }
    if let Some(x) = r {
        let i = choose|i: int|
            config::is_match(cfg.services@, d, uid, socket@, pa, i)
                && #[trigger] cfg.services@[i] == *x;
        assert(config::serves(cfg.services@[i]@, d, uid, socket@, pb));
        if let Some(y) = s {
            let j = choose|j: int|
                config::is_match(cfg.services@, d, uid, socket@, pb, j)
                    && #[trigger] cfg.services@[j] == *y;
            assert(i == j) by {
                assert(config::serves(cfg.services@[j]@, d, uid, socket@, pa));
            }
        }
    }
    if let Some(y) = s {
        let j = choose|j: int|
            config::is_match(cfg.services@, d, uid, socket@, pb, j)
                && #[trigger] cfg.services@[j] == *y;
        assert(config::serves(cfg.services@[j]@, d, uid, socket@, pa));
    }
}

// ---- properties ----

/// Property `j` is the first with a key.
pub open spec fn gives(p: Props, key: Seq<char>, j: int) -> bool {
    &&& 0 <= j < p.len()
    &&& p[j].0 == key
    &&& forall|k: int| 0 <= k < j ==> (#[trigger] p[k]).0 != key
}

/// No property has a key.
pub open spec fn lacks(p: Props, key: Seq<char>) -> bool {
    forall|k: int| 0 <= k < p.len() ==> (#[trigger] p[k]).0 != key
}

/// The value of a key is that of the first property that has it.
pub open spec fn value(p: Props, key: Seq<char>) -> Option<Seq<char>> {
    if lacks(p, key) {
        None
    } else {
        Some(p[choose|j: int| gives(p, key, j)].1)
    }
}

/// What is looked up is the value of the first property with the key.
pub proof fn first_value_counts(p: Props, key: Seq<char>, j: int)
    ensures
        gives(p, key, j) ==> config::lookup(p, key) == Some(p[j].1),
        lacks(p, key) <==> config::lookup(p, key) is None,
        config::lookup(p, key) == value(p, key),
    decreases p.len(),
{
    lemma_lookup(p, key);
    if gives(p, key, j) && config::lookup(p, key) is Some {
        let i = choose|i: int| gives(p, key, i) && config::lookup(p, key) == Some(p[i].1);
        assert(i == j);
    }
    if !lacks(p, key) {
        let i = choose|i: int| gives(p, key, i) && config::lookup(p, key) == Some(p[i].1);
        let c = choose|j: int| gives(p, key, j);
        assert(gives(p, key, c));
        assert(i == c);
    }
}

proof fn lemma_lookup(p: Props, key: Seq<char>)
    ensures
        config::lookup(p, key) is None <==> lacks(p, key),
        config::lookup(p, key) is Some ==> exists|i: int|
            gives(p, key, i) && config::lookup(p, key) == Some(p[i].1),
    decreases p.len(),
{
    if p.len() > 0 {
        if p[0].0 == key {
            assert(gives(p, key, 0));
        } else {
            let t = p.skip(1);
            lemma_lookup(t, key);
            if config::lookup(t, key) is Some {
                let i = choose|i: int| gives(t, key, i) && config::lookup(t, key) == Some(t[i].1);
                assert forall|k: int| 0 <= k < i + 1 implies (#[trigger] p[k]).0 != key by {
                    if k > 0 {
                        assert(t[k - 1] == p[k]);
                    }
                }
                assert(t[i] == p[i + 1]);
                assert(gives(p, key, i + 1));
                assert(!lacks(p, key));
            } else {
                assert forall|k: int| 0 <= k < p.len() implies (#[trigger] p[k]).0 != key by {
                    if k > 0 {
                        assert(t[k - 1] == p[k]);
                    }
                }
            }
        }
    }
}

/// Copies of properties are the same, in order.
pub proof fn properties_are_copied(
    props: &Vec<(String, String)>,
    copy: Vec<(String, String)>,
    i: int,
)
    requires
        call_ensures(config::clone_pairs, (props,), copy),
    ensures
        copy@.len() == props@.len(),
        0 <= i < props@.len() ==> copy@[i].0@ == props@[i].0@ && copy@[i].1@ == props@[i].1@,
{
    let p = config::props_view(props@);
    let q = config::props_view(copy@);
    assert(p.len() == props@.len() && q.len() == copy@.len());
    if 0 <= i < p.len() {
        assert(p[i] == q[i]);
        assert(q[i] == (copy@[i].0@, copy@[i].1@));
    }
}

/// Every value of a key counts, in order, where all do.
pub proof fn all_values_count(p: Props, q: Props, key: Seq<char>)
    ensures
        lacks(p, key) ==> config::lookup_all(p, key).len() == 0,
        p.len() == 1 && p[0].0 == key ==> config::lookup_all(p, key) == seq![p[0].1],
        config::lookup_all(p + q, key) == config::lookup_all(p, key) + config::lookup_all(q, key),
    decreases p.len() + q.len(),
{
    if p.len() == 1 {
        assert(p.drop_last().len() == 0);
        assert(config::lookup_all(p.drop_last(), key) =~= Seq::empty());
        if p[0].0 == key {
            assert(config::lookup_all(p, key) =~= seq![p[0].1]);
        }
    }
    if q.len() > 0 {
        all_values_count(p, q.drop_last(), key);
        assert((p + q).drop_last() =~= p + q.drop_last());
        assert((p + q).last() == q.last());
        assert(config::lookup_all(p + q, key) =~= config::lookup_all(p, key)
            + config::lookup_all(q, key));
    } else {
        assert(p + q =~= p);
        assert(config::lookup_all(p, key) + Seq::<Seq<char>>::empty() =~= config::lookup_all(
            p,
            key,
        ));
        if lacks(p, key) && p.len() > 0 {
            let d = p.drop_last();
            assert forall|k: int| 0 <= k < d.len() implies (#[trigger] d[k]).0 != key by {
                assert(d[k] == p[k]);
            }
            all_values_count(d, q, key);
            assert(p[p.len() - 1].0 != key);
        }
    }
}

// ---- flags ----

/// The flags of a list come one after the other.
pub proof fn flags_come_in_order(
    value: &str,
    first: &str,
    second: &str,
    c: char,
    start: u32,
    mid: u32,
    end: u32,
    all: u32,
)
    requires
        c == ',' || c == ' ',
        value@ == first@.push(c) + second@,
        call_ensures(config::parse_flags, (first, start), mid),
        call_ensures(config::parse_flags, (second, mid), end),
        call_ensures(config::parse_flags, (value, start), all),
    ensures
        all == end,
{
    text_laws::tokens_side_by_side(first@, c, second@);
    lemma_flag_tokens(
        text::at_commas_or_spaces(first@),
        text::at_commas_or_spaces(second@),
        start,
    );
}

proof fn lemma_flag_tokens(a: Seq<Seq<char>>, b: Seq<Seq<char>>, start: u32)
    ensures
        config::flag_tokens(a + b, start) == config::flag_tokens(
            b,
            config::flag_tokens(a, start),
        ),
    decreases b.len(),
{
    if b.len() > 0 {
        lemma_flag_tokens(a, b.drop_last(), start);
        assert((a + b).drop_last() =~= a + b.drop_last());
        assert((a + b).last() == b.last());
    } else {
        assert(a + b =~= a);
    }
}

/// The bit of a flag by its name, in any case.
pub open spec fn flag_bit(name: Seq<char>, bit: u32) -> bool {
    ||| bit == 1 && text_laws::same_word(name, "DELEGATE"@)
    ||| bit == 2 && text_laws::same_word(name, "MUTUAL_AUTH"@)
    ||| bit == 4 && text_laws::same_word(name, "REPLAY_DETECT"@)
    ||| bit == 8 && text_laws::same_word(name, "SEQUENCE"@)
    ||| bit == 16 && text_laws::same_word(name, "CONFIDENTIALITY"@)
    ||| bit == 32 && text_laws::same_word(name, "INTEGRITIY"@)
    ||| bit == 64 && text_laws::same_word(name, "ANONYMOUS"@)
}

/// A single token sets the flag that it names behind a plus sign and clears the one that
/// it names behind a minus sign. Any other text changes nothing.
pub proof fn what_one_flag_does(value: &str, start: u32, r: u32, name: Seq<char>, bit: u32)
    requires
        call_ensures(config::parse_flags, (value, start), r),
        !value@.contains(',') && !value@.contains(' '),
    ensures
        value@ == seq!['+'] + name && flag_bit(name, bit) ==> r == start | bit,
        value@ == seq!['-'] + name && flag_bit(name, bit) ==> r == start & !bit,
        value@.len() == 0 || (value@[0] != '+' && value@[0] != '-') ==> r == start,
{
    text_laws::one_token(value@);
    let tokens = seq![value@];
    assert(tokens.drop_last() =~= Seq::empty());
    assert(config::flag_tokens(tokens.drop_last(), start) == start);
    assert(r == config::flag_token(value@, start));
    if flag_bit(name, bit) {
        lemma_named_flag(name, bit);
        assert((seq!['+'] + name).skip(1) =~= name);
        assert((seq!['-'] + name).skip(1) =~= name);
    }
}

proof fn lemma_named_flag(name: Seq<char>, bit: u32)
    requires
        flag_bit(name, bit),
    ensures
        config::named_flag(name) == Some(bit),
{
    reveal_strlit("DELEGATE");
    reveal_strlit("MUTUAL_AUTH");
    reveal_strlit("REPLAY_DETECT");
    reveal_strlit("SEQUENCE");
    reveal_strlit("CONFIDENTIALITY");
    reveal_strlit("INTEGRITIY");
    reveal_strlit("ANONYMOUS");
    text_laws::lower_case_ignores_case(name, "DELEGATE"@);
    text_laws::lower_case_ignores_case(name, "MUTUAL_AUTH"@);
    text_laws::lower_case_ignores_case(name, "REPLAY_DETECT"@);
    text_laws::lower_case_ignores_case(name, "SEQUENCE"@);
    text_laws::lower_case_ignores_case(name, "CONFIDENTIALITY"@);
    text_laws::lower_case_ignores_case(name, "INTEGRITIY"@);
    text_laws::lower_case_ignores_case(name, "ANONYMOUS"@);
    if text_laws::same_word(name, "SEQUENCE"@) {
        assert(text_laws::same_letter(name[0], "SEQUENCE"@[0]));
        assert(!text_laws::same_letter(name[0], "DELEGATE"@[0]));
    }
}

/// A single token with a number sets or clears the bits of the number, and one with neither
/// a name nor a number changes nothing.
pub proof fn what_a_numeric_flag_does(
    value: &str,
    start: u32,
    r: u32,
    name: &[char],
    n: Option<u32>,
)
    requires
        call_ensures(config::parse_flags, (value, start), r),
        call_ensures(config::parse_numeric_flag, (name,), n),
        !value@.contains(',') && !value@.contains(' '),
        forall|bit: u32| !flag_bit(name@, bit),
    ensures
        value@ == seq!['+'] + name@ && n is Some ==> r == start | n->Some_0,
        value@ == seq!['-'] + name@ && n is Some ==> r == start & !n->Some_0,
        (value@ == seq!['+'] + name@ || value@ == seq!['-'] + name@) && n is None ==> r == start,
{
    text_laws::one_token(value@);
    let tokens = seq![value@];
    assert(tokens.drop_last() =~= Seq::empty());
    assert(config::flag_tokens(tokens.drop_last(), start) == start);
    assert(r == config::flag_token(value@, start));
    assert((seq!['+'] + name@).skip(1) =~= name@);
    assert((seq!['-'] + name@).skip(1) =~= name@);
    lemma_no_named_flag(name@);
}

proof fn lemma_no_named_flag(name: Seq<char>)
    requires
        forall|bit: u32| !flag_bit(name, bit),
    ensures
        config::named_flag(name) is None,
{
    text_laws::lower_case_ignores_case(name, "DELEGATE"@);
    text_laws::lower_case_ignores_case(name, "MUTUAL_AUTH"@);
    text_laws::lower_case_ignores_case(name, "REPLAY_DETECT"@);
    text_laws::lower_case_ignores_case(name, "SEQUENCE"@);
    text_laws::lower_case_ignores_case(name, "CONFIDENTIALITY"@);
    text_laws::lower_case_ignores_case(name, "INTEGRITIY"@);
    text_laws::lower_case_ignores_case(name, "ANONYMOUS"@);
    assert(!flag_bit(name, 1) && !flag_bit(name, 2) && !flag_bit(name, 4) && !flag_bit(name, 8));
    assert(!flag_bit(name, 16) && !flag_bit(name, 32) && !flag_bit(name, 64));
}

/// A flag by number is decimal, or hexadecimal behind `0x`; zero and the number with every
/// bit set are none.
pub proof fn flags_by_number(s: &[char], r: Option<u32>, digits: &[char], n: Option<u32>)
    requires
        call_ensures(config::parse_numeric_flag, (s,), r),
        s@ == seq!['0', 'x'] + digits@ || s@ == seq!['0', 'X'] + digits@ ==> call_ensures(
            text::parse_u32,
            (digits, 16u32),
            n,
        ),
        s@.len() < 2 || s@[1] != 'x' && s@[1] != 'X' ==> digits@ == s@ && call_ensures(
            text::parse_u32,
            (digits, 10u32),
            n,
        ),
        s@ == seq!['0', 'x'] + digits@ || s@ == seq!['0', 'X'] + digits@ || s@.len() < 2 || s@[1]
            != 'x' && s@[1] != 'X',
    ensures
        n is None || n == Some(0u32) || n == Some(u32::MAX) ==> r is None,
        n is Some && 0 < n->Some_0 < u32::MAX ==> r == n,
{
    reveal_strlit("0x");
    reveal_strlit("0X");
    if s@ == seq!['0', 'x'] + digits@ {
        assert(s@.subrange(0, 2) =~= "0x"@);
        assert(s@.skip(2) =~= digits@);
    } else if s@ == seq!['0', 'X'] + digits@ {
        assert(s@.subrange(0, 2) =~= "0X"@);
        assert(s@.skip(2) =~= digits@);
    } else if s@.len() >= 2 {
        assert(s@.subrange(0, 2)[1] == s@[1]);
    }
}

// ---- services ----

/// The usage that a word names, in any case.
pub open spec fn word_for(v: Seq<char>, usage: i32) -> bool {
    ||| usage == GSS_C_INITIATE && text_laws::same_word(v, "initiate"@)
    ||| usage == GSS_C_ACCEPT && text_laws::same_word(v, "accept"@)
    ||| usage == GSS_C_BOTH && text_laws::same_word(v, "both"@)
}

/// A boolean is set where its key has a value that means true.
pub open spec fn switched_on(p: Props, key: Seq<char>) -> bool {
    value(p, key) matches Some(v) && text::means_true(v)
}

/// The properties of a section describe a service: each field comes from the property
/// that is meant for it.
pub open spec fn describes(
    p: Props,
    name: Seq<char>,
    users: Seq<(Seq<char>, u32)>,
    m: ServiceModel,
) -> bool {
    &&& m.name == name
    &&& value(p, "euid"@) matches Some(v) && (config::numeric_euid(v) == Some(m.euid) || (
    config::numeric_euid(v) is None && users.contains((text::trimmed(v), m.euid))))
    &&& value(p, "mechs"@) matches Some(v) && text::at_commas_or_spaces(v).contains("krb5"@)
    &&& m.any_uid == switched_on(p, "allow_any_uid"@)
    &&& m.allow_proto_trans == switched_on(p, "allow_protocol_transition"@)
    &&& m.allow_const_deleg == switched_on(p, "allow_constrained_delegation"@)
    &&& m.allow_cc_sync == switched_on(p, "allow_client_ccache_sync"@)
    &&& m.trusted == switched_on(p, "trusted"@)
    &&& m.kernel_nfsd == switched_on(p, "kernel_nfsd"@)
    &&& m.impersonate == switched_on(p, "impersonate"@)
    &&& m.socket == value(p, "socket"@)
    &&& m.selinux_context == value(p, "selinux_context"@)
    &&& m.program == value(p, "program"@)
    &&& m.krb5_principal == value(p, "krb5_principal"@)
    &&& value(p, "cred_usage"@) is None ==> m.cred_usage == GSS_C_BOTH
    &&& value(p, "cred_usage"@) matches Some(v) ==> word_for(v, m.cred_usage)
    &&& value(p, "filter_flags"@) is None ==> m.filter_flags == 1
    &&& value(p, "filter_flags"@) matches Some(v) ==> m.filter_flags == config::flag_tokens(
        text::at_commas_or_spaces(v),
        1,
    )
    &&& value(p, "enforce_flags"@) is None ==> m.enforce_flags == 0
    &&& value(p, "enforce_flags"@) matches Some(v) ==> m.enforce_flags == config::flag_tokens(
        text::at_commas_or_spaces(v),
        0,
    )
    &&& value(p, "min_lifetime"@) is None ==> m.min_lifetime == 15
    &&& m.mechs & 1 == 1
}

/// The name of a service section that is the first of its name.
pub open spec fn names_service(doc: Seq<IniSection>, i: int, name: Seq<char>) -> bool {
    &&& 0 <= i < doc.len()
    &&& doc[i].name matches Some(n) && n@ == "service/"@ + name
    &&& forall|j: int|
        0 <= j < i ==> ((#[trigger] doc[j]).name matches Some(n) ==> n@ != "service/"@ + name)
}

proof fn lemma_service_name(doc: Seq<IniSection>, i: int, name: Seq<char>)
    requires
        0 <= i < doc.len(),
    ensures
        config::service_name(config::document_view(doc), i) == Some(name) <==> names_service(
            doc,
            i,
            name,
        ),
{
    let d = config::document_view(doc);
    reveal_strlit("service/");
    if names_service(doc, i, name) {
        let n = doc[i].name->Some_0@;
        assert(n.subrange(0, 8) =~= "service/"@);
        assert(n.skip(8) =~= name);
        assert forall|j: int| 0 <= j < i implies (#[trigger] d[j]).0 != d[i].0 by {
            assert(doc[j].name matches Some(x) ==> x@ != n);
        }
    }
    if config::service_name(d, i) == Some(name) {
        let n = doc[i].name->Some_0@;
        assert(n =~= "service/"@ + name);
        assert forall|j: int| 0 <= j < i implies ((#[trigger] doc[j]).name matches Some(x) ==> x@
            != "service/"@ + name) by {
            assert(d[j].0 != d[i].0);
        }
    }
}

proof fn lemma_services_from(d: Document, users: Seq<(Seq<char>, u32)>, n: int, k: int) -> (i: int)
    requires
        config::services_of(d, users, n) is Ok,
        0 <= k < config::services_of(d, users, n)->Ok_0.len(),
    ensures
        0 <= i < n,
        config::service_name(d, i) is Some,
        config::service_model(config::service_name(d, i)->Some_0, d[i].1, users) == Ok::<
            Option<ServiceModel>,
            Seq<char>,
        >(Some(config::services_of(d, users, n)->Ok_0[k])),
    decreases n,
{
    let before = config::services_of(d, users, n - 1)->Ok_0;
    if k < before.len() {
        lemma_services_from(d, users, n - 1, k)
    } else {
        n - 1
    }
}

proof fn lemma_services_to(d: Document, users: Seq<(Seq<char>, u32)>, n: int, i: int)
    requires
        config::services_of(d, users, n) is Ok,
        0 <= i < n,
        config::service_name(d, i) is Some,
    ensures
        config::service_model(config::service_name(d, i)->Some_0, d[i].1, users) is Ok,
        config::service_model(config::service_name(d, i)->Some_0, d[i].1, users)->Ok_0 matches Some(
            m,
        ) ==> config::services_of(d, users, n)->Ok_0.contains(m),
    decreases n,
{
    let before = config::services_of(d, users, n - 1)->Ok_0;
    let all = config::services_of(d, users, n)->Ok_0;
    let model = config::service_model(config::service_name(d, i)->Some_0, d[i].1, users);
    if i < n - 1 {
        lemma_services_to(d, users, n - 1, i);
        if model->Ok_0 is Some {
            let m = model->Ok_0->Some_0;
            let k = choose|k: int| 0 <= k < before.len() && before[k] == m;
            assert(all[k] == m);
        }
    } else if model is Ok && model->Ok_0 is Some {
        assert(all.last() == model->Ok_0->Some_0);
    }
}

proof fn lemma_mentions(tokens: Seq<Seq<char>>, p: Props)
    ensures
        config::krb5_mentions(tokens, p).0 <==> tokens.contains("krb5"@),
    decreases tokens.len(),
{
    if tokens.len() > 0 {
        let d = tokens.drop_last();
        lemma_mentions(d, p);
        if tokens.last() == "krb5"@ {
            assert(tokens[tokens.len() - 1] == "krb5"@);
        }
        if d.contains("krb5"@) {
            let k = choose|k: int| 0 <= k < d.len() && d[k] == "krb5"@;
            assert(tokens[k] == "krb5"@);
        }
        if tokens.contains("krb5"@) && tokens.last() != "krb5"@ {
            let k = choose|k: int| 0 <= k < tokens.len() && tokens[k] == "krb5"@;
            assert(d[k] == "krb5"@);
        }
    }
}

proof fn lemma_user(users: Seq<(Seq<char>, u32)>, name: Seq<char>)
    ensures
        config::user_id(users, name) matches Some(id) ==> users.contains((name, id)),
        config::user_id(users, name) is None <==> forall|i: int|
            0 <= i < users.len() ==> (#[trigger] users[i]).0 != name,
    decreases users.len(),
{
    if users.len() > 0 {
        let t = users.skip(1);
        lemma_user(t, name);
        if users[0].0 == name {
            assert(users.contains(users[0]));
        } else {
            if let Some(id) = config::user_id(t, name) {
                let k = choose|k: int| 0 <= k < t.len() && t[k] == (name, id);
                assert(users[k + 1] == (name, id));
            } else {
                assert forall|i: int| 0 <= i < users.len() implies (#[trigger] users[i]).0
                    != name by {
                    if i > 0 {
                        assert(t[i - 1] == users[i]);
                    }
                }
            }
        }
    }
}

proof fn lemma_usage_word(v: Seq<char>)
    ensures
        config::usage_word(v) matches Some(u) ==> word_for(v, u),
        config::usage_word(v) is None ==> !word_for(v, GSS_C_INITIATE) && !word_for(
            v,
            GSS_C_ACCEPT,
        ) && !word_for(v, GSS_C_BOTH),
{
    text_laws::lower_case_ignores_case(v, "initiate"@);
    text_laws::lower_case_ignores_case(v, "accept"@);
    text_laws::lower_case_ignores_case(v, "both"@);
}

proof fn lemma_described(
    p: Props,
    name: Seq<char>,
    users: Seq<(Seq<char>, u32)>,
    m: ServiceModel,
)
    requires
        config::service_model(name, p, users) == Ok::<Option<ServiceModel>, Seq<char>>(Some(m)),
    ensures
        describes(p, name, users, m),
{
    first_value_counts(p, "euid"@, 0);
    first_value_counts(p, "mechs"@, 0);
    first_value_counts(p, "allow_any_uid"@, 0);
    first_value_counts(p, "allow_protocol_transition"@, 0);
    first_value_counts(p, "allow_constrained_delegation"@, 0);
    first_value_counts(p, "allow_client_ccache_sync"@, 0);
    first_value_counts(p, "trusted"@, 0);
    first_value_counts(p, "kernel_nfsd"@, 0);
    first_value_counts(p, "impersonate"@, 0);
    first_value_counts(p, "socket"@, 0);
    first_value_counts(p, "selinux_context"@, 0);
    first_value_counts(p, "program"@, 0);
    first_value_counts(p, "krb5_principal"@, 0);
    first_value_counts(p, "cred_usage"@, 0);
    first_value_counts(p, "filter_flags"@, 0);
    first_value_counts(p, "enforce_flags"@, 0);
    first_value_counts(p, "min_lifetime"@, 0);
    let euid = value(p, "euid"@)->Some_0;
    lemma_user(users, text::trimmed(euid));
    lemma_mentions(text::at_commas_or_spaces(value(p, "mechs"@)->Some_0), p);
    if value(p, "cred_usage"@) is Some {
        lemma_usage_word(value(p, "cred_usage"@)->Some_0);
    }
    assert(1u32 & 1 == 1) by (bit_vector);
}

/// Every service of a configuration comes from a section of its name, the first so
/// called, and is what the properties there say.
pub proof fn services_come_from_sections(
    doc: &Vec<IniSection>,
    socket_name: &str,
    users: &[(String, u32)],
    r: Outcome<Config>,
    k: int,
)
    requires
        call_ensures(Config::from_document, (doc, socket_name, users), r),
        r is Ok,
        0 <= k < r->Ok_0.services@.len(),
    ensures
        exists|i: int|
            names_service(doc@, i, r->Ok_0.services@[k].name@) && describes(
                config::props_view(#[trigger] doc@[i].props@),
                r->Ok_0.services@[k].name@,
                config::users_view(users@),
                r->Ok_0.services@[k]@,
            ),
{
    let d = config::document_view(doc@);
    let u = config::users_view(users@);
    let n = d.len() as int;
    let m = r->Ok_0.services@[k]@;
    assert(r->Ok_0@.services[k] == m);
    let i = lemma_services_from(d, u, n, k);
    let name = config::service_name(d, i)->Some_0;
    lemma_service_name(doc@, i, name);
    lemma_described(d[i].1, name, u, m);
    assert(d[i].1 == config::props_view(doc@[i].props@));
    assert(names_service(doc@, i, r->Ok_0.services@[k].name@));
}

/// Every service section with krb5 among its mechanisms gives a service of its name, and
/// there is no configuration where one lacks its user, its mechanisms or a known usage.
pub proof fn sections_give_services(
    doc: &Vec<IniSection>,
    socket_name: &str,
    users: &[(String, u32)],
    r: Outcome<Config>,
    i: int,
    name: Seq<char>,
)
    requires
        call_ensures(Config::from_document, (doc, socket_name, users), r),
        names_service(doc@, i, name),
    ensures
        ({
            let p = config::props_view(doc@[i].props@);
            let krb5 = value(p, "mechs"@) matches Some(v) && text::at_commas_or_spaces(
                v,
            ).contains("krb5"@);
            &&& value(p, "euid"@) is None ==> r is Err
            &&& value(p, "mechs"@) is None ==> r is Err
            &&& value(p, "euid"@) matches Some(v) ==> (config::numeric_euid(v) is None && (forall|
                j: int,
            |
                0 <= j < users@.len() ==> (#[trigger] users@[j]).0@ != text::trimmed(v)) ==> r
                is Err)
            &&& krb5 && !lacks(p, "krb5_keytab"@) ==> r is Err
            &&& krb5 && !lacks(p, "krb5_ccache"@) ==> r is Err
            &&& krb5 && !lacks(p, "krb5_client_keytab"@) ==> r is Err
            &&& krb5 && value(p, "cred_usage"@) is Some && !word_for(
                value(p, "cred_usage"@)->Some_0,
                GSS_C_INITIATE,
            ) && !word_for(value(p, "cred_usage"@)->Some_0, GSS_C_ACCEPT) && !word_for(
                value(p, "cred_usage"@)->Some_0,
                GSS_C_BOTH,
            ) ==> r is Err
            &&& krb5 && r is Ok ==> exists|k: int|
                0 <= k < r->Ok_0.services@.len() && (#[trigger] r->Ok_0.services@[k]).name@ == name
        }),
{
    let d = config::document_view(doc@);
    let u = config::users_view(users@);
    let p = config::props_view(doc@[i].props@);
    assert(d[i].1 == p);
    lemma_service_name(doc@, i, name);
    first_value_counts(p, "euid"@, 0);
    first_value_counts(p, "mechs"@, 0);
    first_value_counts(p, "cred_usage"@, 0);
    first_value_counts(p, "krb5_keytab"@, 0);
    first_value_counts(p, "krb5_ccache"@, 0);
    first_value_counts(p, "krb5_client_keytab"@, 0);
    if value(p, "mechs"@) is Some {
        let tokens = text::at_commas_or_spaces(value(p, "mechs"@)->Some_0);
        lemma_mentions(tokens, p);
        lemma_deprecated(tokens, p);
    }
    if value(p, "cred_usage"@) is Some {
        let v = value(p, "cred_usage"@)->Some_0;
        lemma_usage_word(v);
    }
    if value(p, "euid"@) is Some {
        let v = text::trimmed(value(p, "euid"@)->Some_0);
        lemma_user(u, v);
        if forall|j: int| 0 <= j < users@.len() ==> (#[trigger] users@[j]).0@ != v {
            assert forall|j: int| 0 <= j < u.len() implies (#[trigger] u[j]).0 != v by {
                assert(users@[j].0@ != v);
            }
        }
    }
    if r is Ok {
        lemma_services_to(d, u, d.len() as int, i);
        let model = config::service_model(name, p, u)->Ok_0;
        if model is Some {
            let m = model->Some_0;
            let s = config::services_of(d, u, d.len() as int)->Ok_0;
            let k = choose|k: int| 0 <= k < s.len() && s[k] == m;
            assert(r->Ok_0@.services[k] == r->Ok_0.services@[k]@);
            assert(r->Ok_0.services@[k].name@ == name);
        }
    }
}

proof fn lemma_deprecated(tokens: Seq<Seq<char>>, p: Props)
    ensures
        tokens.contains("krb5"@) && config::deprecated_option(p) is Some ==> config::krb5_mentions(
            tokens,
            p,
        ).1 is Err,
    decreases tokens.len(),
{
    if tokens.len() > 0 {
        lemma_deprecated(tokens.drop_last(), p);
        lemma_mentions(tokens.drop_last(), p);
        lemma_mentions(tokens, p);
    }
}

/// A credential store with one entry: the key stands before the first colon, and the value
/// behind it.
pub proof fn entry_of_a_store(
    p: Props,
    name: Seq<char>,
    users: Seq<(Seq<char>, u32)>,
    m: ServiceModel,
    entry: Seq<char>,
    k: Seq<char>,
    v: Seq<char>,
)
    requires
        config::service_model(name, p, users) == Ok::<Option<ServiceModel>, Seq<char>>(Some(m)),
        value(p, "mechs"@) == Some("krb5"@),
        config::lookup_all(p, "cred_store"@) == seq![entry],
        !entry.contains(','),
        text::trimmed(entry) == k.push(':') + v,
        !k.contains(':'),
    ensures
        m.krb5_store == seq![(k, v)],
{
    first_value_counts(p, "mechs"@, 0);
    reveal_strlit("krb5");
    let mechs = "krb5"@;
    assert forall|i: int| 0 <= i < mechs.len() implies mechs[i] != ',' && mechs[i] != ' ' by {}
    text_laws::one_token(mechs);
    let tokens = seq![mechs];
    assert(tokens.drop_last() =~= Seq::empty());
    let none = Ok::<Props, Seq<char>>(Seq::empty());
    assert(config::krb5_mentions(tokens.drop_last(), p) == (false, none));
    let values = seq![entry];
    assert(values.drop_last() =~= Seq::empty());
    assert(config::store_values(none, values.drop_last()) == none);
    let sep = |c: char| c == ',';
    assert forall|i: int| 0 <= i < entry.len() implies !sep(#[trigger] entry[i]) by {
        assert(entry.contains(entry[i]));
    }
    text_laws::one_piece(entry, sep);
    let pieces = seq![entry];
    assert(pieces.drop_last() =~= Seq::empty());
    assert(config::store_pieces(none, pieces.drop_last()) == none);
    text_laws::cut_at_the_first(k, ':', v);
    assert(config::store_piece(none, entry) == Ok::<Props, Seq<char>>(
        Seq::<(Seq<char>, Seq<char>)>::empty().push((k, v)),
    ));
    assert(Seq::<(Seq<char>, Seq<char>)>::empty().push((k, v)) =~= seq![(k, v)]);
}

/// The entries of a store come one after the other: those of two values, and those of two
/// lists with a comma between them.
pub proof fn entries_add_up(
    before: Result<Props, Seq<char>>,
    a: Seq<Seq<char>>,
    b: Seq<Seq<char>>,
    x: Seq<char>,
    y: Seq<char>,
)
    ensures
        config::store_values(before, a + b) == config::store_values(
            config::store_values(before, a),
            b,
        ),
        config::store_values(before, seq![x.push(',') + y]) == config::store_values(
            config::store_values(before, seq![x]),
            seq![y],
        ),
    decreases b.len(),
{
    if b.len() > 0 {
        entries_add_up(before, a, b.drop_last(), x, y);
        assert((a + b).drop_last() =~= a + b.drop_last());
        assert((a + b).last() == b.last());
    } else {
        assert(a + b =~= a);
    }
    let sep = |c: char| c == ',';
    text_laws::pieces_side_by_side(x, ',', y, sep);
    let p = text::at_commas(x);
    let q = text::at_commas(y);
    assert(text::at_commas(x.push(',') + y) == p + q);
    lemma_store_pieces(before, p, q);
    let one = seq![x.push(',') + y];
    assert(one.drop_last() =~= Seq::empty());
    assert(seq![x].drop_last() =~= Seq::empty());
    assert(seq![y].drop_last() =~= Seq::empty());
    assert(config::store_values(before, seq![x].drop_last()) == before);
    assert(config::store_values(before, one.drop_last()) == before);
    let mid = config::store_values(before, seq![x]);
    assert(config::store_values(mid, seq![y].drop_last()) == mid);
}

proof fn lemma_store_pieces(before: Result<Props, Seq<char>>, a: Seq<Seq<char>>, b: Seq<Seq<char>>)
    ensures
        config::store_pieces(before, a + b) == config::store_pieces(
            config::store_pieces(before, a),
            b,
        ),
    decreases b.len(),
{
    if b.len() > 0 {
        lemma_store_pieces(before, a, b.drop_last());
        assert((a + b).drop_last() =~= a + b.drop_last());
        assert((a + b).last() == b.last());
    } else {
        assert(a + b =~= a);
    }
}

/// A piece is a key and a value behind the entries before it; an empty one is none, and one
/// without a colon is refused.
pub proof fn what_a_piece_adds(
    entries: Props,
    piece: Seq<char>,
    t: Seq<char>,
    i: int,
    k: Seq<char>,
    v: Seq<char>,
)
    requires
        text_laws::surrounded(piece, t, i),
        t.len() > 0 ==> !text::is_space(t[0]) && !text::is_space(t.last()),
    ensures
        t == k.push(':') + v && !k.contains(':') ==> config::store_piece(
            Ok::<Props, Seq<char>>(entries),
            piece,
        ) == Ok::<Props, Seq<char>>(entries.push((k, v))),
        t.len() == 0 ==> config::store_piece(Ok::<Props, Seq<char>>(entries), piece) == Ok::<
            Props,
            Seq<char>,
        >(entries),
        t.len() > 0 && !t.contains(':') ==> config::store_piece(
            Ok::<Props, Seq<char>>(entries),
            piece,
        ) is Err,
{
    text_laws::one_way_to_trim(piece, t, i);
    text_laws::first_position(t, ':');
    if t == k.push(':') + v && !k.contains(':') {
        text_laws::cut_at_the_first(k, ':', v);
    }
}

/// Each mention of krb5 adds the entries once more, and other mechanisms add nothing.
pub proof fn what_a_mention_adds(tokens: Seq<Seq<char>>, t: Seq<char>, p: Props)
    requires
        lacks(p, "krb5_keytab"@) && lacks(p, "krb5_ccache"@) && lacks(p, "krb5_client_keytab"@),
    ensures
        t != "krb5"@ ==> config::krb5_mentions(tokens.push(t), p) == config::krb5_mentions(
            tokens,
            p,
        ),
        config::krb5_mentions(tokens, p).1 is Ok ==> config::krb5_mentions(
            tokens.push("krb5"@),
            p,
        ).1 == config::store_values(
            config::krb5_mentions(tokens, p).1,
            config::lookup_all(p, "cred_store"@),
        ),
{
    first_value_counts(p, "krb5_keytab"@, 0);
    first_value_counts(p, "krb5_ccache"@, 0);
    first_value_counts(p, "krb5_client_keytab"@, 0);
    assert(tokens.push(t).drop_last() =~= tokens);
    assert(tokens.push("krb5"@).drop_last() =~= tokens);
}

/// Numbers in the settings are read without the white space round them: a user as an
/// unsigned number of 32 bits, a lifetime as one that is not negative, of which 32 bits
/// count, and otherwise it is 15 seconds.
pub proof fn numbers_in_settings(
    v: Seq<char>,
    t: &[char],
    user: Option<u32>,
    lifetime: Option<i64>,
    other: i32,
    level: Option<i32>,
)
    requires
        t@ == text::trimmed(v),
        call_ensures(text::parse_u32, (t, 10u32), user),
        call_ensures(text::parse_i64, (t,), lifetime),
        call_ensures(text::parse_i32, (t,), level),
    ensures
        config::numeric_euid(v) == user,
        lifetime matches Some(n) && 0 <= n ==> config::lifetime_of(Some(v)) == lifetime->Some_0
            % 0x1_0000_0000,
        lifetime is None || lifetime->Some_0 < 0 ==> config::lifetime_of(Some(v)) == 15,
        config::lifetime_of(None) == 15,
        level is Some ==> config::int_or(Some(v), other) == level->Some_0,
        level is None ==> config::int_or(Some(v), other) == other,
{
    if let Some(n) = lifetime {
        assert(n >= 0 ==> n as u32 == n % 0x1_0000_0000) by (bit_vector);
    }
}

/// A lone service section with a user, krb5 among its mechanisms, no deprecated option
/// and no store, a known usage if any and an absolute program path if any, is accepted
/// and is the one service.
pub proof fn sound_section_is_accepted(
    doc: &Vec<IniSection>,
    socket_name: &str,
    users: &[(String, u32)],
    r: Outcome<Config>,
    name: Seq<char>,
    usage: i32,
)
    requires
        call_ensures(Config::from_document, (doc, socket_name, users), r),
        doc@.len() == 1,
        names_service(doc@, 0, name),
        ({
            let p = config::props_view(doc@[0].props@);
            &&& value(p, "euid"@) matches Some(v) && (config::numeric_euid(v) is Some
                || config::user_id(config::users_view(users@), text::trimmed(v)) is Some)
            &&& value(p, "mechs"@) matches Some(v) && text::at_commas_or_spaces(v).contains(
                "krb5"@,
            )
            &&& lacks(p, "krb5_keytab"@) && lacks(p, "krb5_ccache"@) && lacks(
                p,
                "krb5_client_keytab"@,
            ) && lacks(p, "cred_store"@)
            &&& value(p, "cred_usage"@) matches Some(v) ==> word_for(v, usage)
            &&& value(p, "program"@) matches Some(v) ==> v.len() > 0 && v[0] == '/' && !v.contains(
                '|',
            )
        }),
    ensures
        r is Ok,
        r->Ok_0.services@.len() == 1,
        r->Ok_0.services@[0].krb5_store@.len() == 0,
{
    let d = config::document_view(doc@);
    let u = config::users_view(users@);
    let p = config::props_view(doc@[0].props@);
    assert(d[0].1 == p);
    lemma_service_name(doc@, 0, name);
    first_value_counts(p, "euid"@, 0);
    first_value_counts(p, "mechs"@, 0);
    first_value_counts(p, "cred_usage"@, 0);
    first_value_counts(p, "program"@, 0);
    first_value_counts(p, "krb5_keytab"@, 0);
    first_value_counts(p, "krb5_ccache"@, 0);
    first_value_counts(p, "krb5_client_keytab"@, 0);
    all_values_count(p, Seq::empty(), "cred_store"@);
    let tokens = text::at_commas_or_spaces(value(p, "mechs"@)->Some_0);
    lemma_mentions(tokens, p);
    lemma_no_store(tokens, p);
    if value(p, "cred_usage"@) is Some {
        lemma_usage_word(value(p, "cred_usage"@)->Some_0);
    }
    if value(p, "program"@) is Some {
        text_laws::first_position(value(p, "program"@)->Some_0, '|');
    }
    let m = config::service_model(name, p, u);
    assert(m is Ok && m->Ok_0 is Some);
    let s = Seq::<ServiceModel>::empty().push(m->Ok_0->Some_0);
    assert(config::services_of(d, u, 0) == Ok::<Seq<ServiceModel>, Seq<char>>(Seq::empty()));
    assert(config::services_of(d, u, 1) == Ok::<Seq<ServiceModel>, Seq<char>>(s));
    assert(config::complaint(s, socket_name@, 0) is None);
    assert(config::collision(s, socket_name@, 0, 0) is None);
    assert(config::complaint(s, socket_name@, 1) is None);
    assert(r->Ok_0@.services.len() == r->Ok_0.services@.len());
    assert(r->Ok_0@.services[0] == r->Ok_0.services@[0]@);
    assert(r->Ok_0.services@[0]@.krb5_store.len() == r->Ok_0.services@[0].krb5_store@.len());
}

proof fn lemma_no_store(tokens: Seq<Seq<char>>, p: Props)
    requires
        config::deprecated_option(p) is None,
        config::lookup_all(p, "cred_store"@).len() == 0,
    ensures
        config::krb5_mentions(tokens, p).1 == Ok::<Props, Seq<char>>(Seq::empty()),
    decreases tokens.len(),
{
    if tokens.len() > 0 {
        lemma_no_store(tokens.drop_last(), p);
    }
}

// ---- the whole ----

/// The settings of the daemon come from the global section, and a configuration has the
/// socket that it was asked for and at least one service.
pub proof fn settings_of_the_daemon(
    doc: &Vec<IniSection>,
    socket_name: &str,
    users: &[(String, u32)],
    r: Outcome<Config>,
    i: int,
)
    requires
        call_ensures(Config::from_document, (doc, socket_name, users), r),
        r is Ok,
        0 <= i < doc@.len(),
        doc@[i].name is Some,
        doc@[i].name->Some_0@ == "gssproxy"@,
        forall|j: int|
            0 <= j < i ==> ((#[trigger] doc@[j]).name matches Some(n) ==> n@ != "gssproxy"@),
    ensures
        ({
            let p = config::props_view(doc@[i].props@);
            let c = r->Ok_0;
            &&& c.socket_name@ == socket_name@
            &&& c.services@.len() > 0
            &&& config::opt_view(c.proxy_user) == value(p, "run_as_user"@)
            &&& value(p, "worker threads"@) is None ==> c.num_workers == 0
            &&& value(p, "worker threads"@) matches Some(v) ==> (text::integer(
                text::trimmed(v),
            ) matches Some(n) && i32::MIN <= n <= i32::MAX ==> c.num_workers == text::integer(
                text::trimmed(v),
            )->Some_0)
            &&& value(p, "debug_level"@) is None ==> c.debug_level == (if switched_on(
                p,
                "debug"@,
            ) {
                1int
            } else {
                0
            })
            &&& value(p, "debug_level"@) matches Some(v) ==> (text::integer(
                text::trimmed(v),
            ) matches Some(n) && i32::MIN <= n <= i32::MAX ==> c.debug_level == text::integer(
                text::trimmed(v),
            )->Some_0)
        }),
{
    let d = config::document_view(doc@);
    let p = config::props_view(doc@[i].props@);
    lemma_section(d, "gssproxy"@, i);
    assert(config::global_props(d) == p);
    first_value_counts(p, "run_as_user"@, 0);
    first_value_counts(p, "worker threads"@, 0);
    first_value_counts(p, "debug_level"@, 0);
    first_value_counts(p, "debug"@, 0);
    assert(r->Ok_0@.services.len() == r->Ok_0.services@.len());
}

proof fn lemma_section(d: Document, name: Seq<char>, i: int)
    requires
        0 <= i < d.len(),
        d[i].0 == Some(name),
        forall|j: int| 0 <= j < i ==> (#[trigger] d[j]).0 != Some(name),
    ensures
        config::section(d, name) == Some(d[i].1),
    decreases d.len(),
{
    if i > 0 {
        let t = d.skip(1);
        assert(d[0].0 != Some(name));
        assert forall|j: int| 0 <= j < i - 1 implies (#[trigger] t[j]).0 != Some(name) by {
            assert(t[j] == d[j + 1]);
        }
        assert(t[i - 1] == d[i]);
        lemma_section(t, name, i - 1);
    }
}

/// No two services of a configuration can be taken for each other, and the programs they
/// set are absolute paths without bars.
pub proof fn services_are_told_apart(
    doc: &Vec<IniSection>,
    socket_name: &str,
    users: &[(String, u32)],
    r: Outcome<Config>,
    i: int,
    j: int,
    socket: Seq<char>,
)
    requires
        call_ensures(Config::from_document, (doc, socket_name, users), r),
        r is Ok,
        0 <= i < j < r->Ok_0.services@.len(),
    ensures
        ({
            let a = r->Ok_0.services@[i];
            let b = r->Ok_0.services@[j];
            &&& listens_on(a, r->Ok_0, socket) && listens_on(b, r->Ok_0, socket) && a@.program
                == b@.program && a@.selinux_context == b@.selinux_context ==> a.euid != b.euid
                && !a.any_uid
            &&& b.program matches Some(p) ==> p@.len() > 0 && p@[0] == '/' && !p@.contains('|')
            &&& a.program matches Some(p) ==> p@.len() > 0 && p@[0] == '/' && !p@.contains('|')
        }),
{
    let d = config::document_view(doc@);
    let u = config::users_view(users@);
    let c = r->Ok_0;
    assert(c@.services[i] == c.services@[i]@);
    assert(c@.services[j] == c.services@[j]@);
    config::accepted_programs_are_absolute(d, socket_name@, u, i);
    config::accepted_programs_are_absolute(d, socket_name@, u, j);
    if c.services@[i].program is Some {
        text_laws::first_position(c.services@[i].program->Some_0@, '|');
    }
    if c.services@[j].program is Some {
        text_laws::first_position(c.services@[j].program->Some_0@, '|');
    }
    if config::alike(c@.services[j], c@.services[i], socket_name@) {
        config::accepted_services_do_not_collide(d, socket_name@, u, j, i);
    }
}

/// Service `i` cannot be told apart from the earlier service `j`.
pub open spec fn clash(s: Seq<ServiceModel>, socket_name: Seq<char>, i: int, j: int) -> bool {
    &&& 0 <= j < i < s.len()
    &&& (s[i].socket == s[j].socket || (s[i].socket is None && s[j].socket == Some(socket_name))
        || (s[j].socket is None && s[i].socket == Some(socket_name)))
    &&& s[i].program == s[j].program
    &&& s[i].selinux_context == s[j].selinux_context
    &&& s[j].any_uid || s[j].euid == s[i].euid
}

/// A program that is set is not an absolute path without bars.
pub open spec fn ill_named(s: Seq<ServiceModel>, i: int) -> bool {
    &&& 0 <= i < s.len()
    &&& s[i].program matches Some(p) && !(p.len() > 0 && p[0] == '/' && !p.contains('|'))
}

/// Services that can be read and told apart, with sound programs, are accepted: there is
/// nothing else to refuse them for.
pub proof fn nothing_else_is_refused(
    doc: &Vec<IniSection>,
    socket_name: &str,
    users: &[(String, u32)],
    r: Outcome<Config>,
    s: Seq<ServiceModel>,
)
    requires
        call_ensures(Config::from_document, (doc, socket_name, users), r),
        config::services_of(
            config::document_view(doc@),
            config::users_view(users@),
            doc@.len() as int,
        ) == Ok::<Seq<ServiceModel>, Seq<char>>(s),
        s.len() > 0,
        forall|i: int| !ill_named(s, i),
        forall|i: int, j: int| !clash(s, socket_name@, i, j),
    ensures
        r is Ok,
        r->Ok_0.services@.len() == s.len(),
{
    lemma_no_complaint(s, socket_name@, s.len() as int);
    assert(config::document_view(doc@).len() == doc@.len());
    assert(r->Ok_0@.services.len() == r->Ok_0.services@.len());
}

proof fn lemma_no_clash(s: Seq<ServiceModel>, d: Seq<char>, i: int, n: int)
    requires
        0 <= n <= i < s.len(),
        forall|i: int, j: int| !clash(s, d, i, j),
    ensures
        config::collision(s, d, i, n) is None,
    decreases n,
{
    if n > 0 {
        lemma_no_clash(s, d, i, n - 1);
        assert(!clash(s, d, i, n - 1));
    }
}

proof fn lemma_no_complaint(s: Seq<ServiceModel>, d: Seq<char>, n: int)
    requires
        0 <= n <= s.len(),
        forall|i: int| !ill_named(s, i),
        forall|i: int, j: int| !clash(s, d, i, j),
    ensures
        config::complaint(s, d, n) is None,
    decreases n,
{
    if n > 0 {
        lemma_no_complaint(s, d, n - 1);
        lemma_no_clash(s, d, n - 1, n - 1);
        assert(!ill_named(s, n - 1));
        if s[n - 1].program is Some {
            text_laws::first_position(s[n - 1].program->Some_0, '|');
        }
    }
}

/// A text that is read as a document configures what the document does, names the users
/// that it does, and is an error with the text of the reader where it is not read.
pub proof fn texts_configure_what_their_documents_do(
    content: &str,
    doc: &Vec<IniSection>,
    socket_name: &str,
    users: &[(String, u32)],
    r: Outcome<Config>,
    s: Outcome<Config>,
    names: Outcome<Vec<String>>,
    in_doc: Vec<String>,
)
    requires
        call_ensures(Config::parse_str, (content, socket_name, users), r),
        call_ensures(Config::user_names, (content,), names),
        call_ensures(Config::from_document, (doc, socket_name, users), s),
        call_ensures(Config::names_in_document, (doc,), in_doc),
    ensures
        config::ini_document(content@) matches Ok(d) && d == config::document_view(doc@) ==> {
            &&& r is Ok <==> s is Ok
            &&& r is Ok ==> r->Ok_0@ == s->Ok_0@
            &&& r is Err ==> r->Err_0.text() == s->Err_0.text()
            &&& names is Ok
            &&& config::strings_view(names->Ok_0@) == config::strings_view(in_doc@)
        },
        config::ini_document(content@) matches Err(m) ==> {
            &&& r matches Err(ConfigError::Parse(e)) && e@ == m
            &&& names matches Err(ConfigError::Parse(e)) && e@ == m
        },
{
}

/// The users that a document names are those of `euid` values that are no numbers, in
/// service sections.
pub proof fn users_that_are_named(
    doc: &Vec<IniSection>,
    r: Vec<String>,
    k: int,
    i: int,
    name: Seq<char>,
)
    requires
        call_ensures(Config::names_in_document, (doc,), r),
    ensures
        0 <= k < r@.len() ==> exists|j: int|
            0 <= j < doc@.len() && value(
                config::props_view((#[trigger] doc@[j]).props@),
                "euid"@,
            ) is Some && r@[k]@ == text::trimmed(
                value(config::props_view(doc@[j].props@), "euid"@)->Some_0,
            ),
        names_service(doc@, i, name) ==> (value(
            config::props_view(doc@[i].props@),
            "euid"@,
        ) matches Some(v) ==> (config::numeric_euid(v) is None ==> config::strings_view(
            r@,
        ).contains(text::trimmed(v)))),
{
    let d = config::document_view(doc@);
    let n = d.len() as int;
    if 0 <= k < r@.len() {
        let j = lemma_names_from(d, n, k);
        first_value_counts(d[j].1, "euid"@, 0);
        assert(d[j].1 == config::props_view(doc@[j].props@));
        assert(config::strings_view(r@)[k] == r@[k]@);
    }
    if names_service(doc@, i, name) {
        lemma_service_name(doc@, i, name);
        first_value_counts(d[i].1, "euid"@, 0);
        assert(d[i].1 == config::props_view(doc@[i].props@));
        lemma_names_to(d, n, i);
    }
}

proof fn lemma_names_from(d: Document, n: int, k: int) -> (j: int)
    requires
        0 <= k < config::names_of(d, n).len(),
    ensures
        0 <= j < n,
        config::lookup(d[j].1, "euid"@) is Some,
        config::names_of(d, n)[k] == text::trimmed(config::lookup(d[j].1, "euid"@)->Some_0),
    decreases n,
{
    if k < config::names_of(d, n - 1).len() {
        lemma_names_from(d, n - 1, k)
    } else {
        n - 1
    }
}

proof fn lemma_names_to(d: Document, n: int, i: int)
    requires
        0 <= i < n,
        config::service_name(d, i) is Some,
    ensures
        config::lookup(d[i].1, "euid"@) matches Some(v) ==> (config::numeric_euid(v) is None
            ==> config::names_of(d, n).contains(text::trimmed(v))),
    decreases n,
{
    let all = config::names_of(d, n);
    let before = config::names_of(d, n - 1);
    if let Some(v) = config::lookup(d[i].1, "euid"@) {
        let t = text::trimmed(v);
        if config::numeric_euid(v) is None {
            if i < n - 1 {
                lemma_names_to(d, n - 1, i);
                let k = choose|k: int| 0 <= k < before.len() && before[k] == t;
                assert(all[k] == t);
            } else {
                assert(all[all.len() - 1] == t);
            }
        }
    }
}

/// A configuration without services listens on the socket that is given, and is for
/// nobody.
pub proof fn empty_configuration(socket_name: &str, r: Config)
    requires
        call_ensures(Config::empty, (socket_name,), r),
    ensures
        r.socket_name@ == socket_name@,
        r.services@.len() == 0,
        r.num_workers == 0 && r.debug_level == 0 && r.proxy_user is None,
{
    assert(r@.services.len() == r.services@.len());
    assert(r@.proxy_user is None);
}

/// The description of an error says what it is before it says why.
pub proof fn errors_are_described(e: &ConfigError, r: String)
    requires
        call_ensures(ConfigError::message, (e,), r),
    ensures
        *e matches ConfigError::Parse(m) ==> r@ == "config parse error: "@ + m@,
        *e matches ConfigError::Invalid(m) ==> r@ == "invalid config: "@ + m@,
{
}

} // verus!
