//! `gssproxy.conf`: its meaning, and which service a connection belongs to.
//!
//! The INI syntax is the `rust-ini` crate's; [`load_ini`] turns a text into the
//! sections and properties that the rest of this module reads. Users named in
//! the configuration are looked up by the caller, who hands the answers in:
//! [`Config::user_names`] says which.

use vstd::prelude::*;

use crate::consts::{GSS_C_ACCEPT, GSS_C_BOTH, GSS_C_INITIATE};
use crate::text;

verus! {

/// Compiled-in default socket path.
pub const GP_SOCKET_NAME: &'static str = "/var/lib/gssproxy/default.sock";

/// Mechanism bit for krb5.
pub const GP_CRED_KRB5: u32 = 0x01;

/// Delegation is filtered by default.
pub const DEFAULT_FILTERED_FLAGS: u32 = 1;

pub const DEFAULT_ENFORCED_FLAGS: u32 = 0;

pub const DEFAULT_MIN_LIFETIME: u32 = 15;

/// Error of a configuration.
#[derive(Debug, PartialEq, Eq)]
pub enum ConfigError {
    Parse(String),
    Invalid(String),
}

impl ConfigError {
    /// The text of [`ConfigError::message`].
    pub open spec fn text(&self) -> Seq<char> {
        match self {
            ConfigError::Parse(m) => "config parse error: "@ + m@,
            ConfigError::Invalid(m) => "invalid config: "@ + m@,
        }
    }

    /// A description of the error.
    pub fn message(&self) -> (r: String)
        ensures
            r@ == self.text(),
    {
        match self {
            ConfigError::Parse(m) => {
                let mut s = "config parse error: ".to_owned();
                s.push_str(m.as_str());
                s
            },
            ConfigError::Invalid(m) => {
                let mut s = "invalid config: ".to_owned();
                s.push_str(m.as_str());
                s
            },
        }
    }
}

/// What a configuration comes to: a value, or the text of an error.
pub type Outcome<T> = Result<T, ConfigError>;

// ---- INI documents ----

/// A section of an INI document: its name, and its properties in order.
#[derive(Debug)]
pub struct IniSection {
    pub name: Option<String>,
    pub props: Vec<(String, String)>,
}

/// Properties: keys and values.
pub type Props = Seq<(Seq<char>, Seq<char>)>;

/// An INI document: the sections in order, with their names. A name may occur
/// more than once.
pub type Document = Seq<(Option<Seq<char>>, Props)>;

pub open spec fn opt_view(s: Option<String>) -> Option<Seq<char>> {
    match s {
        Some(s) => Some(s@),
        None => None,
    }
}

pub open spec fn props_view(p: Seq<(String, String)>) -> Props {
    Seq::new(p.len(), |i: int| (p[i].0@, p[i].1@))
}

pub open spec fn document_view(d: Seq<IniSection>) -> Document {
    Seq::new(d.len(), |i: int| (opt_view(d[i].name), props_view(d[i].props@)))
}

/// What `rust-ini` reads a text as, or the text of its error.
pub uninterp spec fn ini_document(content: Seq<char>) -> Result<
    Seq<(Option<Seq<char>>, Seq<(Seq<char>, Seq<char>)>)>,
    Seq<char>,
>;

/// `ini::Ini::load_from_str`, with the sections that `Ini::iter` walks and the
/// properties that `Properties::iter` walks, in document order. What a text
/// reads as, or the error it gives, depends on the text alone; that is all that
/// is claimed of it.
#[verifier::external_body]
fn load_ini(content: &str) -> (r: Result<Vec<IniSection>, String>)
    ensures
        match r {
            Ok(d) => ini_document(content@) == Ok::<
                Seq<(Option<Seq<char>>, Seq<(Seq<char>, Seq<char>)>)>,
                Seq<char>,
            >(document_view(d@)),
            Err(e) => ini_document(content@) == Err::<
                Seq<(Option<Seq<char>>, Seq<(Seq<char>, Seq<char>)>)>,
                Seq<char>,
            >(e@),
        },
{
    let doc = ini::Ini::load_from_str(content).map_err(|e| e.to_string())?;
    Ok(doc.iter().map(|(name, props)| IniSection {
        name: name.map(str::to_owned),
        props: props.iter().map(|(k, v)| (k.to_owned(), v.to_owned())).collect(),
    }).collect())
}

/// The first value of a key.
pub open spec fn lookup(p: Props, key: Seq<char>) -> Option<Seq<char>>
    decreases p.len(),
{
    if p.len() == 0 {
        None
    } else if p[0].0 == key {
        Some(p[0].1)
    } else {
        lookup(p.skip(1), key)
    }
}

/// All values of a key, in order.
pub open spec fn lookup_all(p: Props, key: Seq<char>) -> Seq<Seq<char>>
    decreases p.len(),
{
    if p.len() == 0 {
        Seq::empty()
    } else {
        let before = lookup_all(p.drop_last(), key);
        if p.last().0 == key {
            before.push(p.last().1)
        } else {
            before
        }
    }
}

/// The properties of the first section with a name.
pub open spec fn section(d: Document, name: Seq<char>) -> Option<Props>
    decreases d.len(),
{
    if d.len() == 0 {
        None
    } else if d[0].0 == Some(name) {
        Some(d[0].1)
    } else {
        section(d.skip(1), name)
    }
}

/// No earlier section has the name of section `i`.
pub open spec fn is_first(d: Document, i: int) -> bool {
    forall|j: int| 0 <= j < i ==> (#[trigger] d[j]).0 != d[i].0
}

/// The first value of a key.
pub(crate) fn get<'a>(props: &'a Vec<(String, String)>, key: &str) -> (r: Option<&'a String>)
    ensures
        match lookup(props_view(props@), key@) {
            Some(v) => r matches Some(s) && s@ == v,
            None => r is None,
        },
{
    let ghost p = props_view(props@);
    let mut i: usize = 0;
    assert(p.skip(0) =~= p);
    while i < props.len()
        invariant
            i <= props@.len(),
            p == props_view(props@),
            lookup(p, key@) == lookup(p.skip(i as int), key@),
        decreases props@.len() - i,
    {
        assert(p.skip(i as int)[0] == p[i as int]);
        if text::same(props[i].0.as_str(), key) {
            return Some(&props[i].1);
        }
        assert(p.skip(i as int).skip(1) =~= p.skip(i + 1));
        i += 1;
    }
    None
}

pub open spec fn strings_view(v: Seq<String>) -> Seq<Seq<char>> {
    Seq::new(v.len(), |i: int| v[i]@)
}

/// All values of a key, in order.
fn get_all(props: &Vec<(String, String)>, key: &str) -> (r: Vec<String>)
    ensures
        strings_view(r@) == lookup_all(props_view(props@), key@),
{
    let ghost p = props_view(props@);
    let mut out: Vec<String> = Vec::new();
    let mut i: usize = 0;
    assert(strings_view(out@) =~= lookup_all(p.take(0), key@));
    while i < props.len()
        invariant
            i <= props@.len(),
            p == props_view(props@),
            strings_view(out@) == lookup_all(p.take(i as int), key@),
        decreases props@.len() - i,
    {
        assert(p.take(i + 1).drop_last() =~= p.take(i as int));
        assert(p.take(i + 1).last() == p[i as int]);
        if text::same(props[i].0.as_str(), key) {
            let ghost o = out@;
            let v = props[i].1.clone();
            out.push(v);
            assert(strings_view(out@) =~= strings_view(o).push(v@));
        }
        i += 1;
    }
    assert(p.take(i as int) =~= p);
    out
}

// ---- services ----

/// A single `[service/...]` section.
#[derive(Debug, PartialEq, Eq)]
pub struct Service {
    pub name: String,
    pub euid: u32,
    pub any_uid: bool,
    pub allow_proto_trans: bool,
    pub allow_const_deleg: bool,
    pub allow_cc_sync: bool,
    pub trusted: bool,
    pub kernel_nfsd: bool,
    pub impersonate: bool,
    pub socket: Option<String>,
    pub selinux_context: Option<String>,
    pub cred_usage: i32,
    pub filter_flags: u32,
    pub enforce_flags: u32,
    pub min_lifetime: u32,
    pub program: Option<String>,
    pub mechs: u32,
    pub krb5_principal: Option<String>,
    /// `cred_store` entries as `(key, value)`, split on the first `:`.
    pub krb5_store: Vec<(String, String)>,
}

/// What a service is.
pub struct ServiceModel {
    pub name: Seq<char>,
    pub euid: u32,
    pub any_uid: bool,
    pub allow_proto_trans: bool,
    pub allow_const_deleg: bool,
    pub allow_cc_sync: bool,
    pub trusted: bool,
    pub kernel_nfsd: bool,
    pub impersonate: bool,
    pub socket: Option<Seq<char>>,
    pub selinux_context: Option<Seq<char>>,
    pub cred_usage: i32,
    pub filter_flags: u32,
    pub enforce_flags: u32,
    pub min_lifetime: u32,
    pub program: Option<Seq<char>>,
    pub mechs: u32,
    pub krb5_principal: Option<Seq<char>>,
    pub krb5_store: Props,
}

impl View for Service {
    type V = ServiceModel;

    open spec fn view(&self) -> ServiceModel {
        ServiceModel {
            name: self.name@,
            euid: self.euid,
            any_uid: self.any_uid,
            allow_proto_trans: self.allow_proto_trans,
            allow_const_deleg: self.allow_const_deleg,
            allow_cc_sync: self.allow_cc_sync,
            trusted: self.trusted,
            kernel_nfsd: self.kernel_nfsd,
            impersonate: self.impersonate,
            socket: opt_view(self.socket),
            selinux_context: opt_view(self.selinux_context),
            cred_usage: self.cred_usage,
            filter_flags: self.filter_flags,
            enforce_flags: self.enforce_flags,
            min_lifetime: self.min_lifetime,
            program: opt_view(self.program),
            mechs: self.mechs,
            krb5_principal: opt_view(self.krb5_principal),
            krb5_store: props_view(self.krb5_store@),
        }
    }
}

fn clone_opt(s: &Option<String>) -> (r: Option<String>)
    ensures
        opt_view(r) == opt_view(*s),
{
    match s {
        Some(v) => Some(v.clone()),
        None => None,
    }
}

/// Copies of some pairs of strings.
pub fn clone_pairs(v: &Vec<(String, String)>) -> (r: Vec<(String, String)>)
    ensures
        props_view(r@) == props_view(v@),
{
    let mut out: Vec<(String, String)> = Vec::new();
    let mut i: usize = 0;
    while i < v.len()
        invariant
            i <= v@.len(),
            out@.len() == i,
            forall|j: int|
                0 <= j < i ==> (#[trigger] out@[j]).0@ == v@[j].0@ && out@[j].1@ == v@[j].1@,
        decreases v@.len() - i,
    {
        out.push((v[i].0.clone(), v[i].1.clone()));
        i += 1;
    }
    assert(props_view(out@) =~= props_view(v@));
    out
}

impl Clone for Service {
    fn clone(&self) -> (r: Self)
        ensures
            r@ == self@,
    {
        Service {
            name: self.name.clone(),
            euid: self.euid,
            any_uid: self.any_uid,
            allow_proto_trans: self.allow_proto_trans,
            allow_const_deleg: self.allow_const_deleg,
            allow_cc_sync: self.allow_cc_sync,
            trusted: self.trusted,
            kernel_nfsd: self.kernel_nfsd,
            impersonate: self.impersonate,
            socket: clone_opt(&self.socket),
            selinux_context: clone_opt(&self.selinux_context),
            cred_usage: self.cred_usage,
            filter_flags: self.filter_flags,
            enforce_flags: self.enforce_flags,
            min_lifetime: self.min_lifetime,
            program: clone_opt(&self.program),
            mechs: self.mechs,
            krb5_principal: clone_opt(&self.krb5_principal),
            krb5_store: clone_pairs(&self.krb5_store),
        }
    }
}

// ---- flags ----

/// The value of a flag name, in any case. One name is spelled `INTEGRITIY`.
pub open spec fn named_flag(name: Seq<char>) -> Option<u32> {
    let n = text::lowered(name);
    if n == text::lowered("DELEGATE"@) {
        Some(0x01)
    } else if n == text::lowered("MUTUAL_AUTH"@) {
        Some(0x02)
    } else if n == text::lowered("REPLAY_DETECT"@) {
        Some(0x04)
    } else if n == text::lowered("SEQUENCE"@) {
        Some(0x08)
    } else if n == text::lowered("CONFIDENTIALITY"@) {
        Some(0x10)
    } else if n == text::lowered("INTEGRITIY"@) {
        Some(0x20)
    } else if n == text::lowered("ANONYMOUS"@) {
        Some(0x40)
    } else {
        None
    }
}

/// The value of a numeric flag, in decimal, or in hexadecimal after `0x`. Zero
/// and the all-ones value are none.
pub open spec fn numeric_flag(s: Seq<char>) -> Option<u32> {
    let v = if "0x"@.is_prefix_of(s) || "0X"@.is_prefix_of(s) {
        text::unsigned(s.skip(2), 16)
    } else {
        text::unsigned(s, 10)
    };
    match v {
        Some(n) => if 0 < n < u32::MAX {
            Some(n as u32)
        } else {
            None
        },
        None => None,
    }
}

/// The flags after one token: `+NAME` sets a flag and `-NAME` clears it. A
/// token of another form, or with an unknown name, changes nothing.
pub open spec fn flag_token(token: Seq<char>, flags: u32) -> u32 {
    if token.len() == 0 || (token[0] != '+' && token[0] != '-') {
        flags
    } else {
        let name = token.skip(1);
        let flag = match named_flag(name) {
            Some(v) => Some(v),
            None => numeric_flag(name),
        };
        match flag {
            None => flags,
            Some(v) => if token[0] == '+' {
                flags | v
            } else {
                flags & !v
            },
        }
    }
}

/// The flags after some tokens.
pub open spec fn flag_tokens(tokens: Seq<Seq<char>>, start: u32) -> u32
    decreases tokens.len(),
{
    if tokens.len() == 0 {
        start
    } else {
        flag_token(tokens.last(), flag_tokens(tokens.drop_last(), start))
    }
}

/// Read a numeric flag.
pub fn parse_numeric_flag(s: &[char]) -> (r: Option<u32>)
    ensures
        r == numeric_flag(s@),
{
    proof {
        reveal_strlit("0x");
        reveal_strlit("0X");
    }
    let v: Option<u32> = if text::starts_with(s, "0x") || text::starts_with(s, "0X") {
        let hex = text::rest(s, 2);
        text::parse_u32(hex.as_slice(), 16)
    } else {
        text::parse_u32(s, 10)
    };
    match v {
        Some(n) => if n != 0 && n != u32::MAX {
            Some(n)
        } else {
            None
        },
        None => None,
    }
}

fn find_flag(name: &[char]) -> (r: Option<u32>)
    ensures
        r == named_flag(name@),
{
    if text::is_word(name, "DELEGATE") {
        Some(0x01)
    } else if text::is_word(name, "MUTUAL_AUTH") {
        Some(0x02)
    } else if text::is_word(name, "REPLAY_DETECT") {
        Some(0x04)
    } else if text::is_word(name, "SEQUENCE") {
        Some(0x08)
    } else if text::is_word(name, "CONFIDENTIALITY") {
        Some(0x10)
    } else if text::is_word(name, "INTEGRITIY") {
        Some(0x20)
    } else if text::is_word(name, "ANONYMOUS") {
        Some(0x40)
    } else {
        None
    }
}

fn apply_flag(token: &[char], flags: u32) -> (r: u32)
    ensures
        r == flag_token(token@, flags),
{
    if token.len() == 0 || (token[0] != '+' && token[0] != '-') {
        return flags;
    }
    let name = text::rest(token, 1);
    let flag: Option<u32> = match find_flag(name.as_slice()) {
        Some(v) => Some(v),
        None => parse_numeric_flag(name.as_slice()),
    };
    match flag {
        None => flags,
        Some(v) => if token[0] == '+' {
            flags | v
        } else {
            flags & !v
        },
    }
}

/// Apply the tokens of a flag list, separated by commas or spaces, in order.
pub fn parse_flags(value: &str, start: u32) -> (r: u32)
    ensures
        r == flag_tokens(text::at_commas_or_spaces(value@), start),
{
    let chars = text::chars_of(value);
    let tokens = text::split_commas_or_spaces(chars.as_slice());
    let ghost all = text::views(tokens@);
    let mut flags: u32 = start;
    let mut i: usize = 0;
    assert(flag_tokens(all.take(0), start) == start);
    while i < tokens.len()
        invariant
            i <= tokens@.len(),
            all == text::views(tokens@),
            flags == flag_tokens(all.take(i as int), start),
        decreases tokens@.len() - i,
    {
        assert(all.take(i + 1).drop_last() =~= all.take(i as int));
        assert(all.take(i + 1).last() == tokens@[i as int]@);
        flags = apply_flag(tokens[i].as_slice(), flags);
        i += 1;
    }
    assert(all.take(i as int) =~= all);
    flags
}

// ---- the krb5 mechanism ----

/// The entries after one piece of a `cred_store` value: a key and a value,
/// separated by the first colon. White space round a piece and empty pieces are
/// dropped.
pub open spec fn store_piece(before: Result<Props, Seq<char>>, piece: Seq<char>) -> Result<
    Props,
    Seq<char>,
> {
    let entry = text::trimmed(piece);
    match before {
        Err(e) => Err(e),
        Ok(p) => if entry.len() == 0 {
            Ok(p)
        } else {
            match text::cut(entry, ':') {
                Some((k, v)) => Ok(p.push((k, v))),
                None => Err(
                    "Invalid cred_store value, no ':' separator found in ["@ + entry + "]."@,
                ),
            }
        },
    }
}

pub open spec fn store_pieces(before: Result<Props, Seq<char>>, pieces: Seq<Seq<char>>) -> Result<
    Props,
    Seq<char>,
>
    decreases pieces.len(),
{
    if pieces.len() == 0 {
        before
    } else {
        store_piece(store_pieces(before, pieces.drop_last()), pieces.last())
    }
}

/// The entries after some `cred_store` values, each a list with commas.
pub open spec fn store_values(before: Result<Props, Seq<char>>, values: Seq<Seq<char>>) -> Result<
    Props,
    Seq<char>,
>
    decreases values.len(),
{
    if values.len() == 0 {
        before
    } else {
        store_pieces(
            store_values(before, values.drop_last()),
            text::at_commas(values.last()),
        )
    }
}

/// The complaint about a deprecated option, if one is there.
pub open spec fn deprecated_option(p: Props) -> Option<Seq<char>> {
    if lookup(p, "krb5_keytab"@) is Some {
        Some("\"krb5_keytab\" is deprecated, please use \"cred_store\"."@)
    } else if lookup(p, "krb5_ccache"@) is Some {
        Some("\"krb5_ccache\" is deprecated, please use \"cred_store\"."@)
    } else if lookup(p, "krb5_client_keytab"@) is Some {
        Some("\"krb5_client_keytab\" is deprecated, please use \"cred_store\"."@)
    } else {
        None
    }
}

/// The credential store after one mention of krb5.
pub open spec fn krb5_mention(before: Result<Props, Seq<char>>, p: Props) -> Result<
    Props,
    Seq<char>,
> {
    match before {
        Err(e) => Err(e),
        Ok(_) => match deprecated_option(p) {
            Some(m) => Err(m),
            None => store_values(before, lookup_all(p, "cred_store"@)),
        },
    }
}

/// Whether krb5 is among the mechanisms, and the credential store. Each mention
/// of krb5 adds the entries.
pub open spec fn krb5_mentions(tokens: Seq<Seq<char>>, p: Props) -> (bool, Result<Props, Seq<char>>)
    decreases tokens.len(),
{
    if tokens.len() == 0 {
        (false, Ok(Seq::empty()))
    } else {
        let before = krb5_mentions(tokens.drop_last(), p);
        if tokens.last() == "krb5"@ {
            (true, krb5_mention(before.1, p))
        } else {
            before
        }
    }
}

fn invalid<T>(m: String) -> (r: Outcome<T>)
    ensures
        r == Err::<T, ConfigError>(ConfigError::Invalid(m)),
{
    Err(ConfigError::Invalid(m))
}

/// A result is what a model says: the view of the value, or the text of the
/// complaint.
pub open spec fn store_is(r: Outcome<()>, store: Props, model: Result<Props, Seq<char>>) -> bool {
    match model {
        Ok(p) => r is Ok && store == p,
        Err(m) => r matches Err(ConfigError::Invalid(e)) && e@ == m,
    }
}

fn add_store_piece(store: &mut Vec<(String, String)>, piece: &[char]) -> (r: Outcome<()>)
    ensures
        store_is(
            r,
            props_view(final(store)@),
            store_piece(Ok(props_view(old(store)@)), piece@),
        ),
{
    let entry = text::trim(piece);
    if entry.len() == 0 {
        return Ok(());
    }
    match text::split_once(entry.as_slice(), ':') {
        Some((k, v)) => {
            let key = text::string_of(k.as_slice());
            let value = text::string_of(v.as_slice());
            store.push((key, value));
            assert(props_view(store@) =~= props_view(old(store)@).push((k@, v@)));
            Ok(())
        },
        None => {
            let mut m = "Invalid cred_store value, no ':' separator found in [".to_owned();
            let e = text::string_of(entry.as_slice());
            m.push_str(e.as_str());
            m.push_str("].");
            invalid(m)
        },
    }
}

proof fn lemma_pieces_failed(
    before: Result<Props, Seq<char>>,
    pieces: Seq<Seq<char>>,
    k: int,
)
    requires
        0 <= k <= pieces.len(),
        store_pieces(before, pieces.take(k)) is Err,
    ensures
        store_pieces(before, pieces) == store_pieces(before, pieces.take(k)),
    decreases pieces.len(),
{
    if k < pieces.len() {
        assert(pieces.drop_last().take(k) =~= pieces.take(k));
        lemma_pieces_failed(before, pieces.drop_last(), k);
    } else {
        assert(pieces.take(k) =~= pieces);
    }
}

fn add_store_value(store: &mut Vec<(String, String)>, value: &str) -> (r: Outcome<()>)
    ensures
        store_is(
            r,
            props_view(final(store)@),
            store_pieces(Ok(props_view(old(store)@)), text::at_commas(value@)),
        ),
{
    let chars = text::chars_of(value);
    let pieces = text::split_commas(chars.as_slice());
    let ghost all = text::views(pieces@);
    let ghost before = Ok::<Props, Seq<char>>(props_view(old(store)@));
    let mut i: usize = 0;
    assert(store_pieces(before, all.take(0)) == before);
    while i < pieces.len()
        invariant
            i <= pieces@.len(),
            all == text::views(pieces@),
            store_pieces(before, all.take(i as int)) == Ok::<Props, Seq<char>>(props_view(store@)),
            all == text::at_commas(value@),
            before == Ok::<Props, Seq<char>>(props_view(old(store)@)),
        decreases pieces@.len() - i,
    {
        assert(all.take(i + 1).drop_last() =~= all.take(i as int));
        assert(all.take(i + 1).last() == pieces@[i as int]@);
        match add_store_piece(store, pieces[i].as_slice()) {
            Ok(_) => {},
            Err(e) => {
                proof {
                    lemma_pieces_failed(before, all, i + 1);
                }
                return Err(e);
            },
        }
        i += 1;
    }
    assert(all.take(i as int) =~= all);
    Ok(())
}

proof fn lemma_pieces_of_error(e: Seq<char>, pieces: Seq<Seq<char>>)
    ensures
        store_pieces(Err(e), pieces) == Err::<Props, Seq<char>>(e),
    decreases pieces.len(),
{
    if pieces.len() > 0 {
        lemma_pieces_of_error(e, pieces.drop_last());
    }
}

proof fn lemma_values_failed(before: Result<Props, Seq<char>>, values: Seq<Seq<char>>, k: int)
    requires
        0 <= k <= values.len(),
        store_values(before, values.take(k)) is Err,
    ensures
        store_values(before, values) == store_values(before, values.take(k)),
    decreases values.len(),
{
    if k < values.len() {
        assert(values.drop_last().take(k) =~= values.take(k));
        lemma_values_failed(before, values.drop_last(), k);
        lemma_pieces_of_error(
            store_values(before, values.drop_last())->Err_0,
            text::at_commas(values.last()),
        );
    } else {
        assert(values.take(k) =~= values);
    }
}

/// Read the krb5 options of a service into its credential store.
fn parse_krb5_cfg(store: &mut Vec<(String, String)>, props: &Vec<(String, String)>) -> (r: Outcome<
    (),
>)
    ensures
        store_is(
            r,
            props_view(final(store)@),
            krb5_mention(Ok(props_view(old(store)@)), props_view(props@)),
        ),
{
    if get(props, "krb5_keytab").is_some() {
        return invalid(
            "\"krb5_keytab\" is deprecated, please use \"cred_store\".".to_owned(),
        );
    }
    if get(props, "krb5_ccache").is_some() {
        return invalid(
            "\"krb5_ccache\" is deprecated, please use \"cred_store\".".to_owned(),
        );
    }
    if get(props, "krb5_client_keytab").is_some() {
        return invalid(
            "\"krb5_client_keytab\" is deprecated, please use \"cred_store\".".to_owned(),
        );
    }
    let values = get_all(props, "cred_store");
    let ghost all = strings_view(values@);
    let ghost before = Ok::<Props, Seq<char>>(props_view(old(store)@));
    let mut i: usize = 0;
    assert(store_values(before, all.take(0)) == before);
    while i < values.len()
        invariant
            i <= values@.len(),
            all == strings_view(values@),
            all == lookup_all(props_view(props@), "cred_store"@),
            deprecated_option(props_view(props@)) is None,
            before == Ok::<Props, Seq<char>>(props_view(old(store)@)),
            store_values(before, all.take(i as int)) == Ok::<Props, Seq<char>>(props_view(store@)),
        decreases values@.len() - i,
    {
        assert(all.take(i + 1).drop_last() =~= all.take(i as int));
        assert(all.take(i + 1).last() == values@[i as int]@);
        match add_store_value(store, values[i].as_str()) {
            Ok(_) => {},
            Err(e) => {
                proof {
                    lemma_values_failed(before, all, i + 1);
                }
                return Err(e);
            },
        }
        i += 1;
    }
    assert(all.take(i as int) =~= all);
    Ok(())
}

proof fn lemma_mentions_failed(tokens: Seq<Seq<char>>, p: Props, k: int)
    requires
        0 <= k <= tokens.len(),
        krb5_mentions(tokens.take(k), p).0,
        krb5_mentions(tokens.take(k), p).1 is Err,
    ensures
        krb5_mentions(tokens, p) == krb5_mentions(tokens.take(k), p),
    decreases tokens.len(),
{
    if k < tokens.len() {
        assert(tokens.drop_last().take(k) =~= tokens.take(k));
        lemma_mentions_failed(tokens.drop_last(), p, k);
    } else {
        assert(tokens.take(k) =~= tokens);
    }
}

/// Whether krb5 is among the mechanisms, and the credential store.
fn parse_mechs(mechs: &str, props: &Vec<(String, String)>) -> (r: Outcome<
    Option<Vec<(String, String)>>,
>)
    ensures
        match krb5_mentions(text::at_commas_or_spaces(mechs@), props_view(props@)) {
            (false, _) => r matches Ok(None),
            (true, Ok(p)) => r matches Ok(Some(store)) && props_view(store@) == p,
            (true, Err(m)) => r matches Err(ConfigError::Invalid(e)) && e@ == m,
        },
{
    let chars = text::chars_of(mechs);
    let tokens = text::split_commas_or_spaces(chars.as_slice());
    let krb5 = text::chars_of("krb5");
    let ghost all = text::views(tokens@);
    let ghost p = props_view(props@);
    let mut store: Vec<(String, String)> = Vec::new();
    let mut found = false;
    let mut i: usize = 0;
    assert(props_view(store@) =~= Seq::empty());
    while i < tokens.len()
        invariant
            i <= tokens@.len(),
            krb5@ == "krb5"@,
            all == text::views(tokens@),
            all == text::at_commas_or_spaces(mechs@),
            p == props_view(props@),
            krb5_mentions(all.take(i as int), p) == (
                found,
                Ok::<Props, Seq<char>>(props_view(store@)),
            ),
        decreases tokens@.len() - i,
    {
        assert(all.take(i + 1).drop_last() =~= all.take(i as int));
        assert(all.take(i + 1).last() == tokens@[i as int]@);
        if text::same_chars(tokens[i].as_slice(), krb5.as_slice()) {
            match parse_krb5_cfg(&mut store, props) {
                Ok(_) => {},
                Err(e) => {
                    proof {
                        lemma_mentions_failed(all, p, i + 1);
                    }
                    return Err(e);
                },
            }
            found = true;
        }
        i += 1;
    }
    assert(all.take(i as int) =~= all);
    if found {
        Ok(Some(store))
    } else {
        Ok(None)
    }
}

// ---- a service section ----

/// Users and their uids, as far as they are known.
pub open spec fn user_id(users: Seq<(Seq<char>, u32)>, name: Seq<char>) -> Option<u32>
    decreases users.len(),
{
    if users.len() == 0 {
        None
    } else if users[0].0 == name {
        Some(users[0].1)
    } else {
        user_id(users.skip(1), name)
    }
}

pub open spec fn users_view(u: Seq<(String, u32)>) -> Seq<(Seq<char>, u32)> {
    Seq::new(u.len(), |i: int| (u[i].0@, u[i].1))
}

fn lookup_uid(users: &[(String, u32)], name: &str) -> (r: Option<u32>)
    ensures
        r == user_id(users_view(users@), name@),
{
    let ghost u = users_view(users@);
    let mut i: usize = 0;
    assert(u.skip(0) =~= u);
    while i < users.len()
        invariant
            i <= users@.len(),
            u == users_view(users@),
            user_id(u, name@) == user_id(u.skip(i as int), name@),
        decreases users@.len() - i,
    {
        assert(u.skip(i as int)[0] == u[i as int]);
        if text::same(users[i].0.as_str(), name) {
            return Some(users[i].1);
        }
        assert(u.skip(i as int).skip(1) =~= u.skip(i + 1));
        i += 1;
    }
    None
}

/// The uid that an `euid` value gives by itself.
pub open spec fn numeric_euid(value: Seq<char>) -> Option<u32> {
    match text::unsigned(text::trimmed(value), 10) {
        Some(n) => if n <= u32::MAX {
            Some(n as u32)
        } else {
            None
        },
        None => None,
    }
}

/// A configured boolean; one that is absent is false.
pub open spec fn flag_set(p: Props, key: Seq<char>) -> bool {
    match lookup(p, key) {
        Some(v) => text::means_true(v),
        None => false,
    }
}

/// A credential usage in words, in any case.
pub open spec fn usage_word(v: Seq<char>) -> Option<i32> {
    let w = text::lowered(v);
    if w == text::lowered("initiate"@) {
        Some(GSS_C_INITIATE)
    } else if w == text::lowered("accept"@) {
        Some(GSS_C_ACCEPT)
    } else if w == text::lowered("both"@) {
        Some(GSS_C_BOTH)
    } else {
        None
    }
}

/// The minimum lifetime: a non-negative number as 32 bits, else the default.
pub open spec fn lifetime_of(v: Option<Seq<char>>) -> u32 {
    match v {
        Some(s) => match text::integer(text::trimmed(s)) {
            Some(n) => if 0 <= n <= i64::MAX {
                (n as i64) as u32
            } else {
                DEFAULT_MIN_LIFETIME
            },
            None => DEFAULT_MIN_LIFETIME,
        },
        None => DEFAULT_MIN_LIFETIME,
    }
}

pub open spec fn flags_of(v: Option<Seq<char>>, start: u32) -> u32 {
    match v {
        Some(s) => flag_tokens(text::at_commas_or_spaces(s), start),
        None => start,
    }
}

pub open spec fn in_service(name: Seq<char>) -> Seq<char> {
    " in [service/"@ + name + "]."@
}

/// The service that a section describes.
///
/// `euid` and `mechs` must be there, and a user that `euid` names must be known.
/// A section without krb5 among its mechanisms is no service. The credential
/// usage must be one of the known words.
pub open spec fn service_model(
    name: Seq<char>,
    p: Props,
    users: Seq<(Seq<char>, u32)>,
) -> Result<Option<ServiceModel>, Seq<char>> {
    match lookup(p, "euid"@) {
        None => Err("Option 'euid' is missing from [service/"@ + name + "]."@),
        Some(v) => {
            let euid = match numeric_euid(v) {
                Some(n) => Some(n),
                None => user_id(users, text::trimmed(v)),
            };
            match euid {
                None => Err("Unknown euid user '"@ + text::trimmed(v) + "'"@ + in_service(name)),
                Some(euid) => match lookup(p, "mechs"@) {
                    None => Err("Option 'mechs' is missing from [service/"@ + name + "]."@),
                    Some(mechs) => match krb5_mentions(text::at_commas_or_spaces(mechs), p) {
                        (false, _) => Ok(None),
                        (true, Err(m)) => Err(m),
                        (true, Ok(store)) => {
                            let usage = match lookup(p, "cred_usage"@) {
                                Some(u) => usage_word(u),
                                None => Some(GSS_C_BOTH),
                            };
                            match usage {
                                None => Err(
                                    "Invalid value '"@ + lookup(p, "cred_usage"@)->0
                                        + "' for cred_usage"@ + in_service(name),
                                ),
                                Some(cred_usage) => Ok(
                                    Some(
                                        ServiceModel {
                                            name,
                                            euid,
                                            any_uid: flag_set(p, "allow_any_uid"@),
                                            allow_proto_trans: flag_set(
                                                p,
                                                "allow_protocol_transition"@,
                                            ),
                                            allow_const_deleg: flag_set(
                                                p,
                                                "allow_constrained_delegation"@,
                                            ),
                                            allow_cc_sync: flag_set(
                                                p,
                                                "allow_client_ccache_sync"@,
                                            ),
                                            trusted: flag_set(p, "trusted"@),
                                            kernel_nfsd: flag_set(p, "kernel_nfsd"@),
                                            impersonate: flag_set(p, "impersonate"@),
                                            socket: lookup(p, "socket"@),
                                            selinux_context: lookup(p, "selinux_context"@),
                                            cred_usage,
                                            filter_flags: flags_of(
                                                lookup(p, "filter_flags"@),
                                                DEFAULT_FILTERED_FLAGS,
                                            ),
                                            enforce_flags: flags_of(
                                                lookup(p, "enforce_flags"@),
                                                DEFAULT_ENFORCED_FLAGS,
                                            ),
                                            min_lifetime: lifetime_of(lookup(p, "min_lifetime"@)),
                                            program: lookup(p, "program"@),
                                            mechs: GP_CRED_KRB5,
                                            krb5_principal: lookup(p, "krb5_principal"@),
                                            krb5_store: store,
                                        },
                                    ),
                                ),
                            }
                        },
                    },
                },
            }
        },
    }
}

fn bool_opt(props: &Vec<(String, String)>, key: &str) -> (r: bool)
    ensures
        r == flag_set(props_view(props@), key@),
{
    match get(props, key) {
        Some(v) => text::boolean_is_true(v.as_str()),
        None => false,
    }
}

fn str_opt(props: &Vec<(String, String)>, key: &str) -> (r: Option<String>)
    ensures
        opt_view(r) == lookup(props_view(props@), key@),
{
    match get(props, key) {
        Some(v) => Some(v.clone()),
        None => None,
    }
}

fn read_euid(value: &str) -> (r: Option<u32>)
    ensures
        r == numeric_euid(value@),
{
    let chars = text::chars_of(value);
    let t = text::trim(chars.as_slice());
    text::parse_u32(t.as_slice(), 10)
}

fn read_usage(value: &str) -> (r: Option<i32>)
    ensures
        r == usage_word(value@),
{
    let w = text::chars_of(value);
    if text::is_word(w.as_slice(), "initiate") {
        Some(GSS_C_INITIATE)
    } else if text::is_word(w.as_slice(), "accept") {
        Some(GSS_C_ACCEPT)
    } else if text::is_word(w.as_slice(), "both") {
        Some(GSS_C_BOTH)
    } else {
        None
    }
}

fn read_lifetime(value: Option<&String>) -> (r: u32)
    ensures
        r == lifetime_of(
            match value {
                Some(s) => Some(s@),
                None => None,
            },
        ),
{
    match value {
        Some(s) => {
            let chars = text::chars_of(s.as_str());
            let t = text::trim(chars.as_slice());
            match text::parse_i64(t.as_slice()) {
                Some(n) => if n >= 0 {
                    n as u32
                } else {
                    DEFAULT_MIN_LIFETIME
                },
                None => DEFAULT_MIN_LIFETIME,
            }
        },
        None => DEFAULT_MIN_LIFETIME,
    }
}

fn read_flags(props: &Vec<(String, String)>, key: &str, start: u32) -> (r: u32)
    ensures
        r == flags_of(lookup(props_view(props@), key@), start),
{
    match get(props, key) {
        Some(v) => parse_flags(v.as_str(), start),
        None => start,
    }
}

fn missing(option: &str, name: &str) -> (r: ConfigError)
    ensures
        r matches ConfigError::Invalid(m) && m@ == option@ + name@ + "]."@,
{
    let mut m = option.to_owned();
    m.push_str(name);
    m.push_str("].");
    ConfigError::Invalid(m)
}

fn bad_value(before: &str, value: &str, after: &str, name: &str) -> (r: ConfigError)
    ensures
        r matches ConfigError::Invalid(m) && m@ == before@ + value@ + after@ + in_service(name@),
{
    let mut m = before.to_owned();
    m.push_str(value);
    m.push_str(after);
    m.push_str(" in [service/");
    m.push_str(name);
    m.push_str("].");
    assert(m@ =~= before@ + value@ + after@ + in_service(name@));
    ConfigError::Invalid(m)
}

/// Parse one service section. `Ok(None)` means that the section is to be
/// ignored.
fn parse_service(name: &str, props: &Vec<(String, String)>, users: &[(String, u32)]) -> (r: Outcome<
    Option<Service>,
>)
    ensures
        match service_model(name@, props_view(props@), users_view(users@)) {
            Ok(Some(m)) => r matches Ok(Some(svc)) && svc@ == m,
            Ok(None) => r matches Ok(None),
            Err(m) => r matches Err(ConfigError::Invalid(e)) && e@ == m,
        },
{
    let euid: u32 = match get(props, "euid") {
        None => {
            return Err(missing("Option 'euid' is missing from [service/", name));
        },
        Some(v) => match read_euid(v.as_str()) {
            Some(n) => n,
            None => {
                let chars = text::chars_of(v.as_str());
                let t = text::trim(chars.as_slice());
                let user = text::string_of(t.as_slice());
                match lookup_uid(users, user.as_str()) {
                    Some(n) => n,
                    None => {
                        return Err(bad_value("Unknown euid user '", user.as_str(), "'", name));
                    },
                }
            },
        },
    };
    let store = match get(props, "mechs") {
        None => {
            return Err(missing("Option 'mechs' is missing from [service/", name));
        },
        Some(mechs) => match parse_mechs(mechs.as_str(), props) {
            Err(e) => {
                return Err(e);
            },
            Ok(None) => {
                return Ok(None);
            },
            Ok(Some(store)) => store,
        },
    };
    let cred_usage: i32 = match get(props, "cred_usage") {
        Some(v) => match read_usage(v.as_str()) {
            Some(u) => u,
            None => {
                return Err(bad_value("Invalid value '", v.as_str(), "' for cred_usage", name));
            },
        },
        None => GSS_C_BOTH,
    };
    let svc = Service {
        name: name.to_owned(),
        euid,
        any_uid: bool_opt(props, "allow_any_uid"),
        allow_proto_trans: bool_opt(props, "allow_protocol_transition"),
        allow_const_deleg: bool_opt(props, "allow_constrained_delegation"),
        allow_cc_sync: bool_opt(props, "allow_client_ccache_sync"),
        trusted: bool_opt(props, "trusted"),
        kernel_nfsd: bool_opt(props, "kernel_nfsd"),
        impersonate: bool_opt(props, "impersonate"),
        socket: str_opt(props, "socket"),
        selinux_context: str_opt(props, "selinux_context"),
        cred_usage,
        filter_flags: read_flags(props, "filter_flags", DEFAULT_FILTERED_FLAGS),
        enforce_flags: read_flags(props, "enforce_flags", DEFAULT_ENFORCED_FLAGS),
        min_lifetime: read_lifetime(get(props, "min_lifetime")),
        program: str_opt(props, "program"),
        mechs: GP_CRED_KRB5,
        krb5_principal: str_opt(props, "krb5_principal"),
        krb5_store: store,
    };
    Ok(Some(svc))
}

// ---- services together ----

/// The socket that a service listens on.
pub open spec fn socket_of(svc: ServiceModel, default: Seq<char>) -> Seq<char> {
    match svc.socket {
        Some(s) => s,
        None => default,
    }
}

/// Two services listen for the same program in the same context on the same
/// socket.
pub open spec fn alike(a: ServiceModel, b: ServiceModel, default: Seq<char>) -> bool {
    &&& socket_of(a, default) == socket_of(b, default)
    &&& a.program == b.program
    &&& a.selinux_context == b.selinux_context
}

/// The complaint about service `i` and the first earlier one that it collides
/// with, among the first `n`.
pub open spec fn collision(
    s: Seq<ServiceModel>,
    default: Seq<char>,
    i: int,
    n: int,
) -> Option<Seq<char>>
    decreases n,
{
    if n <= 0 {
        None
    } else {
        match collision(s, default, i, n - 1) {
            Some(m) => Some(m),
            None => if !alike(s[i], s[n - 1], default) {
                None
            } else if s[n - 1].any_uid {
                Some(
                    s[n - 1].name
                        + " sets allow_any_uid with the same socket, selinux_context, and program as "@
                        + s[i].name + "!"@,
                )
            } else if s[n - 1].euid == s[i].euid {
                Some(
                    "socket, selinux_context, euid, and program for "@ + s[i].name + " and "@
                        + s[n - 1].name + " should not match!"@,
                )
            } else {
                None
            },
        }
    }
}

/// The complaint about a program path: it must be absolute and free of bars.
pub open spec fn bad_program(program: Option<Seq<char>>) -> Option<Seq<char>> {
    match program {
        None => None,
        Some(p) => if !(p.len() > 0 && p[0] == '/') {
            Some("Program paths must be absolute!"@)
        } else if text::position(p, '|') is Some {
            Some("The character '|' is invalid in program paths!"@)
        } else {
            None
        },
    }
}

/// The first complaint about the first `n` services.
pub open spec fn complaint(s: Seq<ServiceModel>, default: Seq<char>, n: int) -> Option<Seq<char>>
    decreases n,
{
    if n <= 0 {
        None
    } else {
        match complaint(s, default, n - 1) {
            Some(m) => Some(m),
            None => match bad_program(s[n - 1].program) {
                Some(m) => Some(m),
                None => collision(s, default, n - 1, n - 1),
            },
        }
    }
}

pub open spec fn services_view(s: Seq<Service>) -> Seq<ServiceModel> {
    Seq::new(s.len(), |i: int| s[i]@)
}

fn same_opt(a: &Option<String>, b: &Option<String>) -> (r: bool)
    ensures
        r == (opt_view(*a) == opt_view(*b)),
{
    match (a, b) {
        (Some(x), Some(y)) => text::same(x.as_str(), y.as_str()),
        (None, None) => true,
        _ => false,
    }
}

fn sock_of<'a>(svc: &'a Service, default: &'a str) -> (r: &'a str)
    ensures
        r@ == socket_of(svc@, default@),
{
    match &svc.socket {
        Some(s) => s.as_str(),
        None => default,
    }
}

fn check_program(program: &Option<String>) -> (r: Outcome<()>)
    ensures
        match bad_program(opt_view(*program)) {
            None => r is Ok,
            Some(m) => r matches Err(ConfigError::Invalid(e)) && e@ == m,
        },
{
    match program {
        None => Ok(()),
        Some(p) => {
            let chars = text::chars_of(p.as_str());
            if !(chars.len() > 0 && chars[0] == '/') {
                return invalid("Program paths must be absolute!".to_owned());
            }
            if text::find(chars.as_slice(), '|').is_some() {
                return invalid("The character '|' is invalid in program paths!".to_owned());
            }
            Ok(())
        },
    }
}

proof fn lemma_first_collision(s: Seq<ServiceModel>, default: Seq<char>, i: int, k: int, n: int)
    requires
        0 <= k <= n,
        collision(s, default, i, k) is Some,
    ensures
        collision(s, default, i, n) == collision(s, default, i, k),
    decreases n,
{
    if k < n {
        lemma_first_collision(s, default, i, k, n - 1);
    }
}

proof fn lemma_first_complaint(s: Seq<ServiceModel>, default: Seq<char>, k: int, n: int)
    requires
        0 <= k <= n,
        complaint(s, default, k) is Some,
    ensures
        complaint(s, default, n) == complaint(s, default, k),
    decreases n,
{
    if k < n {
        lemma_first_complaint(s, default, k, n - 1);
    }
}

fn check_collisions(services: &Vec<Service>, default: &str, i: usize) -> (r: Outcome<()>)
    requires
        i < services@.len(),
    ensures
        match collision(services_view(services@), default@, i as int, i as int) {
            None => r is Ok,
            Some(m) => r matches Err(ConfigError::Invalid(e)) && e@ == m,
        },
{
    let ghost s = services_view(services@);
    let isvc = &services[i];
    let mut j: usize = 0;
    while j < i
        invariant
            j <= i < services@.len(),
            s == services_view(services@),
            *isvc == services@[i as int],
            collision(s, default@, i as int, j as int) is None,
        decreases i - j,
    {
        let jsvc = &services[j];
        assert(s[j as int] == jsvc@ && s[i as int] == isvc@);
        let same = text::same(sock_of(isvc, default), sock_of(jsvc, default)) && same_opt(
            &isvc.program,
            &jsvc.program,
        ) && same_opt(&isvc.selinux_context, &jsvc.selinux_context);
        if same {
            if jsvc.any_uid {
                let mut m = jsvc.name.clone();
                m.push_str(
                    " sets allow_any_uid with the same socket, selinux_context, and program as ",
                );
                m.push_str(isvc.name.as_str());
                m.push_str("!");
                proof {
                    lemma_first_collision(s, default@, i as int, j + 1, i as int);
                }
                return invalid(m);
            } else if jsvc.euid == isvc.euid {
                let mut m = "socket, selinux_context, euid, and program for ".to_owned();
                m.push_str(isvc.name.as_str());
                m.push_str(" and ");
                m.push_str(jsvc.name.as_str());
                m.push_str(" should not match!");
                proof {
                    lemma_first_collision(s, default@, i as int, j + 1, i as int);
                }
                return invalid(m);
            }
        }
        j += 1;
    }
    Ok(())
}

/// Program paths must be absolute and free of bars, and no two services may
/// collide.
fn check_services(services: &Vec<Service>, default: &str) -> (r: Outcome<()>)
    ensures
        match complaint(services_view(services@), default@, services@.len() as int) {
            None => r is Ok,
            Some(m) => r matches Err(ConfigError::Invalid(e)) && e@ == m,
        },
{
    let ghost s = services_view(services@);
    let mut i: usize = 0;
    while i < services.len()
        invariant
            i <= services@.len(),
            s == services_view(services@),
            complaint(s, default@, i as int) is None,
        decreases services@.len() - i,
    {
        assert(s[i as int] == services@[i as int]@);
        match check_program(&services[i].program) {
            Ok(_) => {},
            Err(e) => {
                proof {
                    lemma_first_complaint(s, default@, i + 1, services@.len() as int);
                }
                return Err(e);
            },
        }
        match check_collisions(services, default, i) {
            Ok(_) => {},
            Err(e) => {
                proof {
                    lemma_first_complaint(s, default@, i + 1, services@.len() as int);
                }
                return Err(e);
            },
        }
        i += 1;
    }
    Ok(())
}

// ---- the configuration ----

/// The daemon's configuration.
#[derive(Debug, PartialEq, Eq)]
pub struct Config {
    pub socket_name: String,
    pub num_workers: i32,
    pub proxy_user: Option<String>,
    pub debug_level: i32,
    pub services: Vec<Service>,
}

/// What a configuration is.
pub struct ConfigModel {
    pub socket_name: Seq<char>,
    pub num_workers: i32,
    pub proxy_user: Option<Seq<char>>,
    pub debug_level: i32,
    pub services: Seq<ServiceModel>,
}

impl View for Config {
    type V = ConfigModel;

    open spec fn view(&self) -> ConfigModel {
        ConfigModel {
            socket_name: self.socket_name@,
            num_workers: self.num_workers,
            proxy_user: opt_view(self.proxy_user),
            debug_level: self.debug_level,
            services: services_view(self.services@),
        }
    }
}

/// A configured 32-bit integer, or another value where it is absent or none.
pub open spec fn int_or(v: Option<Seq<char>>, other: i32) -> i32 {
    match v {
        Some(s) => match text::integer(text::trimmed(s)) {
            Some(n) => if i32::MIN <= n <= i32::MAX {
                n as i32
            } else {
                other
            },
            None => other,
        },
        None => other,
    }
}

/// The properties of the global section, empty where there is none.
pub open spec fn global_props(d: Document) -> Props {
    match section(d, "gssproxy"@) {
        Some(p) => p,
        None => Seq::empty(),
    }
}

/// The name of the service that section `i` describes: it is called
/// `service/NAME`, and no earlier section is called so.
pub open spec fn service_name(d: Document, i: int) -> Option<Seq<char>> {
    match d[i].0 {
        Some(n) => if "service/"@.is_prefix_of(n) && is_first(d, i) {
            Some(n.skip("service/"@.len() as int))
        } else {
            None
        },
        None => None,
    }
}

/// The services of the first `n` sections, in order.
pub open spec fn services_of(d: Document, users: Seq<(Seq<char>, u32)>, n: int) -> Result<
    Seq<ServiceModel>,
    Seq<char>,
>
    decreases n,
{
    if n <= 0 {
        Ok(Seq::empty())
    } else {
        match services_of(d, users, n - 1) {
            Err(e) => Err(e),
            Ok(before) => match service_name(d, n - 1) {
                None => Ok(before),
                Some(name) => match service_model(name, d[n - 1].1, users) {
                    Err(e) => Err(e),
                    Ok(None) => Ok(before),
                    Ok(Some(m)) => Ok(before.push(m)),
                },
            },
        }
    }
}

/// The configuration that a document describes: at least one service, and no
/// complaint about the services together.
pub open spec fn config_model(
    d: Document,
    socket_name: Seq<char>,
    users: Seq<(Seq<char>, u32)>,
) -> Result<ConfigModel, Seq<char>> {
    let g = global_props(d);
    match services_of(d, users, d.len() as int) {
        Err(e) => Err(e),
        Ok(services) => if services.len() == 0 {
            Err("No service sections configured!"@)
        } else {
            match complaint(services, socket_name, services.len() as int) {
                Some(m) => Err(m),
                None => Ok(
                    ConfigModel {
                        socket_name,
                        num_workers: int_or(lookup(g, "worker threads"@), 0),
                        proxy_user: lookup(g, "run_as_user"@),
                        debug_level: int_or(
                            lookup(g, "debug_level"@),
                            if flag_set(g, "debug"@) {
                                1
                            } else {
                                0
                            },
                        ),
                        services,
                    },
                ),
            }
        },
    }
}

/// A service serves a connection: its uid (or any), its program where it names
/// one, and its socket match.
pub open spec fn serves(
    svc: ServiceModel,
    default: Seq<char>,
    uid: u32,
    socket: Seq<char>,
    program: Option<Seq<char>>,
) -> bool {
    &&& svc.any_uid || svc.euid == uid
    &&& svc.program is Some ==> program == svc.program
    &&& socket == socket_of(svc, default)
}

/// None of the first `n` services serves a connection.
pub open spec fn no_match(
    services: Seq<Service>,
    default: Seq<char>,
    uid: u32,
    socket: Seq<char>,
    program: Option<Seq<char>>,
    n: int,
) -> bool {
    forall|j: int|
        0 <= j < n ==> !serves((#[trigger] services[j])@, default, uid, socket, program)
}

/// Service `i` is the one that a connection belongs to: the first that serves it.
pub open spec fn is_match(
    services: Seq<Service>,
    default: Seq<char>,
    uid: u32,
    socket: Seq<char>,
    program: Option<Seq<char>>,
    i: int,
) -> bool {
    &&& 0 <= i < services.len()
    &&& serves(services[i]@, default, uid, socket, program)
    &&& no_match(services, default, uid, socket, program, i)
}

/// The program of a peer, if it is known.
pub open spec fn peer_view(program: Option<&str>) -> Option<Seq<char>> {
    match program {
        Some(p) => Some(p@),
        None => None,
    }
}

fn read_int(value: Option<&String>, other: i32) -> (r: i32)
    ensures
        r == int_or(
            match value {
                Some(s) => Some(s@),
                None => None,
            },
            other,
        ),
{
    match value {
        Some(s) => {
            let chars = text::chars_of(s.as_str());
            let t = text::trim(chars.as_slice());
            match text::parse_i32(t.as_slice()) {
                Some(n) => n,
                None => other,
            }
        },
        None => other,
    }
}

/// The first section with a name.
fn find_section<'a>(doc: &'a Vec<IniSection>, name: &str) -> (r: Option<&'a IniSection>)
    ensures
        match section(document_view(doc@), name@) {
            Some(p) => r matches Some(s) && props_view(s.props@) == p,
            None => r is None,
        },
{
    let ghost d = document_view(doc@);
    let mut i: usize = 0;
    assert(d.skip(0) =~= d);
    while i < doc.len()
        invariant
            i <= doc@.len(),
            d == document_view(doc@),
            section(d, name@) == section(d.skip(i as int), name@),
        decreases doc@.len() - i,
    {
        assert(d.skip(i as int)[0] == d[i as int]);
        match &doc[i].name {
            Some(n) => {
                if text::same(n.as_str(), name) {
                    return Some(&doc[i]);
                }
            },
            None => {},
        }
        assert(d.skip(i as int).skip(1) =~= d.skip(i + 1));
        i += 1;
    }
    None
}

fn first_of_name(doc: &Vec<IniSection>, i: usize) -> (r: bool)
    requires
        i < doc@.len(),
    ensures
        r == is_first(document_view(doc@), i as int),
{
    let ghost d = document_view(doc@);
    let mut j: usize = 0;
    while j < i
        invariant
            j <= i < doc@.len(),
            d == document_view(doc@),
            forall|k: int| 0 <= k < j ==> (#[trigger] d[k]).0 != d[i as int].0,
        decreases i - j,
    {
        assert(d[j as int].0 == opt_view(doc@[j as int].name));
        if same_opt(&doc[j].name, &doc[i].name) {
            return false;
        }
        j += 1;
    }
    true
}

/// The service name of a section.
fn read_service_name(doc: &Vec<IniSection>, i: usize) -> (r: Option<String>)
    requires
        i < doc@.len(),
    ensures
        opt_view(r) == service_name(document_view(doc@), i as int),
{
    proof {
        reveal_strlit("service/");
    }
    match &doc[i].name {
        None => None,
        Some(n) => {
            let chars = text::chars_of(n.as_str());
            if text::starts_with(chars.as_slice(), "service/") && first_of_name(doc, i) {
                let name = text::rest(chars.as_slice(), 8);
                Some(text::string_of(name.as_slice()))
            } else {
                None
            }
        },
    }
}

proof fn lemma_services_failed(d: Document, users: Seq<(Seq<char>, u32)>, k: int, n: int)
    requires
        0 <= k <= n,
        services_of(d, users, k) is Err,
    ensures
        services_of(d, users, n) == services_of(d, users, k),
    decreases n,
{
    if k < n {
        lemma_services_failed(d, users, k, n - 1);
    }
}

/// The users that must be known to read the first `n` sections: those that an
/// `euid` names.
pub open spec fn names_of(d: Document, n: int) -> Seq<Seq<char>>
    decreases n,
{
    if n <= 0 {
        Seq::empty()
    } else {
        let before = names_of(d, n - 1);
        match (service_name(d, n - 1), lookup(d[n - 1].1, "euid"@)) {
            (Some(_), Some(v)) => if numeric_euid(v) is None {
                before.push(text::trimmed(v))
            } else {
                before
            },
            _ => before,
        }
    }
}

impl Config {
    /// A configuration with no services, listening on `socket_name`.
    pub fn empty(socket_name: &str) -> (r: Config)
        ensures
            r@ == (ConfigModel {
                socket_name: socket_name@,
                num_workers: 0,
                proxy_user: None,
                debug_level: 0,
                services: Seq::empty(),
            }),
    {
        let r = Config {
            socket_name: socket_name.to_owned(),
            num_workers: 0,
            proxy_user: None,
            debug_level: 0,
            services: Vec::new(),
        };
        assert(r@.services =~= Seq::empty());
        r
    }

    /// The configuration that a document describes, with `socket_name` as the
    /// socket of services that do not set their own.
    pub fn from_document(
        doc: &Vec<IniSection>,
        socket_name: &str,
        users: &[(String, u32)],
    ) -> (r: Outcome<Config>)
        ensures
            match config_model(document_view(doc@), socket_name@, users_view(users@)) {
                Ok(m) => r matches Ok(c) && c@ == m,
                Err(m) => r matches Err(ConfigError::Invalid(e)) && e@ == m,
            },
    {
        let ghost d = document_view(doc@);
        let ghost u = users_view(users@);
        let none: Vec<(String, String)> = Vec::new();
        let global = match find_section(doc, "gssproxy") {
            Some(s) => &s.props,
            None => &none,
        };
        assert(props_view(none@) =~= Seq::empty());
        assert(props_view(global@) == global_props(d));
        let debug: i32 = if bool_opt(global, "debug") {
            1
        } else {
            0
        };
        let debug_level: i32 = read_int(get(global, "debug_level"), debug);
        let proxy_user = str_opt(global, "run_as_user");
        let num_workers: i32 = read_int(get(global, "worker threads"), 0);
        let mut services: Vec<Service> = Vec::new();
        let mut i: usize = 0;
        assert(services_view(services@) =~= Seq::empty());
        while i < doc.len()
            invariant
                i <= doc@.len(),
                d == document_view(doc@),
                u == users_view(users@),
                services_of(d, u, i as int) == Ok::<Seq<ServiceModel>, Seq<char>>(
                    services_view(services@),
                ),
            decreases doc@.len() - i,
        {
            assert(d[i as int].1 == props_view(doc@[i as int].props@));
            match read_service_name(doc, i) {
                None => {},
                Some(name) => match parse_service(name.as_str(), &doc[i].props, users) {
                    Err(e) => {
                        proof {
                            lemma_services_failed(d, u, i + 1, d.len() as int);
                        }
                        return Err(e);
                    },
                    Ok(None) => {},
                    Ok(Some(svc)) => {
                        let ghost before = services@;
                        services.push(svc);
                        assert(services_view(services@) =~= services_view(before).push(svc@));
                    },
                },
            }
            i += 1;
        }
        if services.len() == 0 {
            return invalid("No service sections configured!".to_owned());
        }
        match check_services(&services, socket_name) {
            Ok(_) => {},
            Err(e) => {
                return Err(e);
            },
        }
        Ok(
            Config {
                socket_name: socket_name.to_owned(),
                num_workers,
                proxy_user,
                debug_level,
                services,
            },
        )
    }

    /// The users that a document names, for the caller to look up.
    pub fn names_in_document(doc: &Vec<IniSection>) -> (r: Vec<String>)
        ensures
            strings_view(r@) == names_of(document_view(doc@), doc@.len() as int),
    {
        let ghost d = document_view(doc@);
        let mut out: Vec<String> = Vec::new();
        let mut i: usize = 0;
        assert(strings_view(out@) =~= Seq::empty());
        while i < doc.len()
            invariant
                i <= doc@.len(),
                d == document_view(doc@),
                strings_view(out@) == names_of(d, i as int),
            decreases doc@.len() - i,
        {
            assert(d[i as int].1 == props_view(doc@[i as int].props@));
            if read_service_name(doc, i).is_some() {
                match get(&doc[i].props, "euid") {
                    None => {},
                    Some(v) => {
                        if read_euid(v.as_str()).is_none() {
                            let chars = text::chars_of(v.as_str());
                            let t = text::trim(chars.as_slice());
                            let user = text::string_of(t.as_slice());
                            let ghost before = out@;
                            out.push(user);
                            assert(strings_view(out@) =~= strings_view(before).push(user@));
                        }
                    },
                }
            }
            i += 1;
        }
        out
    }

    /// The users that a configuration text names; an error where the text is
    /// not INI.
    pub fn user_names(content: &str) -> (r: Outcome<Vec<String>>)
        ensures
            match ini_document(content@) {
                Ok(d) => r matches Ok(names) && strings_view(names@) == names_of(
                    d,
                    d.len() as int,
                ),
                Err(m) => r matches Err(ConfigError::Parse(e)) && e@ == m,
            },
    {
        match load_ini(content) {
            Ok(doc) => Ok(Config::names_in_document(&doc)),
            Err(e) => Err(ConfigError::Parse(e)),
        }
    }

    /// Parse a configuration from INI text, with `socket_name` as the socket of
    /// services that do not set their own, and `users` as the users that are
    /// known.
    pub fn parse_str(content: &str, socket_name: &str, users: &[(String, u32)]) -> (r: Outcome<
        Config,
    >)
        ensures
            match ini_document(content@) {
                Ok(d) => match config_model(d, socket_name@, users_view(users@)) {
                    Ok(m) => r matches Ok(c) && c@ == m,
                    Err(m) => r matches Err(ConfigError::Invalid(e)) && e@ == m,
                },
                Err(m) => r matches Err(ConfigError::Parse(e)) && e@ == m,
            },
    {
        match load_ini(content) {
            Ok(doc) => Config::from_document(&doc, socket_name, users),
            Err(e) => Err(ConfigError::Parse(e)),
        }
    }

    /// The service that a connection belongs to: the first one that serves it.
    pub fn match_service(&self, uid: u32, socket: &str, program: Option<&str>) -> (r: Option<
        &Service,
    >)
        ensures
            match r {
                Some(svc) => exists|i: int|
                    is_match(
                        self.services@,
                        self.socket_name@,
                        uid,
                        socket@,
                        peer_view(program),
                        i,
                    ) && #[trigger] self.services@[i] == *svc,
                None => no_match(
                    self.services@,
                    self.socket_name@,
                    uid,
                    socket@,
                    peer_view(program),
                    self.services@.len() as int,
                ),
            },
    {
        let ghost peer = peer_view(program);
        let mut i: usize = 0;
        while i < self.services.len()
            invariant
                i <= self.services@.len(),
                peer == peer_view(program),
                no_match(self.services@, self.socket_name@, uid, socket@, peer, i as int),
            decreases self.services@.len() - i,
        {
            let svc = &self.services[i];
            let program_ok = match &svc.program {
                None => true,
                Some(want) => match program {
                    Some(p) => text::same(want.as_str(), p),
                    None => false,
                },
            };
            if (svc.any_uid || svc.euid == uid) && program_ok && text::same(
                socket,
                sock_of(svc, self.socket_name.as_str()),
            ) {
                assert(is_match(
                    self.services@,
                    self.socket_name@,
                    uid,
                    socket@,
                    peer,
                    i as int,
                ) && self.services@[i as int] == *svc);
                return Some(svc);
            }
            i += 1;
        }
        None
    }
}

// ---- laws ----

proof fn lemma_no_collision(s: Seq<ServiceModel>, default: Seq<char>, i: int, j: int, n: int)
    requires
        0 <= j < n,
        collision(s, default, i, n) is None,
        alike(s[i], s[j], default),
    ensures
        !s[j].any_uid,
        s[j].euid != s[i].euid,
    decreases n,
{
    if j < n - 1 {
        lemma_no_collision(s, default, i, j, n - 1);
    }
}

proof fn lemma_no_complaint(s: Seq<ServiceModel>, default: Seq<char>, i: int, n: int)
    requires
        0 <= i < n,
        complaint(s, default, n) is None,
    ensures
        bad_program(s[i].program) is None,
        collision(s, default, i, i) is None,
    decreases n,
{
    if i < n - 1 {
        lemma_no_complaint(s, default, i, n - 1);
    }
}

/// In an accepted configuration, two services that listen for the same program
/// in the same context on the same socket have different uids, and the earlier
/// one does not take every uid.
pub proof fn accepted_services_do_not_collide(
    d: Document,
    socket_name: Seq<char>,
    users: Seq<(Seq<char>, u32)>,
    i: int,
    j: int,
)
    requires
        config_model(d, socket_name, users) is Ok,
        0 <= j < i < config_model(d, socket_name, users)->Ok_0.services.len(),
        alike(
            config_model(d, socket_name, users)->Ok_0.services[i],
            config_model(d, socket_name, users)->Ok_0.services[j],
            socket_name,
        ),
    ensures
        ({
            let s = config_model(d, socket_name, users)->Ok_0.services;
            s[i].euid != s[j].euid && !s[j].any_uid
        }),
{
    let s = config_model(d, socket_name, users)->Ok_0.services;
    lemma_no_complaint(s, socket_name, i, s.len() as int);
    lemma_no_collision(s, socket_name, i, j, i);
}

/// An accepted configuration has a service, and the programs it names are
/// absolute paths without bars.
pub proof fn accepted_programs_are_absolute(
    d: Document,
    socket_name: Seq<char>,
    users: Seq<(Seq<char>, u32)>,
    i: int,
)
    requires
        config_model(d, socket_name, users) is Ok,
        0 <= i < config_model(d, socket_name, users)->Ok_0.services.len(),
    ensures
        ({
            let s = config_model(d, socket_name, users)->Ok_0.services;
            &&& s.len() > 0
            &&& s[i].program matches Some(p) ==> p.len() > 0 && p[0] == '/' && text::position(
                p,
                '|',
            ) is None
        }),
{
    let s = config_model(d, socket_name, users)->Ok_0.services;
    lemma_no_complaint(s, socket_name, i, s.len() as int);
}

proof fn lemma_services_have_krb5(d: Document, users: Seq<(Seq<char>, u32)>, n: int, i: int)
    requires
        services_of(d, users, n) is Ok,
        0 <= i < services_of(d, users, n)->Ok_0.len(),
    ensures
        services_of(d, users, n)->Ok_0[i].mechs == GP_CRED_KRB5,
    decreases n,
{
    if n > 0 {
        let before = services_of(d, users, n - 1)->Ok_0;
        if i < before.len() {
            lemma_services_have_krb5(d, users, n - 1, i);
        }
    }
}

/// Every accepted service offers krb5.
pub proof fn accepted_services_offer_krb5(
    d: Document,
    socket_name: Seq<char>,
    users: Seq<(Seq<char>, u32)>,
    i: int,
)
    requires
        config_model(d, socket_name, users) is Ok,
        0 <= i < config_model(d, socket_name, users)->Ok_0.services.len(),
    ensures
        config_model(d, socket_name, users)->Ok_0.services[i].mechs == GP_CRED_KRB5,
{
    lemma_services_have_krb5(d, users, d.len() as int, i);
}

} // verus!
