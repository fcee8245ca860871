//! Sealing, credential caches and statuses.

use gssproxy::consts::{
    EINVAL, EIO, EMSGSIZE, ENOENT, ENOSPC, ENOSYS, ENOTSUP, EACCES, ENOMEM, EPERM,
    GSS_S_NAME_NOT_MN, GSS_S_UNAVAILABLE,
};
use gssproxy::gssapi::ccache::{
    begin_store, cache_type, check_names, names_file, retrieve_remote_cred, store_into_ccache,
    store_remote_cred, CacheStep, GPKRB_MAX_CRED_SIZE, KRB5_CC_NOTFOUND,
};
use gssproxy::gssapi::seal::{
    check, derive_from_keytab, put_padding, seal, unseal, CredHandle, SealStep, ENC_MIN_PAD_LEN, PROBES,
};
use gssproxy::gssapi::wrap::{
    check as check_status, exported, exported_composite, is_error, join, GssError, StatusMessages,
};

#[test]
fn error_numbers_are_those_of_the_system() {
    assert_eq!(EPERM, libc::EPERM);
    assert_eq!(ENOENT, libc::ENOENT);
    assert_eq!(EIO, libc::EIO);
    assert_eq!(ENOMEM, libc::ENOMEM);
    assert_eq!(EACCES, libc::EACCES);
    assert_eq!(EINVAL, libc::EINVAL);
    assert_eq!(ENOSPC, libc::ENOSPC);
    assert_eq!(ENOSYS, libc::ENOSYS);
    assert_eq!(EMSGSIZE, libc::EMSGSIZE);
    assert_eq!(ENOTSUP, libc::ENOTSUP);
}

// ---- sealing ----

/// The length of a cipher text, of a cipher whose texts grow in blocks of this size.
fn cipher_length(len: usize, block: usize) -> usize {
    len.div_ceil(block) * block + 28
}

/// Learn the lengths that sealing asks for.
fn plan(len: usize, block: usize) -> (u8, usize) {
    let mut known = vec![];
    loop {
        match seal(&known) {
            SealStep::Probe(n) => known.push(cipher_length(n, block)),
            SealStep::Length(more) => known.push(cipher_length(len + more, block)),
            SealStep::Encrypt { pad, cipherlen } => {
                assert!(known.len() <= 19);
                return (pad, cipherlen);
            }
        }
    }
}

/// The lengths that are probed for, which unsealing goes by.
fn probes(block: usize) -> Vec<usize> {
    let mut known = vec![];
    while let SealStep::Probe(n) = seal(&known) {
        known.push(cipher_length(n, block));
    }
    assert_eq!(known.len(), PROBES);
    known
}

fn texts() -> Vec<Vec<u8>> {
    [0usize, 1, 7, 8, 15, 16, 17, 31, 100, 1000]
        .iter()
        .map(|len| (0..*len).map(|i| (i * 7 + 3) as u8).collect())
        .collect()
}

#[test]
fn unpadded_texts_come_back() {
    let mut all = texts();
    // These end in what would be padding.
    all.push(vec![8; 16]);
    all.push(vec![16; 32]);
    for plain in all {
        let (pad, cipherlen) = plan(plain.len(), 1);
        assert_eq!(pad, 0);
        assert_eq!(cipherlen, plain.len() + 28);
        let opened = unseal(&probes(1), put_padding(&plain, pad));
        assert_eq!(opened, plain, "round trip mismatch at len {}", plain.len());
    }
}

#[test]
fn padded_texts_come_back() {
    let mut all = texts();
    all.push(vec![8; 16]);
    all.push(vec![8]);
    for block in [2, 8, 16] {
        for plain in &all {
            let (pad, cipherlen) = plan(plain.len(), block);
            assert!(pad >= ENC_MIN_PAD_LEN);
            let padded = put_padding(plain, pad);
            assert!(padded.len() + 28 <= cipherlen);
            let opened = unseal(&probes(block), padded);
            assert_eq!(&opened, plain, "{} in blocks of {block}", plain.len());
        }
    }
}

#[test]
fn padding_fills_the_block() {
    // Twenty bytes leave twelve in their block: the least padding takes eight of
    // them, and the four others still fit there.
    assert_eq!(plan(20, 16), (ENC_MIN_PAD_LEN + 4, 60));
    // A text that ends its block is padded with a whole one.
    assert_eq!(plan(16, 16), (16, 60));
    assert_eq!(plan(0, 8), (8, 36));
    assert_eq!(put_padding(b"ab", 3), b"ab\x03\x03\x03");
}

#[test]
fn only_padding_is_taken_off() {
    let known = probes(8);
    assert_eq!(unseal(&known, vec![]), vec![]);
    let mut data = vec![1, 2];
    data.extend_from_slice(&[8; 8]);
    assert_eq!(unseal(&known, data.clone()), vec![1, 2]);
    // There is none where the cipher does not pad.
    assert_eq!(unseal(&probes(1), data.clone()), data);
    // One of the bytes differs.
    data[3] = 7;
    assert_eq!(unseal(&known, data.clone()), data);
    // Nothing but padding, and too little padding.
    assert_eq!(unseal(&known, vec![8; 9]), vec![8]);
    assert_eq!(unseal(&known, vec![8; 8]), vec![]);
    assert_eq!(unseal(&known, vec![9; 8]), vec![9; 8]);
    assert_eq!(unseal(&known, vec![1, 2, 3, 4, 2, 2]), vec![1, 2, 3, 4, 2, 2]);
}

#[test]
fn key_of_a_permitted_type_is_taken() {
    let entries = vec![(3, vec![1]), (18, vec![2]), (17, vec![3])];
    assert_eq!(derive_from_keytab(&entries, &[17, 18]), Some((18, vec![2])));
    assert_eq!(derive_from_keytab(&entries, &[23]), None);
    let h = CredHandle::new(Some((18, vec![2])), Some((1, vec![]))).unwrap();
    assert_eq!((h.enctype, h.key), (18, vec![2]));
    let h = CredHandle::new(None, Some((1, vec![9]))).unwrap();
    assert_eq!(h.enctype, 1);
    let e = CredHandle::new(None, None).unwrap_err();
    assert_eq!(e.message(), "key derivation failed (krb5 error 0)");
    assert!(check(0, "x").is_ok());
    assert_eq!(
        check(-7, "krb5_c_encrypt").unwrap_err().message(),
        "krb5_c_encrypt failed (krb5 error -7)"
    );
}

// ---- credential caches ----

#[test]
fn credentials_that_can_be_kept() {
    assert_eq!(store_remote_cred(b"me", b"ticket"), Ok(()));
    assert_eq!(store_remote_cred(b"m\0e", b"ticket"), Err(EINVAL));
    assert_eq!(
        store_remote_cred(b"me", &vec![0; GPKRB_MAX_CRED_SIZE + 1]),
        Err(ENOSPC)
    );
    assert_eq!(store_remote_cred(b"me", &vec![0; GPKRB_MAX_CRED_SIZE]), Ok(()));
    assert_eq!(check_names(Some(b"FILE:/x"), None), Ok(()));
    assert_eq!(check_names(Some(b"FILE:\0"), None), Err(EINVAL));
    assert_eq!(check_names(None, Some(b"\0")), Err(EINVAL));
    assert_eq!(retrieve_remote_cred(5, vec![1]), Err(5));
    assert_eq!(retrieve_remote_cred(0, vec![]), Err(EIO));
    assert_eq!(retrieve_remote_cred(0, vec![1]), Ok(vec![1]));
}

fn steps(cc: &[u8], as_default: bool, codes: &[i32]) -> Vec<CacheStep> {
    let mut all = vec![begin_store(cc)];
    for code in codes {
        all.push(store_into_ccache(cc, as_default, all[all.len() - 1], *code));
    }
    all
}

#[test]
fn storing_into_a_file_and_a_collection() {
    assert!(names_file(b"FILE:/tmp/x") && names_file(b"/tmp/x") && !names_file(b"DIR:/tmp"));
    assert_eq!(cache_type(b"KEYRING:user"), b"KEYRING");
    assert_eq!(cache_type(b"plain"), b"plain");
    assert_eq!(
        steps(b"FILE:/x", true, &[0, 0, 0]),
        [CacheStep::Default, CacheStep::Initialize, CacheStep::Store, CacheStep::Done(0)]
    );
    assert_eq!(
        steps(b"DIR:/x", true, &[0, 0, 0]),
        [CacheStep::Match, CacheStep::Store, CacheStep::Switch, CacheStep::Done(0)]
    );
    assert_eq!(
        steps(b"DIR:/x", false, &[KRB5_CC_NOTFOUND, 0, 0, 0]),
        [
            CacheStep::Match,
            CacheStep::NewUnique,
            CacheStep::Initialize,
            CacheStep::Store,
            CacheStep::Done(0)
        ]
    );
    assert_eq!(steps(b"DIR:/x", false, &[9]), [CacheStep::Match, CacheStep::Done(9)]);
    assert_eq!(
        steps(b"/x", false, &[0, 4, 0]),
        [CacheStep::Default, CacheStep::Initialize, CacheStep::Done(4), CacheStep::Done(4)]
    );
}

// ---- statuses ----

#[test]
fn errors_are_told_from_other_statuses() {
    assert!(!is_error(0) && !is_error(1) && is_error(0x0001_0000) && is_error(0x0100_0000));
    assert!(check_status(1, 2, vec![]).is_ok());
    let e = check_status(0x000d_0000, 22, vec!["a".to_string(), "b".to_string()]).unwrap_err();
    assert_eq!(e.message(), "gssapi error (major=0x000d0000 minor=22): a, b");
    let plain = GssError { major: 0xffff_abcd, minor: 0, messages: vec![] };
    assert_eq!(plain.message(), "gssapi error (major=0xffffabcd minor=0): ");
    assert_eq!(join(&[]), "");
}

#[test]
fn messages_are_collected_until_they_end() {
    let mut m = StatusMessages { messages: vec![] };
    assert!(m.take(0, "first".to_string(), 1));
    assert!(!m.take(0, "second".to_string(), 0));
    assert!(!m.take(0x000d_0000, "lost".to_string(), 1));
    assert_eq!(m.messages, ["first", "second"]);
}

#[test]
fn names_without_an_exported_form() {
    assert_eq!(exported(0, 0, vec![], vec![1]).unwrap(), Some(vec![1]));
    assert_eq!(exported(GSS_S_NAME_NOT_MN, 0, vec![], vec![]).unwrap(), None);
    assert!(exported(GSS_S_UNAVAILABLE, 0, vec![], vec![]).is_err());
    assert_eq!(exported_composite(GSS_S_UNAVAILABLE, 0, vec![], vec![]).unwrap(), None);
    assert_eq!(exported_composite(GSS_S_NAME_NOT_MN, 0, vec![], vec![]).unwrap(), None);
    assert!(exported_composite(0x000d_0000, 0, vec![], vec![]).is_err());
}
