use hypo::crypto::github::{gpg_key_fingerprints, gpg_keys_url};
use sequoia_openpgp::cert::CertBuilder;
use sequoia_openpgp::serialize::SerializeInto;

#[test]
fn published_key_fingerprints() {
    let (cert, _) = CertBuilder::new().add_userid("dev@hypo.example").generate().unwrap();
    let armored = String::from_utf8(cert.armored().to_vec().unwrap()).unwrap();
    let raw = vec![None, Some("not a key".to_string()), Some(armored)];
    let fps = gpg_key_fingerprints(&raw);
    assert_eq!(fps, vec![cert.fingerprint().to_hex()]);
    assert_eq!(fps[0].len(), 40);
    assert!(gpg_key_fingerprints(&[]).is_empty());
}

#[test]
fn github_keys_endpoint() {
    assert_eq!(gpg_keys_url("alice"), "https://api.github.com/users/alice/gpg_keys");
}
