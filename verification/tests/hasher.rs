use topbanana::server::requests::hasher::{
    RequestSigningHasher, SecurityLevel, Sha1Hasher, Sha256Hasher,
};
use topbanana::server::requests::RequestAlgorithm;

fn hex(bytes: &[u8]) -> String {
    let mut text = String::new();
    for byte in bytes {
        text.push_str(&format!("{:02x}", byte));
    }
    text
}

#[test]
fn sha256_of_abc_is_the_published_digest() {
    let digest = Sha256Hasher.apply_hash("abc");
    assert_eq!(
        hex(&digest),
        "ba7816bf8f01cfea414140de5dae2223b00361a396177a9cb410ff61f20015ad"
    );
}

#[test]
fn sha1_of_abc_is_the_published_digest() {
    let digest = Sha1Hasher.apply_hash("abc");
    assert_eq!(hex(&digest), "a9993e364706816aba3e25717850c26c9cd0d89d");
}

#[test]
fn sha256_of_the_empty_text() {
    let digest = Sha256Hasher.apply_hash("");
    assert_eq!(
        hex(&digest),
        "e3b0c44298fc1c149afbf4c8996fb92427ae41e4649b934ca495991b7852b855"
    );
    assert_eq!(digest.len(), 32);
}

#[test]
fn sha1_digest_has_twenty_bytes() {
    assert_eq!(Sha1Hasher.apply_hash("anything").len(), 20);
}

#[test]
fn digests_hash_the_utf8_bytes_of_a_text() {
    // U+00E9 is two bytes in UTF-8; the digest is that of the bytes c3 a9.
    let digest = Sha256Hasher.apply_hash("\u{e9}");
    assert_eq!(
        hex(&digest),
        "4a99557e4033c3539de2eb65472017cad5f9557f7a0625a09f1c3f6e2ba69c4c"
    );
}

#[test]
fn hashers_report_their_levels() {
    assert_eq!(Sha256Hasher.security_level(), SecurityLevel::High);
    assert_eq!(Sha1Hasher.security_level(), SecurityLevel::Low);
}

#[test]
fn levels_have_the_ordinals_zero_and_ten() {
    assert_eq!(i32::from(SecurityLevel::Low), 0);
    assert_eq!(i32::from(SecurityLevel::High), 10);
}

#[test]
fn levels_are_read_back_from_their_ordinals() {
    assert_eq!(SecurityLevel::try_from(0).unwrap(), SecurityLevel::Low);
    assert_eq!(SecurityLevel::try_from(10).unwrap(), SecurityLevel::High);
}

#[test]
fn other_integers_are_no_level() {
    assert!(SecurityLevel::try_from(1).is_err());
    assert!(SecurityLevel::try_from(-1).is_err());
    assert!(SecurityLevel::try_from(9).is_err());
    assert!(SecurityLevel::try_from(11).is_err());
    assert!(SecurityLevel::try_from(i32::MAX).is_err());
}

#[test]
fn the_default_level_is_high() {
    assert_eq!(SecurityLevel::default(), SecurityLevel::High);
}

#[test]
fn low_orders_before_high() {
    assert!(SecurityLevel::Low < SecurityLevel::High);
}

#[test]
fn tags_name_the_two_algorithms() {
    assert_eq!(RequestAlgorithm::from_tag("sha1"), Some(RequestAlgorithm::Sha1));
    assert_eq!(RequestAlgorithm::from_tag("sha256"), Some(RequestAlgorithm::Sha256));
}

#[test]
fn unknown_tags_name_no_algorithm() {
    assert_eq!(RequestAlgorithm::from_tag("md5"), None);
    assert_eq!(RequestAlgorithm::from_tag("SHA256"), None);
    assert_eq!(RequestAlgorithm::from_tag("sha2560"), None);
    assert_eq!(RequestAlgorithm::from_tag("sha"), None);
    assert_eq!(RequestAlgorithm::from_tag(""), None);
}

#[test]
fn each_algorithm_has_its_hasher() {
    let legacy = RequestAlgorithm::Sha1.into_hasher();
    let strong = RequestAlgorithm::Sha256.into_hasher();
    assert_eq!(legacy.security_level(), SecurityLevel::Low);
    assert_eq!(strong.security_level(), SecurityLevel::High);
    assert_eq!(legacy.apply_hash("abc"), Sha1Hasher.apply_hash("abc"));
    assert_eq!(strong.apply_hash("abc"), Sha256Hasher.apply_hash("abc"));
}
