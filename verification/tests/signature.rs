use hmac::{Hmac, Mac};
use sha2::Sha256;
use zeroclaw::signature::{signature_bytes, verify_github_signature};

const CODE: &str = "d1f96733267a7156dcae7369df003e6b8da948d0d997d2e38147b80703b09219";

#[test]
fn verify_signature_accepts_valid_signature() {
    let secret = "github-webhook-secret";
    let body = br#"{"action":"created"}"#;
    let mut mac = Hmac::<Sha256>::new_from_slice(secret.as_bytes()).unwrap();
    mac.update(body);
    let signature = format!("sha256={}", hex::encode(mac.finalize().into_bytes()));

    assert!(verify_github_signature(secret, body, &signature));
}

#[test]
fn verify_signature_rejects_invalid_signature() {
    assert!(!verify_github_signature(
        "github-webhook-secret",
        br#"{"action":"created"}"#,
        "sha256=deadbeef"
    ));
}

#[test]
fn the_signature_is_that_of_the_body_under_the_secret() {
    let verify = |secret: &str, body: &[u8], header: &str| {
        verify_github_signature(secret, body, header)
    };
    let secret = "github-webhook-secret";
    let body = br#"{"action":"created"}"#;
    assert!(verify(secret, body, &format!("sha256={}", CODE)));
    assert!(verify(secret, body, &format!(" sha256= {} ", CODE)));
    assert!(verify(secret, body, &format!("\t{}", CODE.to_uppercase())));
    assert!(!verify("other", body, CODE));
    assert!(!verify(secret, b"{}", CODE));
    assert!(!verify(secret, body, &CODE[..62]));
    assert!(!verify(secret, body, &CODE[..63]));
    assert!(!verify(secret, body, &format!("sha1={}", CODE)));
    assert!(!verify(secret, body, &format!("sha256={}zz", &CODE[..62])));
    assert!(!verify(secret, body, ""));
}

#[test]
fn only_whole_signatures_are_accepted() {
    let body = br#"{"action":"created"}"#;
    for header in ["", "sha256=", "sha256=deadbeef", "sha256=xyz", "00"] {
        assert!(!verify_github_signature("github-webhook-secret", body, header));
    }
    for n in 0..CODE.len() {
        assert!(!verify_github_signature("github-webhook-secret", body, &CODE[..n]));
    }
    let longer = format!("{}00", CODE);
    assert!(!verify_github_signature("github-webhook-secret", body, &longer));
}

#[test]
fn signatures_are_told_from_other_texts() {
    assert_eq!(signature_bytes(" sha256= DEadbeef "), Some(vec![0xde, 0xad, 0xbe, 0xef]));
    assert_eq!(signature_bytes("0a"), Some(vec![10]));
    assert_eq!(signature_bytes("sha256="), Some(vec![]));
    assert_eq!(signature_bytes("sha256=abc"), None);
    assert_eq!(signature_bytes("sha1=abcd"), None);
}
