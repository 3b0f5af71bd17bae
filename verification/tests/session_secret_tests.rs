use base64::Engine;
use chrono::{DateTime, TimeDelta, Utc};
use p256::ecdsa::signature::Signer;
use p256::pkcs8::EncodePublicKey;
use crates_io_logic::notifications::group_notifications;
use crates_io_logic::text::str_less;
use crates_io_logic::publish::tarball_checksum;
use crates_io_logic::secret_scanning::{
    check_signature, decode_signature, missing_header_message, verify_alert_signature,
    SignatureError,
    api_token_verdict, is_cache_valid, select_signing_key, trustpub_token_verdict,
    GitHubPublicKey, GitHubSecretAlertFeedbackLabel, SigningKeyError,
    TrustedPublishingTokenExposedEmail,
};
use crates_io_logic::session::{
    after_read_only_lookup, after_save_failure, after_update, decide_pending_signup,
    invalid_state_message, oauth_state_matches, AfterFailure, AfterUpdate, GitHubUser,
    PendingSignup, SignupDecision, SignupRefusal, StoredSignup, UpdateResult,
    PENDING_SIGNUP_ERROR,
};
use crates_io_logic::time::UtcTime;

fn time(dt: DateTime<Utc>) -> UtcTime {
    UtcTime::from_parts(dt.timestamp(), dt.timestamp_subsec_nanos()).unwrap()
}

fn utc_now() -> DateTime<Utc> {
    let d = std::time::SystemTime::now()
        .duration_since(std::time::UNIX_EPOCH)
        .unwrap();
    DateTime::from_timestamp(d.as_secs() as i64, d.subsec_nanos()).unwrap()
}

fn github_user() -> GitHubUser {
    GitHubUser {
        avatar_url: Some("https://avatars.example.com/42".into()),
        email: Some("ghost@example.com".into()),
        id: 42,
        login: "ghost".into(),
        name: Some("Ghost".into()),
    }
}

#[test]
fn pending_signup_expires_after_thirty_minutes() {
    let now = utc_now();
    let pending_signup = PendingSignup {
        github_user: github_user(),
        encrypted_token: vec![1, 2, 3],
        created_at: time(now - TimeDelta::minutes(30)),
    };

    assert!(pending_signup.is_expired(&time(now)));
}

#[test]
fn pending_signup_is_valid_before_thirty_minutes() {
    let now = utc_now();
    let pending_signup = PendingSignup {
        github_user: github_user(),
        encrypted_token: vec![1, 2, 3],
        created_at: time(now - TimeDelta::minutes(29)),
    };

    assert!(!pending_signup.is_expired(&time(now)));
}

#[test]
fn pending_signup_decisions() {
    let now = utc_now();
    let fresh = || {
        PendingSignup::new(github_user(), vec![1], time(now - TimeDelta::minutes(1)))
    };
    let stale = || {
        PendingSignup::new(github_user(), vec![1], time(now - TimeDelta::minutes(31)))
    };
    let t = time(now);

    assert!(matches!(
        decide_pending_signup(false, false, StoredSignup::Present(fresh()), &t),
        SignupDecision::Refuse { refusal: SignupRefusal::Disabled, clear: false }
    ));
    assert!(matches!(
        decide_pending_signup(true, true, StoredSignup::Present(fresh()), &t),
        SignupDecision::Refuse { refusal: SignupRefusal::AlreadySignedIn, clear: false }
    ));
    assert!(matches!(
        decide_pending_signup(true, false, StoredSignup::Absent, &t),
        SignupDecision::Refuse { refusal: SignupRefusal::Missing, clear: false }
    ));
    assert!(matches!(
        decide_pending_signup(true, false, StoredSignup::Malformed, &t),
        SignupDecision::Refuse { refusal: SignupRefusal::Missing, clear: true }
    ));
    assert!(matches!(
        decide_pending_signup(true, false, StoredSignup::Present(stale()), &t),
        SignupDecision::Refuse { refusal: SignupRefusal::Missing, clear: true }
    ));
    match decide_pending_signup(true, false, StoredSignup::Present(fresh()), &t) {
        SignupDecision::Proceed(p) => assert_eq!(p.github_user, github_user()),
        SignupDecision::Refuse { .. } => panic!("expected the pending signup to proceed"),
    }
    assert_eq!(SignupRefusal::Disabled.message(), None);
    assert_eq!(
        SignupRefusal::AlreadySignedIn.message().unwrap(),
        "You are already signed in."
    );
    assert_eq!(SignupRefusal::Missing.message().unwrap(), PENDING_SIGNUP_ERROR);
}

#[test]
fn oauth_state_check() {
    assert!(oauth_state_matches(&Some("abc".to_string()), "abc"));
    assert!(!oauth_state_matches(&Some("abc".to_string()), "abd"));
    assert!(!oauth_state_matches(&None, "abc"));
    assert_eq!(invalid_state_message(), "invalid state parameter");
}

#[test]
fn saving_github_users() {
    assert_eq!(after_update(UpdateResult::Updated(3), true), AfterUpdate::Done(Some(3)));
    assert_eq!(after_update(UpdateResult::NotFound, true), AfterUpdate::Done(None));
    assert_eq!(after_update(UpdateResult::NotFound, false), AfterUpdate::CreateUser);
    assert_eq!(after_update(UpdateResult::Failed, false), AfterUpdate::Fail);
    assert_eq!(after_save_failure(true), AfterFailure::LookUp);
    assert_eq!(after_save_failure(false), AfterFailure::Fail);
    assert_eq!(after_read_only_lookup(Some(4), false), Ok(Some(4)));
    assert_eq!(after_read_only_lookup(None, true), Ok(None));
    assert_eq!(after_read_only_lookup(None, false), Err(()));
}

#[test]
fn test_is_cache_valid() {
    let lifetime = TimeDelta::hours(24);
    let now = utc_now();
    let t = time(now);
    assert!(!is_cache_valid(None, &t));
    assert!(!is_cache_valid(Some(time(now - lifetime)), &t));
    assert!(is_cache_valid(
        Some(time(now - (lifetime - TimeDelta::seconds(1)))),
        &t
    ));
    assert!(is_cache_valid(Some(time(now)), &t));
    // shouldn't happen, but just in case of time travel
    assert!(is_cache_valid(Some(time(now + lifetime)), &t));
}

fn key(id: &str, current: bool) -> GitHubPublicKey {
    GitHubPublicKey {
        key_identifier: id.to_string(),
        key: format!("key {id}"),
        is_current: current,
    }
}

#[test]
fn signing_key_selection() {
    let keys = vec![key("a", false), key("b", true), key("b", false)];
    assert_eq!(select_signing_key(&keys, "b").unwrap().key, "key b");
    let e = select_signing_key(&keys, "a").unwrap_err();
    assert_eq!(e, SigningKeyError::NotCurrent("a".to_string()));
    assert_eq!(e.message(), "key id a is not a current key");
    let e = select_signing_key(&keys, "c").unwrap_err();
    assert_eq!(e.message(), "unknown key id c");
}

#[test]
fn token_verdicts() {
    assert_eq!(
        api_token_verdict(None),
        (false, GitHubSecretAlertFeedbackLabel::FalsePositive)
    );
    assert_eq!(
        api_token_verdict(Some(false)),
        (true, GitHubSecretAlertFeedbackLabel::TruePositive)
    );
    assert_eq!(
        api_token_verdict(Some(true)),
        (false, GitHubSecretAlertFeedbackLabel::TruePositive)
    );
    assert_eq!(trustpub_token_verdict(true), GitHubSecretAlertFeedbackLabel::TruePositive);
    assert_eq!(trustpub_token_verdict(false), GitHubSecretAlertFeedbackLabel::FalsePositive);
}

#[test]
fn exposed_token_email() {
    let email = TrustedPublishingTokenExposedEmail {
        domain: "crates.io".to_string(),
        reporter: "GitHub".to_string(),
        source: "commit".to_string(),
        crate_names: vec!["foo".to_string()],
        url: String::new(),
    };
    assert_eq!(
        email.subject(),
        "crates.io: Your Trusted Publishing token has been revoked"
    );
    let body = email.body();
    assert!(body.starts_with("GitHub has notified us"));
    assert!(body.contains("This token was only authorized to publish the \"foo\" crate."));
    assert!(body.contains("We were not informed of the URL where the token was found."));

    let email = TrustedPublishingTokenExposedEmail {
        crate_names: vec!["foo".to_string(), "bar".to_string()],
        url: "https://example.com/leak".to_string(),
        ..email
    };
    let body = email.body();
    assert!(body.contains(
        "This token was authorized to publish the following crates: \"foo\", \"bar\"."
    ));
    assert!(body.contains("URL where the token was found: https://example.com/leak"));
}

fn signing_key() -> p256::ecdsa::SigningKey {
    let mut bytes = [0u8; 32];
    bytes[31] = 7;
    p256::ecdsa::SigningKey::from_bytes(&bytes.into()).unwrap()
}

fn pem_of(key: &p256::ecdsa::SigningKey) -> String {
    p256::PublicKey::from(key.verifying_key())
        .to_public_key_pem(p256::pkcs8::LineEnding::LF)
        .unwrap()
}

fn signature_header(key: &p256::ecdsa::SigningKey, body: &[u8]) -> Vec<u8> {
    let sig: p256::ecdsa::Signature = key.sign(body);
    base64::engine::general_purpose::STANDARD
        .encode(sig.to_der().as_bytes())
        .into_bytes()
}

#[test]
fn alert_signatures_are_verified_with_the_current_key() {
    let key = signing_key();
    let body = br#"[{"token":"cio123","type":"cratesio_token","url":"","source":"commit"}]"#;
    let header = signature_header(&key, body);
    let keys = vec![
        GitHubPublicKey { key_identifier: "old".into(), key: pem_of(&key), is_current: false },
        GitHubPublicKey { key_identifier: "cur".into(), key: pem_of(&key), is_current: true },
        GitHubPublicKey { key_identifier: "bad".into(), key: "not a key".into(), is_current: true },
    ];
    assert_eq!(verify_alert_signature(&keys, "cur", &header, body), Ok(()));

    // the signature must match the body
    let e = verify_alert_signature(&keys, "cur", &header, b"[]").unwrap_err();
    assert!(matches!(e, SignatureError::Invalid(_)));
    assert!(e.message().starts_with("invalid signature: "));

    assert_eq!(
        verify_alert_signature(&keys, "old", &header, body).unwrap_err().message(),
        "key id old is not a current key"
    );
    assert_eq!(
        verify_alert_signature(&keys, "new", &header, body).unwrap_err().message(),
        "unknown key id new"
    );
    assert_eq!(
        verify_alert_signature(&keys, "bad", &header, body),
        Err(SignatureError::PublicKey)
    );
    assert_eq!(SignatureError::PublicKey.message(), "cannot parse public key");

    let der = decode_signature(&header).unwrap();
    assert_eq!(check_signature(&keys, "cur", &der, body), Ok(()));
}

#[test]
fn malformed_signature_headers() {
    let e = decode_signature(b"%%%").unwrap_err();
    assert!(matches!(e, SignatureError::Base64(_)));
    assert!(e.message().starts_with("failed to decode signature as base64: "));
    // valid base64 that is not DER
    let e = decode_signature(b"AAAA").unwrap_err();
    assert!(matches!(e, SignatureError::Der(_)));
    assert!(e.message().starts_with("failed to parse signature from ASN.1 DER: "));
    assert_eq!(
        missing_header_message("GITHUB-PUBLIC-KEY-SIGNATURE"),
        "missing HTTP header: GITHUB-PUBLIC-KEY-SIGNATURE"
    );
}

#[test]
fn exposure_notifications_are_grouped_by_address() {
    let rows = vec![
        (1, "b@example.com".to_string()),
        (2, "a@example.com".to_string()),
        (3, "b@example.com".to_string()),
        (1, "a@example.com".to_string()),
        (9, "c@example.com".to_string()),
        (3, "b@example.com".to_string()),
    ];
    let names = vec![
        (1, "zeta".to_string()),
        (2, "alpha".to_string()),
        (3, "mid".to_string()),
    ];
    let g = group_notifications(&rows, &names);
    assert_eq!(
        g,
        vec![
            ("a@example.com".to_string(), vec!["alpha".to_string(), "zeta".to_string()]),
            ("b@example.com".to_string(), vec!["mid".to_string(), "zeta".to_string()]),
        ]
    );
    assert!(group_notifications(&vec![], &names).is_empty());
}

#[test]
fn text_order_is_that_of_strings() {
    let samples = ["", "a", "ab", "b", "B", "é", "e", "z", "\u{10000}", "\u{ffff}", "aa"];
    for a in samples {
        for b in samples {
            assert_eq!(str_less(a, b), a < b, "{a:?} {b:?}");
        }
    }
}

#[test]
fn tarball_checksums() {
    assert_eq!(
        tarball_checksum(b""),
        "e3b0c44298fc1c149afbf4c8996fb92427ae41e4649b934ca495991b7852b855"
    );
    assert_eq!(
        tarball_checksum(b"abc"),
        "ba7816bf8f01cfea414140de5dae2223b00361a396177a9cb410ff61f20015ad"
    );
}
