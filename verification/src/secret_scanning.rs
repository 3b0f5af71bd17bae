//! GitHub secret scanning: the cache of GitHub's public keys, the choice of
//! the signing key, the verdicts on reported tokens, and the notification
//! sent when a Trusted Publishing token is exposed.
use crate::text::{join, join_strings, owned, push_str, str_eq};
use crate::time::{UtcTime, MAX_SECS};
use base64::Engine;
use vstd::prelude::*;

verus! {

/// Minimum time before the cache of GitHub's public keys is refreshed: 24
/// hours, in nanoseconds.
pub const PUBLIC_KEY_CACHE_LIFETIME_NANOS: i128 = 86_400_000_000_000;

/// Whether the cache of public keys, filled at `timestamp`, is populated and
/// not expired at `now`.
pub fn is_cache_valid(timestamp: Option<UtcTime>, now: &UtcTime) -> (r: bool)
    requires
        timestamp matches Some(t) ==> t.seconds() + 86400 <= MAX_SECS,
    ensures
        r == match timestamp {
            Some(t) => now.total_nanos() < t.total_nanos() + PUBLIC_KEY_CACHE_LIFETIME_NANOS,
            None => false,
        },
{
    match timestamp {
        Some(t) => now.nanos_since(&t) < PUBLIC_KEY_CACHE_LIFETIME_NANOS,
        None => false,
    }
}

/// A public key that GitHub signs secret-scanning alerts with.
#[derive(Debug, Clone, PartialEq, Eq)]
pub struct GitHubPublicKey {
    pub key_identifier: String,
    pub key: String,
    pub is_current: bool,
}

/// Why an alert's signature key is refused (a `400 Bad Request`).
#[derive(Debug, Clone, PartialEq, Eq)]
pub enum SigningKeyError {
    /// No key has the identifier of the request.
    UnknownKey(String),
    /// The key is no longer current.
    NotCurrent(String),
}

impl SigningKeyError {
    pub fn message(&self) -> (s: String)
        ensures
            s@ == match self {
                SigningKeyError::UnknownKey(id) => "unknown key id "@ + id@,
                SigningKeyError::NotCurrent(id) => "key id "@ + id@ + " is not a current key"@,
            },
    {
        match self {
            SigningKeyError::UnknownKey(id) => {
                let mut s = owned("unknown key id ");
                push_str(&mut s, id.as_str());
                s
            },
            SigningKeyError::NotCurrent(id) => {
                let mut s = owned("key id ");
                push_str(&mut s, id.as_str());
                push_str(&mut s, " is not a current key");
                s
            },
        }
    }
}

/// The first key with the request's identifier, which must be current.
pub fn select_signing_key<'a>(keys: &'a Vec<GitHubPublicKey>, key_id: &str) -> (r: Result<
    &'a GitHubPublicKey,
    SigningKeyError,
>)
    ensures
        match r {
            Ok(k) => exists|i: int|
                0 <= i < keys.len() && keys@[i] == *k && k.key_identifier@ == key_id@ && k.is_current
                    && forall|j: int| 0 <= j < i ==> (#[trigger] keys@[j]).key_identifier@ != key_id@,
            Err(SigningKeyError::UnknownKey(id)) => id@ == key_id@ && forall|j: int|
                0 <= j < keys.len() ==> (#[trigger] keys@[j]).key_identifier@ != key_id@,
            Err(SigningKeyError::NotCurrent(id)) => id@ == key_id@ && exists|i: int|
                0 <= i < keys.len() && (#[trigger] keys@[i]).key_identifier@ == key_id@
                    && !keys@[i].is_current && forall|j: int|
                    0 <= j < i ==> (#[trigger] keys@[j]).key_identifier@ != key_id@,
        },
{
    let mut i: usize = 0;
    while i < keys.len()
        invariant
            i <= keys.len(),
            forall|j: int| 0 <= j < i ==> (#[trigger] keys@[j]).key_identifier@ != key_id@,
        decreases keys.len() - i,
    {
        if str_eq(keys[i].key_identifier.as_str(), key_id) {
            if !keys[i].is_current {
                return Err(SigningKeyError::NotCurrent(owned(key_id)));
            }
            return Ok(&keys[i]);
        }
        i = i + 1;
    }
    Err(SigningKeyError::UnknownKey(owned(key_id)))
}

/// The verdict on a reported token.
#[derive(Copy, Clone, Debug, Eq, PartialEq)]
pub enum GitHubSecretAlertFeedbackLabel {
    TruePositive,
    FalsePositive,
}

/// What to do with a reported API token: revoke it or not, and the verdict.
/// An unknown token is a false positive; a known one is a true positive and
/// is revoked unless it already is.
pub fn api_token_verdict(found: Option<bool>) -> (r: (bool, GitHubSecretAlertFeedbackLabel))
    ensures
        r == match found {
            None => (false, GitHubSecretAlertFeedbackLabel::FalsePositive),
            Some(revoked) => (!revoked, GitHubSecretAlertFeedbackLabel::TruePositive),
        },
{
    match found {
        None => (false, GitHubSecretAlertFeedbackLabel::FalsePositive),
        Some(revoked) => (!revoked, GitHubSecretAlertFeedbackLabel::TruePositive),
    }
}

/// The verdict on a reported Trusted Publishing token: a true positive when a
/// live token was deleted, a false positive otherwise.
pub fn trustpub_token_verdict(deleted: bool) -> (r: GitHubSecretAlertFeedbackLabel)
    ensures
        r == if deleted {
            GitHubSecretAlertFeedbackLabel::TruePositive
        } else {
            GitHubSecretAlertFeedbackLabel::FalsePositive
        },
{
    if deleted {
        GitHubSecretAlertFeedbackLabel::TruePositive
    } else {
        GitHubSecretAlertFeedbackLabel::FalsePositive
    }
}

/// The notification to the owners of the crates that an exposed Trusted
/// Publishing token could publish.
pub struct TrustedPublishingTokenExposedEmail {
    pub domain: String,
    pub reporter: String,
    pub source: String,
    pub crate_names: Vec<String>,
    pub url: String,
}

/// The sentence that names the crates the token could publish.
pub open spec fn authorization_text(names: Seq<Seq<char>>) -> Seq<char> {
    if names.len() == 1 {
        "This token was only authorized to publish the \""@ + names[0] + "\" crate."@
    } else {
        "This token was authorized to publish the following crates: \""@ + join(names, "\", \""@)
            + "\"."@
    }
}

/// The body of the notification.
pub open spec fn exposed_email_body(
    domain: Seq<char>,
    reporter: Seq<char>,
    source: Seq<char>,
    names: Seq<Seq<char>>,
    url: Seq<char>,
) -> Seq<char> {
    reporter
        + " has notified us that one of your crates.io Trusted Publishing tokens has been exposed publicly. We have revoked this token as a precaution.\n\n"@
        + authorization_text(names)
        + "\n\nPlease review your account at https://"@ + domain
        + " and your GitHub repository settings to confirm that no unexpected changes have been made to your crates or trusted publishing configurations.\n\nSource type: "@
        + source + (if url.len() == 0 {
        "\n\nWe were not informed of the URL where the token was found."@
    } else {
        "\n\nURL where the token was found: "@ + url
    })
        + "\n\nTrusted Publishing tokens are temporary and used for automated publishing from GitHub Actions. If this exposure was unexpected, please review your repository's workflow files and secrets."@
}

impl TrustedPublishingTokenExposedEmail {
    pub fn subject(&self) -> (s: String)
        ensures
            s@ == "crates.io: Your Trusted Publishing token has been revoked"@,
    {
        owned("crates.io: Your Trusted Publishing token has been revoked")
    }

    pub fn body(&self) -> (s: String)
        ensures
            s@ == exposed_email_body(
                self.domain@,
                self.reporter@,
                self.source@,
                self.crate_names.deep_view(),
                self.url@,
            ),
    {
        let authorization = if self.crate_names.len() == 1 {
            let mut a = owned("This token was only authorized to publish the \"");
            push_str(&mut a, self.crate_names[0].as_str());
            push_str(&mut a, "\" crate.");
            a
        } else {
            let mut a = owned("This token was authorized to publish the following crates: \"");
            let joined = join_strings(&self.crate_names, "\", \"");
            push_str(&mut a, joined.as_str());
            push_str(&mut a, "\".");
            a
        };
        let mut body = owned(self.reporter.as_str());
        push_str(
            &mut body,
            " has notified us that one of your crates.io Trusted Publishing tokens has been exposed publicly. We have revoked this token as a precaution.\n\n",
        );
        push_str(&mut body, authorization.as_str());
        push_str(&mut body, "\n\nPlease review your account at https://");
        push_str(&mut body, self.domain.as_str());
        push_str(
            &mut body,
            " and your GitHub repository settings to confirm that no unexpected changes have been made to your crates or trusted publishing configurations.\n\nSource type: ",
        );
        push_str(&mut body, self.source.as_str());
        if self.url.as_str().is_empty() {
            push_str(&mut body, "\n\nWe were not informed of the URL where the token was found.");
        } else {
            push_str(&mut body, "\n\nURL where the token was found: ");
            push_str(&mut body, self.url.as_str());
        }
        push_str(
            &mut body,
            "\n\nTrusted Publishing tokens are temporary and used for automated publishing from GitHub Actions. If this exposure was unexpected, please review your repository's workflow files and secrets.",
        );
        assert(body@ =~= exposed_email_body(
            self.domain@,
            self.reporter@,
            self.source@,
            self.crate_names.deep_view(),
            self.url@,
        ));
        body
    }
}

// ---------------------------------------------------------------------------
// Signature of an alert
// ---------------------------------------------------------------------------

/// What `base64::engine::general_purpose::STANDARD.decode` gives for these
/// bytes: the decoded bytes, or the `Debug` text of its error.
pub uninterp spec fn base64_standard(text: Seq<u8>) -> Result<Seq<u8>, Seq<char>>;

/// What `p256::ecdsa::Signature::from_der` reports for these bytes: `None`
/// where they hold a signature, else the `Debug` text of its error.
pub uninterp spec fn der_signature_error(der: Seq<u8>) -> Option<Seq<char>>;

/// Whether `p256::PublicKey::from_str` accepts this PEM text.
pub uninterp spec fn pem_public_key_parses(pem: Seq<char>) -> bool;

/// What verifying the signature over the message with the public key
/// reports (`VerifyingKey::verify`): `None` where it is valid, else the
/// `Debug` text of its error.
pub uninterp spec fn p256_verify_error(pem: Seq<char>, message: Seq<u8>, der: Seq<u8>) -> Option<
    Seq<char>,
>;

/// `general_purpose::STANDARD.decode`, with the error in its `Debug` form.
#[verifier::external_body]
fn base64_standard_decode(text: &[u8]) -> (r: Result<Vec<u8>, String>)
    ensures
        match r {
            Ok(v) => base64_standard(text@) == Ok::<Seq<u8>, Seq<char>>(v@),
            Err(e) => base64_standard(text@) == Err::<Seq<u8>, Seq<char>>(e@),
        },
{
    base64::engine::general_purpose::STANDARD.decode(text).map_err(|e| format!("{e:?}"))
}

/// `p256::ecdsa::Signature::from_der`, with the error in its `Debug` form.
#[verifier::external_body]
fn parse_der_signature(der: &[u8]) -> (r: Option<String>)
    ensures
        match r {
            None => der_signature_error(der@) is None,
            Some(e) => der_signature_error(der@) == Some(e@),
        },
{
    p256::ecdsa::Signature::from_der(der).err().map(|e| format!("{e:?}"))
}

/// `<p256::PublicKey as FromStr>::from_str(pem).is_ok()`.
#[verifier::external_body]
fn public_key_parses(pem: &str) -> (r: bool)
    ensures
        r == pem_public_key_parses(pem@),
{
    <p256::PublicKey as std::str::FromStr>::from_str(pem).is_ok()
}

/// `VerifyingKey::from(public_key).verify(message, &signature)` for the key
/// and the signature that the PEM text and the DER bytes hold, which parse;
/// the error in its `Debug` form.
#[verifier::external_body]
fn p256_verify(pem: &str, message: &[u8], der: &[u8]) -> (r: Option<String>)
    requires
        pem_public_key_parses(pem@),
        der_signature_error(der@) is None,
    ensures
        match r {
            None => p256_verify_error(pem@, message@, der@) is None,
            Some(e) => p256_verify_error(pem@, message@, der@) == Some(e@),
        },
{
    let key = <p256::PublicKey as std::str::FromStr>::from_str(pem).expect("parses");
    let sig = p256::ecdsa::Signature::from_der(der).expect("parses");
    p256::ecdsa::signature::Verifier::verify(&p256::ecdsa::VerifyingKey::from(key), message, &sig)
        .err()
        .map(|e| format!("{e:?}"))
}

/// Why the signature of an alert is refused (a `400 Bad Request`).
#[derive(Debug, Clone, PartialEq, Eq)]
pub enum SignatureError {
    /// The signature header is not base64 (the decoder's error).
    Base64(String),
    /// The signature is not ASN.1 DER (the parser's error).
    Der(String),
    /// The key id is unknown or not current.
    Key(SigningKeyError),
    /// GitHub's public key does not parse.
    PublicKey,
    /// The signature does not match the request body (the verifier's error).
    Invalid(String),
}

pub open spec fn signature_error_message(e: SignatureError) -> Seq<char> {
    match e {
        SignatureError::Base64(t) => "failed to decode signature as base64: "@ + t@,
        SignatureError::Der(t) => "failed to parse signature from ASN.1 DER: "@ + t@,
        SignatureError::Key(SigningKeyError::UnknownKey(id)) => "unknown key id "@ + id@,
        SignatureError::Key(SigningKeyError::NotCurrent(id)) => "key id "@ + id@
            + " is not a current key"@,
        SignatureError::PublicKey => "cannot parse public key"@,
        SignatureError::Invalid(t) => "invalid signature: "@ + t@,
    }
}

impl SignatureError {
    pub fn message(&self) -> (s: String)
        ensures
            s@ == signature_error_message(*self),
    {
        match self {
            SignatureError::Base64(t) => {
                let mut s = owned("failed to decode signature as base64: ");
                push_str(&mut s, t.as_str());
                s
            },
            SignatureError::Der(t) => {
                let mut s = owned("failed to parse signature from ASN.1 DER: ");
                push_str(&mut s, t.as_str());
                s
            },
            SignatureError::Key(k) => k.message(),
            SignatureError::PublicKey => owned("cannot parse public key"),
            SignatureError::Invalid(t) => {
                let mut s = owned("invalid signature: ");
                push_str(&mut s, t.as_str());
                s
            },
        }
    }
}

/// The refusal of a request without one of the signature headers.
pub fn missing_header_message(name: &str) -> (s: String)
    ensures
        s@ == "missing HTTP header: "@ + name@,
{
    let mut s = owned("missing HTTP header: ");
    push_str(&mut s, name);
    s
}

/// The DER bytes of the signature in the `GITHUB-PUBLIC-KEY-SIGNATURE`
/// header: base64 (standard alphabet) over an ASN.1 DER signature.
pub fn decode_signature(header: &[u8]) -> (r: Result<Vec<u8>, SignatureError>)
    ensures
        match base64_standard(header@) {
            Err(t) => r matches Err(SignatureError::Base64(e)) && e@ == t,
            Ok(der) => match der_signature_error(der) {
                Some(t) => r matches Err(SignatureError::Der(e)) && e@ == t,
                None => r matches Ok(v) && v@ == der,
            },
        },
{
    let der = match base64_standard_decode(header) {
        Ok(v) => v,
        Err(e) => return Err(SignatureError::Base64(e)),
    };
    match parse_der_signature(der.as_slice()) {
        Some(e) => Err(SignatureError::Der(e)),
        None => Ok(der),
    }
}

/// A refusal of the signing key, as the contracts speak of it.
pub enum KeyErrorView {
    UnknownKey(Seq<char>),
    NotCurrent(Seq<char>),
}

pub open spec fn key_error_view(e: SigningKeyError) -> KeyErrorView {
    match e {
        SigningKeyError::UnknownKey(id) => KeyErrorView::UnknownKey(id@),
        SigningKeyError::NotCurrent(id) => KeyErrorView::NotCurrent(id@),
    }
}

/// Whether `i` is the first index of a key with this identifier.
pub open spec fn is_first_key(keys: Seq<GitHubPublicKey>, key_id: Seq<char>, i: int) -> bool {
    &&& 0 <= i < keys.len()
    &&& keys[i].key_identifier@ == key_id
    &&& forall|j: int| 0 <= j < i ==> (#[trigger] keys[j]).key_identifier@ != key_id
}

/// The key that signs a request: the first with its identifier, which must
/// be current.
pub open spec fn select_key_outcome(keys: Seq<GitHubPublicKey>, key_id: Seq<char>) -> Result<
    int,
    KeyErrorView,
> {
    if exists|i: int| is_first_key(keys, key_id, i) {
        let i = choose|i: int| is_first_key(keys, key_id, i);
        if keys[i].is_current {
            Ok(i)
        } else {
            Err(KeyErrorView::NotCurrent(key_id))
        }
    } else {
        Err(KeyErrorView::UnknownKey(key_id))
    }
}

proof fn lemma_first_key_unique(keys: Seq<GitHubPublicKey>, key_id: Seq<char>, i: int, k: int)
    requires
        is_first_key(keys, key_id, i),
        is_first_key(keys, key_id, k),
    ensures
        i == k,
{
    if i < k {
        assert(keys[i].key_identifier@ != key_id);
    } else if k < i {
        assert(keys[k].key_identifier@ != key_id);
    }
}

proof fn lemma_select_outcome(keys: Vec<GitHubPublicKey>, key_id: Seq<char>, r: Result<&GitHubPublicKey, SigningKeyError>)
    requires
        match r {
            Ok(k) => exists|i: int|
                0 <= i < keys.len() && keys@[i] == *k && k.key_identifier@ == key_id && k.is_current
                    && forall|j: int| 0 <= j < i ==> (#[trigger] keys@[j]).key_identifier@ != key_id,
            Err(SigningKeyError::UnknownKey(id)) => id@ == key_id && forall|j: int|
                0 <= j < keys.len() ==> (#[trigger] keys@[j]).key_identifier@ != key_id,
            Err(SigningKeyError::NotCurrent(id)) => id@ == key_id && exists|i: int|
                0 <= i < keys.len() && (#[trigger] keys@[i]).key_identifier@ == key_id
                    && !keys@[i].is_current && forall|j: int|
                    0 <= j < i ==> (#[trigger] keys@[j]).key_identifier@ != key_id,
        },
    ensures
        match r {
            Ok(k) => select_key_outcome(keys@, key_id) matches Ok(i) && keys@[i] == *k,
            Err(e) => select_key_outcome(keys@, key_id) == Err::<int, KeyErrorView>(key_error_view(e)),
        },
{
    match r {
        Ok(k) => {
            let i = choose|i: int|
                0 <= i < keys.len() && keys@[i] == *k && k.key_identifier@ == key_id && k.is_current
                    && forall|j: int| 0 <= j < i ==> (#[trigger] keys@[j]).key_identifier@ != key_id;
            assert(is_first_key(keys@, key_id, i));
            let c = choose|c: int| is_first_key(keys@, key_id, c);
            lemma_first_key_unique(keys@, key_id, i, c);
        },
        Err(SigningKeyError::UnknownKey(id)) => {
            if exists|i: int| is_first_key(keys@, key_id, i) {
                let c = choose|c: int| is_first_key(keys@, key_id, c);
                assert(keys@[c].key_identifier@ != key_id);
            }
        },
        Err(SigningKeyError::NotCurrent(id)) => {
            let i = choose|i: int|
                0 <= i < keys.len() && (#[trigger] keys@[i]).key_identifier@ == key_id
                    && !keys@[i].is_current && forall|j: int|
                    0 <= j < i ==> (#[trigger] keys@[j]).key_identifier@ != key_id;
            assert(is_first_key(keys@, key_id, i));
            let c = choose|c: int| is_first_key(keys@, key_id, c);
            lemma_first_key_unique(keys@, key_id, i, c);
        },
    }
}

/// Checks a decoded signature (see [`decode_signature`]) against GitHub's
/// keys: the first key with the request's identifier must be current (else
/// the refusal of [`select_signing_key`]); its PEM text must parse; and the
/// signature must verify over the request body.
pub fn check_signature(
    keys: &Vec<GitHubPublicKey>,
    key_id: &str,
    der: &[u8],
    body: &[u8],
) -> (r: Result<(), SignatureError>)
    requires
        der_signature_error(der@) is None,
    ensures
        match select_key_outcome(keys@, key_id@) {
            Err(e) => r matches Err(SignatureError::Key(k)) && key_error_view(k) == e,
            Ok(i) => {
                let pem = keys@[i].key@;
                if !pem_public_key_parses(pem) {
                    r == Err::<(), SignatureError>(SignatureError::PublicKey)
                } else {
                    match p256_verify_error(pem, body@, der@) {
                        None => r is Ok,
                        Some(t) => r matches Err(SignatureError::Invalid(e)) && e@ == t,
                    }
                }
            },
        },
{
    let selected = select_signing_key(keys, key_id);
    proof {
        lemma_select_outcome(*keys, key_id@, selected);
    }
    let key = match selected {
        Ok(k) => k,
        Err(e) => return Err(SignatureError::Key(e)),
    };
    if !public_key_parses(key.key.as_str()) {
        return Err(SignatureError::PublicKey);
    }
    match p256_verify(key.key.as_str(), body, der) {
        None => Ok(()),
        Some(e) => Err(SignatureError::Invalid(e)),
    }
}

/// Verifies the signature of an alert: decodes the signature header, then
/// checks it against GitHub's keys (see [`decode_signature`] and
/// [`check_signature`]).
pub fn verify_alert_signature(
    keys: &Vec<GitHubPublicKey>,
    key_id: &str,
    signature_header: &[u8],
    body: &[u8],
) -> (r: Result<(), SignatureError>)
    ensures
        match base64_standard(signature_header@) {
            Err(t) => r matches Err(SignatureError::Base64(e)) && e@ == t,
            Ok(der) => match der_signature_error(der) {
                Some(t) => r matches Err(SignatureError::Der(e)) && e@ == t,
                None => match select_key_outcome(keys@, key_id@) {
                    Err(e) => r matches Err(SignatureError::Key(k)) && key_error_view(k) == e,
                    Ok(i) => {
                        let pem = keys@[i].key@;
                        if !pem_public_key_parses(pem) {
                            r == Err::<(), SignatureError>(SignatureError::PublicKey)
                        } else {
                            match p256_verify_error(pem, body@, der) {
                                None => r is Ok,
                                Some(t) => r matches Err(SignatureError::Invalid(e)) && e@ == t,
                            }
                        }
                    },
                },
            },
        },
{
    match decode_signature(signature_header) {
        Ok(der) => check_signature(keys, key_id, der.as_slice(), body),
        Err(e) => Err(e),
    }
}

} // verus!
