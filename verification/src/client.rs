//! The client's computations: the registration that it asks a FIDO security key for.
use vstd::prelude::*;
use vstd::utf8::encode_utf8;

verus! {

/// What `sha2::Sha256` yields on `data`: its SHA-256 digest.
pub uninterp spec fn sha256_digest(data: Seq<u8>) -> Seq<u8>;

/// Calls `sha2::Sha256` (input, then result) on `data`. Trusted: the digest is what
/// [`sha256_digest`] names for `data`, and it is 32 bytes long (the output size that the
/// crate declares for SHA-256).
#[verifier::external_body]
fn sha256(data: &[u8]) -> (digest: Vec<u8>)
    ensures
        digest@ == sha256_digest(data@),
        digest@.len() == 32,
{
    let mut hasher = <sha2::Sha256 as Default>::default();
    sha2::Digest::input(&mut hasher, data);
    sha2::Digest::result(hasher).to_vec()
}

/// The U2F registration challenge that the client signs: a JSON text.
pub open spec fn fido_challenge_text() -> Seq<char> {
    "{\"challenge\": \"1vQ9mxionq0ngCnjD-wTsv1zUSrGRtFqG2xP09SbZ70\", \"version\": \"U2F_V2\", \"appId\": \"http://demo.yubico.com\"}"@
}

/// The application that the registration is for.
pub open spec fn fido_application_text() -> Seq<char> {
    "http://demo.yubico.com"@
}

/// How long a security key is given to answer, in milliseconds.
pub const FIDO_TIMEOUT_MS: u64 = 32000;

/// A registration to ask a security key for.
#[derive(Debug)]
pub struct FidoRegistration {
    /// SHA-256 of the UTF-8 challenge text.
    pub challenge: Vec<u8>,
    /// SHA-256 of the UTF-8 application text.
    pub application: Vec<u8>,
    /// The bits of the registration flags: none is set.
    pub register_flags: u64,
    /// The credentials of the key handles already registered: none.
    pub key_handles: Vec<Vec<u8>>,
    pub timeout_ms: u64,
}

/// The registration that the client asks a security key for.
pub fn fido_registration() -> (r: FidoRegistration)
    ensures
        r.challenge@ == sha256_digest(encode_utf8(fido_challenge_text())),
        r.application@ == sha256_digest(encode_utf8(fido_application_text())),
        r.challenge@.len() == 32,
        r.application@.len() == 32,
        r.register_flags == 0,
        r.key_handles@.len() == 0,
        r.timeout_ms == FIDO_TIMEOUT_MS,
{
    let challenge_text =
        "{\"challenge\": \"1vQ9mxionq0ngCnjD-wTsv1zUSrGRtFqG2xP09SbZ70\", \"version\": \"U2F_V2\", \"appId\": \"http://demo.yubico.com\"}";
    let application_text = "http://demo.yubico.com";
    let challenge = sha256(challenge_text.as_bytes());
    let application = sha256(application_text.as_bytes());
    FidoRegistration {
        challenge,
        application,
        register_flags: 0,
        key_handles: Vec::new(),
        timeout_ms: FIDO_TIMEOUT_MS,
    }
}

/// The registration is for the Yubico demonstration service: the challenge names it as
/// its `appId`, and the application is its address.
pub proof fn law_fido_texts()
    ensures
        fido_application_text() == "http://demo.yubico.com"@,
        fido_challenge_text()
            == "{\"challenge\": \"1vQ9mxionq0ngCnjD-wTsv1zUSrGRtFqG2xP09SbZ70\", \"version\": \"U2F_V2\", \"appId\": \"http://demo.yubico.com\"}"@,
{
}

} // verus!
