//! TLS material read out of PEM text.
use vstd::prelude::*;

use crate::config::{Certificate, PrivateKey};

verus! {

/// The error type of `std::io`.
#[verifier::external_type_specification]
#[verifier::external_body]
pub struct ExIoError(std::io::Error);

/// What `rustls_pemfile::certs` yields on the PEM text `pem`: the DER bytes of each
/// certificate in order, or `None` where it fails.
pub uninterp spec fn pem_certificates(pem: Seq<u8>) -> Option<Seq<Seq<u8>>>;

/// What `rustls_pemfile::rsa_private_keys` yields on the PEM text `pem`: the DER bytes of
/// each RSA private key in order, or `None` where it fails.
pub uninterp spec fn pem_rsa_private_keys(pem: Seq<u8>) -> Option<Seq<Seq<u8>>>;

/// Calls `rustls_pemfile::certs` on the bytes `pem`. Trusted: its result is what
/// [`pem_certificates`] names for them.
#[verifier::external_body]
fn pem_read_certs(pem: &[u8]) -> (r: Result<Vec<Vec<u8>>, std::io::Error>)
    ensures
        match r {
            Ok(v) => pem_certificates(pem@) == Some(v.deep_view()),
            Err(_) => pem_certificates(pem@).is_none(),
        },
{
    let mut reader: &[u8] = pem;
    rustls_pemfile::certs(&mut reader)
}

/// Calls `rustls_pemfile::rsa_private_keys` on the bytes `pem`. Trusted: its result is
/// what [`pem_rsa_private_keys`] names for them.
#[verifier::external_body]
fn pem_read_rsa_keys(pem: &[u8]) -> (r: Result<Vec<Vec<u8>>, std::io::Error>)
    ensures
        match r {
            Ok(v) => pem_rsa_private_keys(pem@) == Some(v.deep_view()),
            Err(_) => pem_rsa_private_keys(pem@).is_none(),
        },
{
    let mut reader: &[u8] = pem;
    rustls_pemfile::rsa_private_keys(&mut reader)
}

/// Why TLS material could not be read.
#[derive(Debug, PartialEq, Eq, Structural)]
pub enum TlsFileError {
    /// The certificate file's text is not PEM.
    InvalidCert,
    /// The key file's text is not PEM.
    InvalidKey,
    /// The key file holds no RSA private key.
    MissingKey,
}

/// The DER bytes of each certificate, in order.
pub open spec fn certificate_ders(certs: Seq<Certificate>) -> Seq<Seq<u8>> {
    certs.map_values(|c: Certificate| c.0@)
}

/// The certificates of a PEM file's text, in order.
pub fn load_certs(pem: &[u8]) -> (r: Result<Vec<Certificate>, TlsFileError>)
    ensures
        match pem_certificates(pem@) {
            Some(ders) => r matches Ok(certs) && certificate_ders(certs@) == ders && certs@.len()
                == ders.len() && forall|i: int|
                0 <= i < ders.len() ==> (#[trigger] certs@[i]).0@ == ders[i],
            None => r == Err::<Vec<Certificate>, TlsFileError>(TlsFileError::InvalidCert),
        },
{
    match pem_read_certs(pem) {
        Ok(ders) => {
            let mut certs: Vec<Certificate> = Vec::new();
            let mut i: usize = 0;
            while i < ders.len()
                invariant
                    pem_certificates(pem@) == Some(ders.deep_view()),
                    i <= ders@.len(),
                    certs@.len() == i,
                    forall|k: int| 0 <= k < i ==> (#[trigger] certs@[k]).0@ == ders@[k]@,
                decreases ders@.len() - i,
            {
                certs.push(Certificate(ders[i].clone()));
                i = i + 1;
            }
            assert(ders.deep_view().len() == ders@.len());
            assert forall|k: int| 0 <= k < certs@.len() implies #[trigger] certificate_ders(
                certs@,
            )[k] == ders.deep_view()[k] by {
                assert(certs@[k].0@ == ders@[k]@);
            }
            assert(certificate_ders(certs@) =~= ders.deep_view());
            Ok(certs)
        },
        Err(_) => Err(TlsFileError::InvalidCert),
    }
}

/// The RSA private keys of a PEM file's text, in order.
pub fn load_keys(pem: &[u8]) -> (r: Result<Vec<PrivateKey>, TlsFileError>)
    ensures
        match pem_rsa_private_keys(pem@) {
            Some(ders) => r matches Ok(keys) && keys@.len() == ders.len() && forall|i: int|
                0 <= i < ders.len() ==> (#[trigger] keys@[i]).0@ == ders[i],
            None => r == Err::<Vec<PrivateKey>, TlsFileError>(TlsFileError::InvalidKey),
        },
{
    match pem_read_rsa_keys(pem) {
        Ok(ders) => {
            let mut keys: Vec<PrivateKey> = Vec::new();
            let mut i: usize = 0;
            while i < ders.len()
                invariant
                    pem_rsa_private_keys(pem@) == Some(ders.deep_view()),
                    i <= ders@.len(),
                    keys@.len() == i,
                    forall|k: int| 0 <= k < i ==> (#[trigger] keys@[k]).0@ == ders@[k]@,
                decreases ders@.len() - i,
            {
                keys.push(PrivateKey(ders[i].clone()));
                i = i + 1;
            }
            Ok(keys)
        },
        Err(_) => Err(TlsFileError::InvalidKey),
    }
}

/// The key that a server uses: the first RSA private key of a PEM file's text.
pub fn load_private_key(pem: &[u8]) -> (r: Result<PrivateKey, TlsFileError>)
    ensures
        match pem_rsa_private_keys(pem@) {
            Some(ders) => if ders.len() > 0 {
                r matches Ok(k) && k.0@ == ders[0]
            } else {
                r == Err::<PrivateKey, TlsFileError>(TlsFileError::MissingKey)
            },
            None => r == Err::<PrivateKey, TlsFileError>(TlsFileError::InvalidKey),
        },
{
    match load_keys(pem) {
        Ok(mut keys) => {
            if keys.len() == 0 {
                Err(TlsFileError::MissingKey)
            } else {
                Ok(keys.remove(0))
            }
        },
        Err(e) => Err(e),
    }
}

/// [`certificate_ders`] keeps every certificate, in order, with its bytes unchanged.
pub proof fn law_certificate_ders_are_the_certificates_bytes(certs: Seq<Certificate>)
    ensures
        certificate_ders(certs).len() == certs.len(),
        forall|i: int| 0 <= i < certs.len() ==> #[trigger] certificate_ders(certs)[i] == certs[i].0@,
{
}

} // verus!
