//! Secure boot: the kernel image is accepted only with a valid RSA
//! PKCS#1 v1.5 signature over its SHA-256 digest.
//!
//! The public key is handed in as its big-endian modulus and exponent bytes,
//! as they are kept in ROM.
use vstd::prelude::*;
use vstd::arithmetic::power2::pow2;
use crate::codec::be_value;
use rsa::{BigUint, Pkcs1v15Sign, RsaPublicKey};
use sha2::{Digest, Sha256};

verus! {

#[verifier::external_type_specification]
#[verifier::external_body]
pub struct ExRsaError(rsa::Error);

/// What went wrong while checking a signature.
#[derive(Debug)]
pub enum SignatureVerificationError {
    /// The RSA library refused the public key.
    RsaError(rsa::Error),
    /// The signature does not match.
    InvalidSignature,
}

impl From<rsa::Error> for SignatureVerificationError {
    fn from(err: rsa::Error) -> (r: Self) {
        SignatureVerificationError::RsaError(err)
    }
}

impl vstd::std_specs::convert::FromSpecImpl<rsa::Error> for SignatureVerificationError {
    open spec fn obeys_from_spec() -> bool {
        true
    }

    open spec fn from_spec(err: rsa::Error) -> Self {
        SignatureVerificationError::RsaError(err)
    }
}

/// The SHA-256 digest of `data`.
pub uninterp spec fn sha256(data: Seq<u8>) -> Seq<u8>;

/// Whether `signature` is a PKCS#1 v1.5 signature, with the SHA-256
/// DigestInfo prefix, of the digest `hashed` under the RSA public key whose
/// modulus and exponent are the big-endian numbers `modulus` and `exponent`.
pub uninterp spec fn pkcs1v15_sha256_verifies(
    modulus: Seq<u8>,
    exponent: Seq<u8>,
    hashed: Seq<u8>,
    signature: Seq<u8>,
) -> bool;

/// Whether an RSA public key with modulus `n` and exponent `e` is accepted:
/// a modulus of at most 4096 bits, odd and above the exponent, and an odd
/// exponent from 2 up to 2^33 - 1.
pub open spec fn key_accepted(n: nat, e: nat) -> bool {
    &&& n < pow2(4096)
    &&& e < n
    &&& n % 2 == 1
    &&& e % 2 == 1
    &&& 2 <= e <= 0x1_ffff_ffff
}

/// Whether the key given by its big-endian bytes is accepted.
pub open spec fn key_bytes_accepted(modulus: Seq<u8>, exponent: Seq<u8>) -> bool {
    key_accepted(be_value(modulus), be_value(exponent))
}

/// SHA-256 of `data`, computed by `sha2::Sha256::digest`: 32 bytes, named
/// `sha256(data)`.
#[verifier::external_body]
fn sha256_digest(data: &[u8]) -> (r: Vec<u8>)
    ensures
        r@ == sha256(data@),
        r@.len() == 32,
{
    Sha256::digest(data).to_vec()
}

/// `rsa::RsaPublicKey::new` on the big-endian modulus and exponent. Its
/// source accepts the key exactly when the modulus has at most 4096 bits,
/// the exponent fits in 64 bits, the exponent is below the modulus, both are
/// odd, and the exponent lies from 2 up to 2^33 - 1; the key itself is not
/// kept. Which `rsa::Error` variant a refusal carries is left unsaid.
#[verifier::external_body]
fn check_public_key(modulus: &[u8], exponent: &[u8]) -> (r: Result<(), rsa::Error>)
    ensures
        r is Ok <==> key_bytes_accepted(modulus@, exponent@),
{
    match RsaPublicKey::new(BigUint::from_bytes_be(modulus), BigUint::from_bytes_be(exponent)) {
        Ok(_key) => Ok(()),
        Err(e) => Err(e),
    }
}

/// `rsa::RsaPublicKey::verify` with the `Pkcs1v15Sign` scheme for SHA-256,
/// on the key built from the big-endian modulus and exponent. Whether it
/// accepts is named `pkcs1v15_sha256_verifies`; the key must be one that
/// `RsaPublicKey::new` accepts.
#[verifier::external_body]
fn pkcs1v15_sha256_verify(modulus: &[u8], exponent: &[u8], hashed: &[u8], signature: &[u8]) -> (r:
    bool)
    requires
        key_bytes_accepted(modulus@, exponent@),
    ensures
        r == pkcs1v15_sha256_verifies(modulus@, exponent@, hashed@, signature@),
{
    let key = RsaPublicKey::new_unchecked(
        BigUint::from_bytes_be(modulus),
        BigUint::from_bytes_be(exponent),
    );
    key.verify(Pkcs1v15Sign::new::<Sha256>(), hashed, signature).is_ok()
}

/// Checks `signature` against the SHA-256 digest `digest` of the kernel:
/// the key is refused with `RsaError`, else the answer is whether the
/// signature verifies.
pub fn verify_digest_signature(
    digest: &[u8],
    signature: &[u8],
    modulus: &[u8],
    exponent: &[u8],
) -> (r: Result<bool, SignatureVerificationError>)
    ensures
        r is Err <==> !key_bytes_accepted(modulus@, exponent@),
        r is Err ==> r->Err_0 is RsaError,
        r is Ok ==> r->Ok_0 == pkcs1v15_sha256_verifies(modulus@, exponent@, digest@, signature@),
{
    match check_public_key(modulus, exponent) {
        Err(e) => Err(SignatureVerificationError::from(e)),
        Ok(()) => Ok(pkcs1v15_sha256_verify(modulus, exponent, digest, signature)),
    }
}

/// Checks the kernel's signature: the key is refused with `RsaError`, else
/// the answer is whether `signature` signs the SHA-256 digest of the kernel.
pub fn verify_kernel_signature(
    kernel_data: &[u8],
    signature: &[u8],
    modulus: &[u8],
    exponent: &[u8],
) -> (r: Result<bool, SignatureVerificationError>)
    ensures
        r is Err <==> !key_bytes_accepted(modulus@, exponent@),
        r is Err ==> r->Err_0 is RsaError,
        r is Ok ==> r->Ok_0 == pkcs1v15_sha256_verifies(
            modulus@,
            exponent@,
            sha256(kernel_data@),
            signature@,
        ),
{
    let digest = sha256_digest(kernel_data);
    verify_digest_signature(digest.as_slice(), signature, modulus, exponent)
}

/// Starts secure boot on the kernel image and its signature as read from
/// memory: `Ok(true)` lets the boot go on, `Ok(false)` stops it.
pub fn init_secure_boot(
    kernel_data: &[u8],
    signature: &[u8],
    modulus: &[u8],
    exponent: &[u8],
) -> (r: Result<bool, SignatureVerificationError>)
    ensures
        r is Err <==> !key_bytes_accepted(modulus@, exponent@),
        r is Err ==> r->Err_0 is RsaError,
        r is Ok ==> r->Ok_0 == pkcs1v15_sha256_verifies(
            modulus@,
            exponent@,
            sha256(kernel_data@),
            signature@,
        ),
{
    match verify_kernel_signature(kernel_data, signature, modulus, exponent) {
        Ok(is_valid) => {
            if is_valid {
                Ok(true)
            } else {
                Ok(false)
            }
        },
        Err(e) => Err(e),
    }
}

} // verus!
