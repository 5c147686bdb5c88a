//! AES-256-GCM, as the `aes_gcm` crate does it.

use aes_gcm::aead::{Aead, AeadCore, KeyInit, OsRng};
use aes_gcm::{Aes256Gcm, Key, Nonce};
use vstd::prelude::*;

verus! {

/// The longest plaintext that AES-GCM takes, in bytes.
pub const MAX_PLAINTEXT_LEN: u64 = 68_719_476_736;

/// The number of bytes in a nonce.
pub const NONCE_LEN: usize = 12;

/// The number of bytes in the tag behind a ciphertext.
pub const TAG_LEN: usize = 16;

/// The error of the `aes_gcm` crate, which says nothing but that it happened.
#[verifier::external_type_specification]
#[verifier::external_body]
pub struct ExAeadError(aes_gcm::Error);

/// What AES-256-GCM makes of a plaintext: the ciphertext and its tag.
pub uninterp spec fn aes256gcm_sealed(
    key: Seq<u8>,
    nonce: Seq<u8>,
    plaintext: Seq<u8>,
) -> Seq<u8>;

/// What AES-256-GCM makes of a ciphertext with its tag: the plaintext, or
/// nothing where the tag is not the right one.
pub uninterp spec fn aes256gcm_opened(
    key: Seq<u8>,
    nonce: Seq<u8>,
    sealed: Seq<u8>,
) -> Option<Seq<u8>>;

/// Calls `AeadCore::generate_nonce` of `Aes256Gcm` with the random numbers of
/// the operating system.
///
/// Trusted: that there is a result, as long as the operating system has random
/// numbers to give. Nothing is claimed of which nonce it is.
#[verifier::external_body]
fn fresh_nonce() -> (nonce: [u8; 12]) {
    Aes256Gcm::generate_nonce(&mut OsRng).into()
}

/// Whether a nonce is one that `fresh_nonce` may give. Nothing is known of which
/// ones those are, so that only a call shows it of a nonce.
pub closed spec fn is_drawn_nonce(nonce: Seq<u8>) -> bool {
    exists|drawn: [u8; 12]| call_ensures(fresh_nonce, (), drawn) && nonce == drawn@
}

/// Draws a new nonce.
pub(crate) fn draw_nonce() -> (nonce: [u8; 12])
    ensures
        is_drawn_nonce(nonce@),
{
    fresh_nonce()
}

/// Calls `Aead::encrypt` of `Aes256Gcm`, without associated data.
///
/// Trusted: encryption succeeds exactly on plaintexts of at most
/// `MAX_PLAINTEXT_LEN` bytes. The result depends on the key, the nonce and the
/// plaintext alone, is longer than the plaintext by the tag of 16 bytes, and
/// decrypts under the same key and nonce to the plaintext. The precondition
/// says that the result fits in memory.
#[verifier::external_body]
pub(crate) fn aes256gcm_encrypt(
    key: &[u8; 32],
    nonce: &[u8; 12],
    plaintext: &[u8],
) -> (encrypted: Result<Vec<u8>, aes_gcm::Error>)
    requires
        plaintext@.len() + TAG_LEN <= isize::MAX,
    ensures
        encrypted is Ok <==> plaintext@.len() <= MAX_PLAINTEXT_LEN,
        encrypted matches Ok(sealed) ==> {
            &&& sealed@ == aes256gcm_sealed(key@, nonce@, plaintext@)
            &&& sealed@.len() == plaintext@.len() + TAG_LEN
            &&& aes256gcm_opened(key@, nonce@, sealed@) == Some(plaintext@)
        },
{
    let cipher = Aes256Gcm::new(Key::<Aes256Gcm>::from_slice(key));
    cipher.encrypt(Nonce::from_slice(nonce), plaintext)
}

/// Calls `Aead::decrypt` of `Aes256Gcm`, without associated data.
///
/// Trusted: the result depends on the key, the nonce and the ciphertext alone.
/// Where there is a plaintext, it is shorter than the ciphertext by the tag of
/// 16 bytes, and the ciphertext is what encrypting it under the same key and
/// nonce gives, provided that encryption takes a plaintext of that length.
#[verifier::external_body]
pub(crate) fn aes256gcm_decrypt(
    key: &[u8; 32],
    nonce: &[u8; 12],
    sealed: &[u8],
) -> (decrypted: Result<Vec<u8>, aes_gcm::Error>)
    ensures
        match decrypted {
            Ok(plaintext) => {
                &&& aes256gcm_opened(key@, nonce@, sealed@) == Some(plaintext@)
                &&& sealed@.len() == plaintext@.len() + TAG_LEN
                &&& plaintext@.len() <= MAX_PLAINTEXT_LEN ==> sealed@ == aes256gcm_sealed(
                    key@,
                    nonce@,
                    plaintext@,
                )
            },
            Err(_) => aes256gcm_opened(key@, nonce@, sealed@) is None,
        },
{
    let cipher = Aes256Gcm::new(Key::<Aes256Gcm>::from_slice(key));
    cipher.decrypt(Nonce::from_slice(nonce), sealed)
}

} // verus!
