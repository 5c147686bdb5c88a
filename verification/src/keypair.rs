//! Solana key pairs and addresses, as the `solana_sdk` crate makes them.

use solana_sdk::pubkey::{ParsePubkeyError, Pubkey};
use solana_sdk::signature::{Keypair, Signer};
use std::str::FromStr;
use vstd::prelude::*;

verus! {

/// The longest text that is read as an address, in bytes.
pub const MAX_ADDRESS_LEN: usize = 44;

/// Why a text is not an address.
#[derive(Clone, Copy, Debug, PartialEq, Eq, Structural)]
pub enum AddressError {
    /// The text does not write 32 bytes.
    WrongSize,
    /// The text holds a character that base58 does not use.
    Invalid,
}

/// The Ed25519 public key of a secret key.
pub uninterp spec fn ed25519_public(secret: Seq<u8>) -> Seq<u8>;

/// The error that a text gets which is the base58 text of no 32 bytes.
pub open spec fn address_error(text: Seq<char>) -> AddressError {
    if vstd::utf8::encode_utf8(text).len() > MAX_ADDRESS_LEN {
        AddressError::WrongSize
    } else if exists|i: int|
        0 <= i < text.len() && !crate::base58_text::is_base58_symbol(#[trigger] text[i]) {
        AddressError::Invalid
    } else {
        AddressError::WrongSize
    }
}

/// Calls `Keypair::new`, and takes the secret key out of the key pair with
/// `Keypair::secret_bytes`.
///
/// Trusted: that there is a result, as long as the operating system has random
/// numbers to give. Nothing is claimed of which key it is.
#[verifier::external_body]
fn fresh_secret() -> (secret: [u8; 32]) {
    *Keypair::new().secret_bytes()
}

/// Whether a secret key is one that `fresh_secret` may give. Nothing is known of
/// which ones those are, so that only a call shows it of a secret key.
pub closed spec fn is_drawn_secret(secret: Seq<u8>) -> bool {
    exists|drawn: [u8; 32]| call_ensures(fresh_secret, (), drawn) && secret == drawn@
}

/// Draws a new secret key.
pub(crate) fn draw_secret() -> (secret: [u8; 32])
    ensures
        is_drawn_secret(secret@),
{
    fresh_secret()
}

/// Calls `Signer::pubkey` of the `Keypair` that has this secret key.
///
/// Trusted: a key pair is determined by its secret key, so the one rebuilt here
/// is the one that the secret key was taken out of, and its public key depends
/// on the secret key alone. That function is named, and not described further.
#[verifier::external_body]
pub(crate) fn keypair_pubkey(secret: &[u8; 32]) -> (pubkey: [u8; 32])
    ensures
        pubkey@ == ed25519_public(secret@),
{
    Keypair::new_from_array(*secret).pubkey().to_bytes()
}

/// Calls `Keypair::to_base58_string` of the `Keypair` that has this secret
/// key.
///
/// Trusted: the result is the base58 text of the secret key followed by its
/// public key.
#[verifier::external_body]
pub(crate) fn keypair_to_base58_string(secret: &[u8; 32]) -> (text: String)
    ensures
        text@ == crate::base58_text::base58_text(secret@ + ed25519_public(secret@)),
{
    Keypair::new_from_array(*secret).to_base58_string()
}

/// Calls `ToString::to_string` of the `Pubkey` of these bytes.
///
/// Trusted: the result is the base58 text of the bytes.
#[verifier::external_body]
pub(crate) fn pubkey_to_string(pubkey: &[u8; 32]) -> (text: String)
    ensures
        text@ == crate::base58_text::base58_text(pubkey@),
{
    Pubkey::new_from_array(*pubkey).to_string()
}

/// Calls `Pubkey::from_str`.
///
/// Trusted: it accepts exactly the base58 texts of 32 bytes, and gives back
/// those bytes. Of any other text it says that it is invalid where the text is
/// short enough and holds a character outside base58, and else that its size
/// is wrong.
#[verifier::external_body]
pub(crate) fn pubkey_from_str(text: &str) -> (pubkey: Result<[u8; 32], AddressError>)
    ensures
        match pubkey {
            Ok(bytes) => crate::base58_text::base58_text(bytes@) == text@,
            Err(error) => {
                &&& forall|bytes: Seq<u8>|
                    bytes.len() == 32 ==> #[trigger] crate::base58_text::base58_text(bytes) != text@
                &&& error == address_error(text@)
            },
        },
{
    match Pubkey::from_str(text) {
        Ok(pubkey) => Ok(pubkey.to_bytes()),
        Err(ParsePubkeyError::WrongSize) => Err(AddressError::WrongSize),
        Err(ParsePubkeyError::Invalid) => Err(AddressError::Invalid),
    }
}

} // verus!
