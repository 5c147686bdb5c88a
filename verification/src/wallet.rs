//! Wallets: a fresh key pair, its private key encrypted for storage, and the
//! way back from the stored text to the private key.
//!
//! A private key is stored as the base64 text of a 12-byte nonce followed by
//! what AES-256-GCM makes of the key's base58 text under that nonce.

use crate::balance::{address_account, law_address_round_trip};
use crate::base58_text::{base58_text, law_base58_ascii, law_base58_injective, law_base58_length};
use crate::base64_text::{
    base64_bytes, base64_decode, base64_encode, base64_error_text, base64_len, base64_text,
    law_base64_round_trip,
};
use crate::cipher::{
    aes256gcm_decrypt, aes256gcm_encrypt, aes256gcm_opened, aes256gcm_sealed, draw_nonce,
    is_drawn_nonce, MAX_PLAINTEXT_LEN, NONCE_LEN, TAG_LEN,
};
use crate::config::EncryptionKey;
use crate::keypair::{
    draw_secret, ed25519_public, is_drawn_secret, keypair_pubkey, keypair_to_base58_string,
    pubkey_to_string,
};
use crate::text::{join, result_text};
use vstd::prelude::*;
use vstd::slice::slice_to_vec;
use vstd::utf8::{
    decode_utf8, decode_utf8_encode_utf8, encode_utf8, encode_utf8_decode_utf8,
    encode_utf8_valid_utf8, is_ascii_chars_encode_utf8, valid_utf8,
};

verus! {

/// The address of the wallet with this secret key.
pub open spec fn wallet_address(secret: Seq<u8>) -> Seq<char> {
    base58_text(ed25519_public(secret))
}

/// The private key of the wallet with this secret key, as text.
pub open spec fn wallet_private_key(secret: Seq<u8>) -> Seq<char> {
    base58_text(secret + ed25519_public(secret))
}

/// The bytes of a byte vector that may be missing.
pub open spec fn option_bytes(option: Option<Vec<u8>>) -> Option<Seq<u8>> {
    match option {
        Some(bytes) => Some(bytes@),
        None => None,
    }
}

/// The stored text for a nonce and the outcome of an encryption.
pub open spec fn framed(nonce: Seq<u8>, encrypted: Option<Seq<u8>>) -> Result<
    Seq<char>,
    Seq<char>,
> {
    match encrypted {
        Some(ciphertext) => Ok(base64_text(nonce + ciphertext)),
        None => Err("Encryption failed: aead::Error"@),
    }
}

/// The stored text for a plaintext.
pub open spec fn sealed(key: Seq<u8>, nonce: Seq<u8>, plaintext: Seq<u8>) -> Result<
    Seq<char>,
    Seq<char>,
> {
    framed(
        nonce,
        if plaintext.len() <= MAX_PLAINTEXT_LEN {
            Some(aes256gcm_sealed(key, nonce, plaintext))
        } else {
            None
        },
    )
}

/// A payload taken apart into nonce and ciphertext, from the outcome of
/// reading its base64 text.
pub open spec fn payload_parts(decoded: Result<Seq<u8>, Seq<char>>) -> Result<
    (Seq<u8>, Seq<u8>),
    Seq<char>,
> {
    match decoded {
        Err(message) => Err("Invalid base64 payload: "@ + message),
        Ok(payload) => if payload.len() < NONCE_LEN {
            Err("Encrypted payload is too short to contain a nonce"@)
        } else {
            Ok((payload.take(NONCE_LEN as int), payload.skip(NONCE_LEN as int)))
        },
    }
}

/// The private key, from the outcome of reading the plaintext as UTF-8.
pub open spec fn private_key_reading(utf8: Result<Seq<char>, Seq<char>>) -> Result<
    Seq<char>,
    Seq<char>,
> {
    match utf8 {
        Ok(text) => Ok(text),
        Err(message) => Err("Invalid UTF-8 in private key: "@ + message),
    }
}

/// The outcome of reading bytes as UTF-8.
pub open spec fn utf8_reading(bytes: Seq<u8>) -> Result<Seq<char>, Seq<char>> {
    if valid_utf8(bytes) {
        Ok(decode_utf8(bytes))
    } else {
        Err(utf8_error_text(bytes))
    }
}

/// The private key, from the outcome of a decryption.
pub open spec fn plaintext_reading(decrypted: Option<Seq<u8>>) -> Result<Seq<char>, Seq<char>> {
    match decrypted {
        None => Err("Decryption failed: aead::Error"@),
        Some(bytes) => private_key_reading(utf8_reading(bytes)),
    }
}

/// The outcome of reading a text as base64.
pub open spec fn base64_reading(text: Seq<char>) -> Result<Seq<u8>, Seq<char>> {
    match base64_bytes(text) {
        Some(bytes) => Ok(bytes),
        None => Err(base64_error_text(text)),
    }
}

/// What a stored text holds under `key`: the private key, or the message that
/// says why there is none.
pub open spec fn opened(key: Seq<u8>, text: Seq<char>) -> Result<Seq<char>, Seq<char>> {
    match payload_parts(base64_reading(text)) {
        Err(message) => Err(message),
        Ok((nonce, ciphertext)) => plaintext_reading(aes256gcm_opened(key, nonce, ciphertext)),
    }
}

/// Whether a stored text has the shape that sealing gives it: it is base64 for
/// the nonce, a ciphertext as long as the plaintext, and the tag.
pub open spec fn is_framed(text: Seq<char>, nonce: Seq<u8>, plaintext_len: nat) -> bool {
    base64_bytes(text) matches Some(payload) && {
        &&& payload.len() == NONCE_LEN + plaintext_len + TAG_LEN
        &&& payload.take(NONCE_LEN as int) == nonce
    }
}

/// What the standard library says of bytes that are not UTF-8.
pub uninterp spec fn utf8_error_text(bytes: Seq<u8>) -> Seq<char>;

/// Calls `String::from_utf8`, and gives the text of its error.
///
/// Trusted: it accepts exactly the bytes that are UTF-8, and gives the text
/// that they encode. What it says of other bytes is named, and not described
/// further.
#[verifier::external_body]
fn string_from_utf8(bytes: Vec<u8>) -> (text: Result<String, String>)
    ensures
        match text {
            Ok(decoded) => valid_utf8(bytes@) && decoded@ == decode_utf8(bytes@),
            Err(message) => !valid_utf8(bytes@) && message@ == utf8_error_text(bytes@),
        },
{
    String::from_utf8(bytes).map_err(|e| e.to_string())
}

/// A text that was framed around the ciphertext of a text opens to that text.
pub proof fn law_framed_opens(key: Seq<u8>, nonce: Seq<u8>, ciphertext: Seq<u8>, text: Seq<char>)
    requires
        nonce.len() == NONCE_LEN,
        aes256gcm_opened(key, nonce, ciphertext) == Some(encode_utf8(text)),
    ensures
        opened(key, base64_text(nonce + ciphertext)) == Ok::<Seq<char>, Seq<char>>(text),
{
    let payload = nonce + ciphertext;
    law_base64_round_trip(payload);
    assert(payload.take(NONCE_LEN as int) =~= nonce);
    assert(payload.skip(NONCE_LEN as int) =~= ciphertext);
    encode_utf8_valid_utf8(text);
    encode_utf8_decode_utf8(text);
}

/// A text that is not base64, and a payload that is too short to hold a nonce,
/// are refused under every key, each with its own message.
pub proof fn law_malformed_refused(key: Seq<u8>, text: Seq<char>)
    ensures
        base64_bytes(text) is None ==> opened(key, text) == Err::<Seq<char>, Seq<char>>(
            "Invalid base64 payload: "@ + base64_error_text(text),
        ),
        base64_bytes(text) matches Some(payload) ==> (payload.len() < NONCE_LEN ==> opened(
            key,
            text,
        ) == Err::<Seq<char>, Seq<char>>("Encrypted payload is too short to contain a nonce"@)),
{
}

/// What a stored text holds, from the bytes that it writes. Without a whole nonce
/// it is too short. Otherwise what AES-256-GCM finds behind the nonce, under that
/// nonce and the key, is the private key, where it finds anything and that is
/// UTF-8; and each thing that can be wrong has its own message.
pub proof fn law_opened(key: Seq<u8>, payload: Seq<u8>)
    ensures
        ({
            let outcome = opened(key, base64_text(payload));
            if payload.len() < 12 {
                outcome == Err::<Seq<char>, Seq<char>>(
                    "Encrypted payload is too short to contain a nonce"@,
                )
            } else {
                match aes256gcm_opened(key, payload.take(12), payload.skip(12)) {
                    None => outcome == Err::<Seq<char>, Seq<char>>(
                        "Decryption failed: aead::Error"@,
                    ),
                    Some(bytes) => if valid_utf8(bytes) {
                        outcome matches Ok(private_key) && encode_utf8(private_key) == bytes
                    } else {
                        outcome == Err::<Seq<char>, Seq<char>>(
                            "Invalid UTF-8 in private key: "@ + utf8_error_text(bytes),
                        )
                    },
                }
            }
        }),
{
    law_base64_round_trip(payload);
    if payload.len() >= 12 {
        if let Some(bytes) = aes256gcm_opened(key, payload.take(12), payload.skip(12)) {
            if valid_utf8(bytes) {
                decode_utf8_encode_utf8(bytes);
            }
        }
    }
}

/// A text that writes no bytes in base64 holds nothing, under any key.
pub proof fn law_not_base64_refused(key: Seq<u8>, text: Seq<char>)
    requires
        forall|bytes: Seq<u8>| base64_text(bytes) != text,
    ensures
        opened(key, text) == Err::<Seq<char>, Seq<char>>(
            "Invalid base64 payload: "@ + base64_error_text(text),
        ),
{
}

/// A plaintext is stored as the base64 text of the nonce followed by what
/// AES-256-GCM makes of it under that nonce and the key; one that is too long for
/// AES-256-GCM is refused.
pub proof fn law_sealed(key: Seq<u8>, nonce: Seq<u8>, plaintext: Seq<u8>)
    ensures
        plaintext.len() <= 68_719_476_736 ==> sealed(key, nonce, plaintext) == Ok::<
            Seq<char>,
            Seq<char>,
        >(base64_text(nonce + aes256gcm_sealed(key, nonce, plaintext))),
        plaintext.len() > 68_719_476_736 ==> sealed(key, nonce, plaintext) == Err::<
            Seq<char>,
            Seq<char>,
        >("Encryption failed: aead::Error"@),
{
}

/// Puts the nonce in front of the ciphertext and writes both in base64, where
/// the encryption gave a ciphertext.
pub fn frame_ciphertext(nonce: &[u8; 12], encrypted: Option<Vec<u8>>) -> (text: Result<
    String,
    String,
>)
    requires
        encrypted matches Some(ciphertext) ==> base64_len(NONCE_LEN as nat + ciphertext@.len())
            <= isize::MAX,
    ensures
        result_text(text) == framed(nonce@, option_bytes(encrypted)),
        match encrypted {
            Some(ciphertext) => text matches Ok(stored) && stored@ == base64_text(
                nonce@ + ciphertext@,
            ),
            None => text matches Err(message) && message@ == "Encryption failed: aead::Error"@,
        },
{
    match encrypted {
        Some(ciphertext) => {
            let mut payload = slice_to_vec(nonce.as_slice());
            payload.extend_from_slice(ciphertext.as_slice());
            assert(payload@ =~= nonce@ + ciphertext@);
            Ok(base64_encode(payload.as_slice()))
        },
        None => Err("Encryption failed: aead::Error".to_owned()),
    }
}

/// Encrypts a plaintext and writes it down for storage.
pub fn seal(key: &EncryptionKey, nonce: &[u8; 12], plaintext: &[u8]) -> (text: Result<
    String,
    String,
>)
    requires
        base64_len(NONCE_LEN as nat + plaintext@.len() + TAG_LEN as nat) <= isize::MAX,
    ensures
        result_text(text) == sealed(key@, nonce@, plaintext@),
        text is Ok <==> plaintext@.len() <= 68_719_476_736,
        match text {
            Ok(stored) => stored@ == base64_text(
                nonce@ + aes256gcm_sealed(key@, nonce@, plaintext@),
            ),
            Err(message) => message@ == "Encryption failed: aead::Error"@,
        },
        text matches Ok(stored) ==> is_framed(stored@, nonce@, plaintext@.len()),
        forall|private_key: Seq<char>|
            text is Ok && plaintext@ == #[trigger] encode_utf8(private_key) ==> opened(
                key@,
                text->Ok_0@,
            ) == Ok::<Seq<char>, Seq<char>>(private_key),
{
    match aes256gcm_encrypt(key.bytes(), nonce, plaintext) {
        Ok(ciphertext) => {
            proof {
                law_base64_round_trip(nonce@ + ciphertext@);
                assert((nonce@ + ciphertext@).take(NONCE_LEN as int) =~= nonce@);
                assert forall|private_key: Seq<char>|
                    plaintext@ == #[trigger] encode_utf8(private_key) implies opened(
                    key@,
                    base64_text(nonce@ + ciphertext@),
                ) == Ok::<Seq<char>, Seq<char>>(private_key) by {
                    law_framed_opens(key@, nonce@, ciphertext@, private_key);
                }
            }
            frame_ciphertext(nonce, Some(ciphertext))
        },
        Err(_) => frame_ciphertext(nonce, None),
    }
}

/// Whether an address and a stored text are those of a secret key, encrypted
/// under `key` with this nonce.
pub open spec fn is_wallet_from(
    key: Seq<u8>,
    secret: Seq<u8>,
    nonce: Seq<u8>,
    address: Seq<char>,
    privkey_enc: Seq<char>,
) -> bool {
    &&& address == wallet_address(secret)
    &&& address_account(address) == Some(ed25519_public(secret))
    &&& sealed(key, nonce, encode_utf8(wallet_private_key(secret))) == Ok::<Seq<char>, Seq<char>>(
        privkey_enc,
    )
    &&& is_framed(privkey_enc, nonce, wallet_private_key(secret).len())
    &&& opened(key, privkey_enc) == Ok::<Seq<char>, Seq<char>>(wallet_private_key(secret))
}

/// Makes a wallet of a secret key: its address, and its private key encrypted
/// under `key` with this nonce.
pub fn encrypt_wallet(key: &EncryptionKey, secret: &[u8; 32], nonce: &[u8; 12]) -> (wallet: Result<
    (String, String),
    String,
>)
    ensures
        wallet matches Ok((address, privkey_enc)) && {
            &&& is_wallet_from(key@, secret@, nonce@, address@, privkey_enc@)
            &&& address@ == base58_text(ed25519_public(secret@))
            &&& privkey_enc@ == base64_text(
                nonce@ + aes256gcm_sealed(
                    key@,
                    nonce@,
                    encode_utf8(base58_text(secret@ + ed25519_public(secret@))),
                ),
            )
        },
{
    let pubkey = keypair_pubkey(secret);
    let address = pubkey_to_string(&pubkey);
    let privkey = keypair_to_base58_string(secret);
    proof {
        law_base58_length(secret@ + ed25519_public(secret@));
        law_base58_ascii(secret@ + ed25519_public(secret@));
        is_ascii_chars_encode_utf8(privkey@);
        law_address_round_trip(pubkey@);
    }
    match seal(key, nonce, privkey.as_str().as_bytes()) {
        Ok(privkey_enc) => Ok((address, privkey_enc)),
        Err(message) => Err(message),
    }
}

/// Whether an address and a stored text are a new wallet of `key`: those of a
/// secret key that was drawn, encrypted with a nonce that was drawn.
pub open spec fn is_wallet_of(key: Seq<u8>, address: Seq<char>, privkey_enc: Seq<char>) -> bool {
    exists|secret: Seq<u8>, nonce: Seq<u8>|
        {
            &&& secret.len() == 32
            &&& nonce.len() == NONCE_LEN
            &&& is_drawn_secret(secret)
            &&& is_drawn_nonce(nonce)
            &&& #[trigger] is_wallet_from(key, secret, nonce, address, privkey_enc)
        }
}

/// What a wallet of a secret key is made of: the address is the base58 text of
/// the public key, and what is stored is the base64 text of the nonce followed by
/// what AES-256-GCM makes of the private key, which is the base58 text of the
/// secret key and the public key. The stored text opens to that private key.
pub proof fn law_wallet_from(
    key: Seq<u8>,
    secret: Seq<u8>,
    nonce: Seq<u8>,
    address: Seq<char>,
    privkey_enc: Seq<char>,
)
    requires
        is_wallet_from(key, secret, nonce, address, privkey_enc),
    ensures
        address == base58_text(ed25519_public(secret)),
        address_account(address) == Some(ed25519_public(secret)),
        privkey_enc == base64_text(
            nonce + aes256gcm_sealed(
                key,
                nonce,
                encode_utf8(base58_text(secret + ed25519_public(secret))),
            ),
        ),
        base64_bytes(privkey_enc) matches Some(payload) && payload.len() == 12 + base58_text(
            secret + ed25519_public(secret),
        ).len() + 16,
        opened(key, privkey_enc) == Ok::<Seq<char>, Seq<char>>(
            base58_text(secret + ed25519_public(secret)),
        ),
{
}

/// A generated wallet is that of a secret key and a nonce that were drawn. The
/// result is these two.
pub proof fn law_wallet_of(key: Seq<u8>, address: Seq<char>, privkey_enc: Seq<char>) -> (drawn: (
    Seq<u8>,
    Seq<u8>,
))
    requires
        is_wallet_of(key, address, privkey_enc),
    ensures
        is_drawn_secret(drawn.0),
        is_drawn_nonce(drawn.1),
        drawn.0.len() == 32,
        drawn.1.len() == 12,
        address == base58_text(ed25519_public(drawn.0)),
        privkey_enc == base64_text(
            drawn.1 + aes256gcm_sealed(
                key,
                drawn.1,
                encode_utf8(base58_text(drawn.0 + ed25519_public(drawn.0))),
            ),
        ),
        opened(key, privkey_enc) == Ok::<Seq<char>, Seq<char>>(
            base58_text(drawn.0 + ed25519_public(drawn.0)),
        ),
{
    let (secret, nonce) = choose|secret: Seq<u8>, nonce: Seq<u8>|
        {
            &&& secret.len() == 32
            &&& nonce.len() == NONCE_LEN
            &&& is_drawn_secret(secret)
            &&& is_drawn_nonce(nonce)
            &&& #[trigger] is_wallet_from(key, secret, nonce, address, privkey_enc)
        };
    law_wallet_from(key, secret, nonce, address, privkey_enc);
    (secret, nonce)
}

/// What was stored of a generated wallet opens under the same key: to the
/// private key of the account that the wallet's address names.
pub proof fn law_generated_wallet_opens(key: Seq<u8>, address: Seq<char>, privkey_enc: Seq<char>)
    requires
        is_wallet_of(key, address, privkey_enc),
    ensures
        exists|secret: Seq<u8>|
            {
                &&& secret.len() == 32
                &&& is_drawn_secret(secret)
                &&& opened(key, privkey_enc) == Ok::<Seq<char>, Seq<char>>(
                    #[trigger] wallet_private_key(secret),
                )
                &&& address_account(address) == Some(ed25519_public(secret))
            },
{
}

/// The nonce that a stored text begins with.
pub open spec fn stored_nonce(text: Seq<char>) -> Option<Seq<u8>> {
    match base64_bytes(text) {
        Some(payload) => Some(payload.take(NONCE_LEN as int)),
        None => None,
    }
}

/// As long as the draws do not repeat, neither do the wallets. Another nonce
/// stands at the beginning of another stored text, so that none is used twice;
/// another secret key gives another private key and another stored text; and
/// another public key gives another address.
pub proof fn law_wallets_differ(
    key: Seq<u8>,
    secret: Seq<u8>,
    nonce: Seq<u8>,
    wallet: (Seq<char>, Seq<char>),
    other_secret: Seq<u8>,
    other_nonce: Seq<u8>,
    other_wallet: (Seq<char>, Seq<char>),
)
    requires
        secret.len() == 32,
        other_secret.len() == 32,
        is_wallet_from(key, secret, nonce, wallet.0, wallet.1),
        is_wallet_from(key, other_secret, other_nonce, other_wallet.0, other_wallet.1),
    ensures
        stored_nonce(wallet.1) == Some(nonce),
        nonce != other_nonce ==> stored_nonce(wallet.1) != stored_nonce(other_wallet.1),
        nonce != other_nonce ==> wallet.1 != other_wallet.1,
        secret != other_secret ==> opened(key, wallet.1) != opened(key, other_wallet.1),
        secret != other_secret ==> wallet.1 != other_wallet.1,
        ed25519_public(secret) != ed25519_public(other_secret) ==> wallet.0 != other_wallet.0,
{
    let public = ed25519_public(secret);
    let other_public = ed25519_public(other_secret);
    assert(public.len() == 32 && other_public.len() == 32);
    if wallet_private_key(secret) == wallet_private_key(other_secret) {
        law_base58_injective(secret + public, other_secret + other_public);
        assert((secret + public).take(32) =~= secret);
        assert((other_secret + other_public).take(32) =~= other_secret);
    }
}

/// Generates a new key pair, and returns its address and its private key,
/// encrypted under `key` with a new nonce.
pub fn generate_and_encrypt_wallet(key: &EncryptionKey) -> (wallet: Result<
    (String, String),
    String,
>)
    ensures
        wallet matches Ok((address, privkey_enc)) && is_wallet_of(key@, address@, privkey_enc@),
{
    let secret = draw_secret();
    let nonce = draw_nonce();
    let wallet = encrypt_wallet(key, &secret, &nonce);
    proof {
        assert(secret@.len() == 32 && nonce@.len() == NONCE_LEN);
    }
    wallet
}

/// The parts of a decoded payload, as sequences.
pub open spec fn parts_view(parts: Result<([u8; 12], Vec<u8>), String>) -> Result<
    (Seq<u8>, Seq<u8>),
    Seq<char>,
> {
    match parts {
        Ok((nonce, ciphertext)) => Ok((nonce@, ciphertext@)),
        Err(message) => Err(message@),
    }
}

/// The outcome of reading base64, as sequences.
pub open spec fn decoded_view(decoded: Result<Vec<u8>, String>) -> Result<Seq<u8>, Seq<char>> {
    match decoded {
        Ok(bytes) => Ok(bytes@),
        Err(message) => Err(message@),
    }
}

/// Takes a payload apart into nonce and ciphertext, given the outcome of
/// reading its base64 text.
pub fn split_payload(decoded: Result<Vec<u8>, String>) -> (parts: Result<
    ([u8; 12], Vec<u8>),
    String,
>)
    ensures
        parts_view(parts) == payload_parts(decoded_view(decoded)),
        match decoded {
            Err(reason) => parts matches Err(message) && message@ == "Invalid base64 payload: "@
                + reason@,
            Ok(payload) => if payload@.len() < 12 {
                parts matches Err(message) && message@
                    == "Encrypted payload is too short to contain a nonce"@
            } else {
                parts matches Ok((nonce, ciphertext)) && nonce@ + ciphertext@ == payload@
            },
        },
{
    match decoded {
        Err(message) => Err(join("Invalid base64 payload: ", message.as_str())),
        Ok(payload) => {
            if payload.len() < NONCE_LEN {
                return Err("Encrypted payload is too short to contain a nonce".to_owned());
            }
            let (head, tail) = payload.as_slice().split_at(NONCE_LEN);
            let mut nonce = [0u8; 12];
            let mut i: usize = 0;
            while i < NONCE_LEN
                invariant
                    i <= NONCE_LEN,
                    head@.len() == NONCE_LEN,
                    nonce@.len() == NONCE_LEN,
                    forall|j: int| 0 <= j < i ==> nonce@[j] == head@[j],
                decreases NONCE_LEN - i,
            {
                nonce[i] = head[i];
                i = i + 1;
            }
            assert(nonce@ =~= payload@.take(NONCE_LEN as int));
            assert(tail@ =~= payload@.skip(NONCE_LEN as int));
            Ok((nonce, slice_to_vec(tail)))
        },
    }
}

/// Reads the private key, given the outcome of reading the plaintext as UTF-8.
pub fn read_private_key(utf8: Result<String, String>) -> (private_key: Result<String, String>)
    ensures
        result_text(private_key) == private_key_reading(result_text(utf8)),
        match utf8 {
            Ok(text) => private_key matches Ok(found) && found@ == text@,
            Err(reason) => private_key matches Err(message) && message@
                == "Invalid UTF-8 in private key: "@ + reason@,
        },
{
    match utf8 {
        Ok(text) => Ok(text),
        Err(message) => Err(join("Invalid UTF-8 in private key: ", message.as_str())),
    }
}

/// Reads the private key, given the outcome of the decryption.
pub fn read_plaintext(decrypted: Option<Vec<u8>>) -> (private_key: Result<String, String>)
    ensures
        result_text(private_key) == plaintext_reading(option_bytes(decrypted)),
        match decrypted {
            None => private_key matches Err(message) && message@
                == "Decryption failed: aead::Error"@,
            Some(bytes) => if valid_utf8(bytes@) {
                private_key matches Ok(found) && encode_utf8(found@) == bytes@
            } else {
                private_key matches Err(message) && message@ == "Invalid UTF-8 in private key: "@
                    + utf8_error_text(bytes@)
            },
        },
{
    match decrypted {
        None => Err("Decryption failed: aead::Error".to_owned()),
        Some(bytes) => {
            proof {
                if valid_utf8(bytes@) {
                    decode_utf8_encode_utf8(bytes@);
                }
            }
            read_private_key(string_from_utf8(bytes))
        },
    }
}

/// Whether `text` is what sealing `private_key` under `key` gives with some
/// nonce.
pub open spec fn is_sealed_text(key: Seq<u8>, private_key: Seq<char>, text: Seq<char>) -> bool {
    exists|nonce: Seq<u8>|
        nonce.len() == NONCE_LEN && #[trigger] sealed(key, nonce, encode_utf8(private_key)) == Ok::<
            Seq<char>,
            Seq<char>,
        >(text)
}

/// A sealed text is the base64 text of a nonce and of what AES-256-GCM makes of
/// the private key under it. The result is that nonce.
pub proof fn law_sealed_text(key: Seq<u8>, private_key: Seq<char>, text: Seq<char>) -> (nonce: Seq<
    u8,
>)
    requires
        is_sealed_text(key, private_key, text),
    ensures
        nonce.len() == 12,
        text == base64_text(nonce + aes256gcm_sealed(key, nonce, encode_utf8(private_key))),
{
    choose|nonce: Seq<u8>|
        nonce.len() == NONCE_LEN && #[trigger] sealed(key, nonce, encode_utf8(private_key)) == Ok::<
            Seq<char>,
            Seq<char>,
        >(text)
}

/// Decrypts a stored text back into the base58 private key. Whatever is wrong
/// with the text is said in the error. Only a text that was sealed under `key`
/// has a private key in it, and none that is too short for nonce and tag.
pub fn decrypt_wallet(key: &EncryptionKey, encrypted_base64: &str) -> (private_key: Result<
    String,
    String,
>)
    ensures
        result_text(private_key) == opened(key@, encrypted_base64@),
        match private_key {
            Ok(found) => opened(key@, encrypted_base64@) == Ok::<Seq<char>, Seq<char>>(found@),
            Err(message) => opened(key@, encrypted_base64@) == Err::<Seq<char>, Seq<char>>(
                message@,
            ),
        },
        private_key matches Ok(found) ==> (encode_utf8(found@).len() <= MAX_PLAINTEXT_LEN
            ==> is_sealed_text(key@, found@, encrypted_base64@)),
        base64_bytes(encrypted_base64@) matches Some(payload) ==> (NONCE_LEN <= payload.len()
            < NONCE_LEN + TAG_LEN ==> result_text(private_key) == Err::<Seq<char>, Seq<char>>(
            "Decryption failed: aead::Error"@,
        )),
{
    let decoded = base64_decode(encrypted_base64);
    proof {
        if decoded is Ok {
            law_base64_round_trip(decoded->Ok_0@);
        }
        assert(decoded_view(decoded) == base64_reading(encrypted_base64@));
    }
    match split_payload(decoded) {
        Err(message) => Err(message),
        Ok((nonce, ciphertext)) => {
            match aes256gcm_decrypt(key.bytes(), &nonce, ciphertext.as_slice()) {
                Ok(bytes) => {
                    proof {
                        let payload = base64_reading(encrypted_base64@)->Ok_0;
                        assert(payload =~= nonce@ + ciphertext@);
                        if valid_utf8(bytes@) {
                            decode_utf8_encode_utf8(bytes@);
                            let found = decode_utf8(bytes@);
                            assert(bytes@.len() <= MAX_PLAINTEXT_LEN ==> sealed(
                                key@,
                                nonce@,
                                encode_utf8(found),
                            ) == Ok::<Seq<char>, Seq<char>>(encrypted_base64@));
                        }
                    }
                    read_plaintext(Some(bytes))
                },
                Err(_) => read_plaintext(None),
            }
        },
    }
}

} // verus!
