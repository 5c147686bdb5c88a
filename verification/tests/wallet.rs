use aes_gcm::aead::{Aead, KeyInit};
use aes_gcm::{Aes256Gcm, Key, Nonce};
use axiom_trade_bot::balance::balance_account;
use axiom_trade_bot::config::{read_encryption_key, EncryptionKey};
use axiom_trade_bot::wallet::{
    decrypt_wallet, encrypt_wallet, frame_ciphertext, generate_and_encrypt_wallet, read_plaintext,
    read_private_key, seal, split_payload,
};
use base64::engine::general_purpose::STANDARD;
use base64::Engine;
use solana_sdk::signature::{Keypair, Signer};

const KEY: &str = "0123456789abcdef0123456789abcdef";
const OTHER_KEY: &str = "0123456789abcdef0123456789abcdeF";

const SECRET: [u8; 32] = [
    157, 97, 177, 157, 239, 253, 90, 96, 186, 132, 74, 244, 146, 236, 44, 196, 68, 73, 197, 105,
    123, 50, 105, 25, 112, 59, 172, 3, 28, 174, 127, 96,
];
const PUBLIC: [u8; 32] = [
    215, 90, 152, 1, 130, 177, 10, 183, 213, 75, 254, 211, 201, 100, 7, 58, 14, 225, 114, 243,
    218, 166, 35, 37, 175, 2, 26, 104, 247, 7, 81, 26,
];
const NONCE: [u8; 12] = [0, 1, 2, 3, 4, 5, 6, 7, 8, 9, 10, 11];

const ADDRESS: &str = "FVen3X669xLzsi6N2V91DoiyzHzg1uAgqiT8jZ9nS96Z";
const PRIVATE_KEY: &str =
    "49W385L4rePHy6PAaQUovbD2aacgN4HsKXSMeUzRg4fmwXszN91JuMFrQRj3vMDpZuRF3ZknQBuRBoWQJEfXstMw";
const STORED: &str = "AAECAwQFBgcICQoLGdzsT+EtnpjauSH2CPmBRYdZVuhK3jC5Qb3Y0/YR5Pf282VTLOBtQvYR3TGt9LBAYtKsu33907B5EV59alZbDvd3NncFeTDFDCs9T7seW2lOkqQoNxmok9SBd2bevGd57JK6zltEnNY=";

fn key(text: &str) -> EncryptionKey {
    match read_encryption_key(Some(text)) {
        Ok(key) => key,
        Err(_) => panic!("not a key"),
    }
}

fn stored_payload(key: &str, plaintext: &[u8]) -> String {
    let cipher = Aes256Gcm::new(Key::<Aes256Gcm>::from_slice(key.as_bytes()));
    let mut payload = NONCE.to_vec();
    payload.extend(cipher.encrypt(Nonce::from_slice(&NONCE), plaintext).unwrap());
    STANDARD.encode(payload)
}

#[test]
fn a_known_secret_gives_the_known_wallet() {
    let wallet = encrypt_wallet(&key(KEY), &SECRET, &NONCE);
    assert_eq!(wallet, Ok((ADDRESS.to_string(), STORED.to_string())));
}

#[test]
fn the_known_wallet_opens() {
    assert_eq!(decrypt_wallet(&key(KEY), STORED), Ok(PRIVATE_KEY.to_string()));
}

#[test]
fn a_generated_wallet_opens_to_its_own_private_key() {
    let key = key(KEY);
    let (address, stored) = generate_and_encrypt_wallet(&key).unwrap();
    let private_key = decrypt_wallet(&key, &stored).unwrap();
    let keypair = Keypair::from_base58_string(&private_key);
    assert_eq!(keypair.pubkey().to_string(), address);
    assert_eq!(balance_account(&address), Ok(keypair.pubkey().to_bytes()));
}

#[test]
fn generated_wallets_differ() {
    let key = key(KEY);
    let first = generate_and_encrypt_wallet(&key).unwrap();
    let second = generate_and_encrypt_wallet(&key).unwrap();
    assert_ne!(first.0, second.0);
    assert_ne!(first.1, second.1);
    let nonce_of = |stored: &str| STANDARD.decode(stored).unwrap()[..12].to_vec();
    assert_ne!(nonce_of(&first.1), nonce_of(&second.1));
}

#[test]
fn a_stored_text_holds_nonce_ciphertext_and_tag() {
    let key = key(KEY);
    let (_, stored) = generate_and_encrypt_wallet(&key).unwrap();
    let private_key = decrypt_wallet(&key, &stored).unwrap();
    assert_eq!(stored.len() % 4, 0);
    assert_eq!(STANDARD.decode(&stored).unwrap().len(), 12 + private_key.len() + 16);
    let payload = STANDARD.decode(STORED).unwrap();
    assert_eq!(payload.len(), 12 + PRIVATE_KEY.len() + 16);
    assert_eq!(&payload[..12], &NONCE[..]);
}

#[test]
fn another_key_does_not_open_a_wallet() {
    assert_eq!(
        decrypt_wallet(&key(OTHER_KEY), STORED),
        Err(format!("Decryption failed: {}", aes_gcm::Error))
    );
}

#[test]
fn a_changed_byte_is_noticed() {
    let payload = STANDARD.decode(STORED).unwrap();
    for i in [0, 11, 12, 50, payload.len() - 1] {
        let mut changed = payload.clone();
        changed[i] ^= 1;
        assert_eq!(
            decrypt_wallet(&key(KEY), &STANDARD.encode(changed)),
            Err("Decryption failed: aead::Error".to_string())
        );
    }
}

#[test]
fn bad_base64_is_said() {
    for text in ["not base64!", "A", "AAA", "AA=A", "AAECAwQFBgcICQoLYWJjZB==", "AAAA\n"] {
        let error = STANDARD.decode(text).unwrap_err();
        assert_eq!(
            decrypt_wallet(&key(KEY), text),
            Err(format!("Invalid base64 payload: {}", error))
        );
    }
    assert_eq!(
        decrypt_wallet(&key(KEY), "AA*A"),
        Err("Invalid base64 payload: Invalid symbol 42, offset 2.".to_string())
    );
}

#[test]
fn a_payload_without_a_whole_nonce_is_too_short() {
    for len in 0..12 {
        let text = STANDARD.encode(&NONCE[..len]);
        assert_eq!(
            decrypt_wallet(&key(KEY), &text),
            Err("Encrypted payload is too short to contain a nonce".to_string())
        );
    }
}

#[test]
fn a_payload_without_a_whole_tag_does_not_decrypt() {
    for len in 0..16 {
        let mut payload = NONCE.to_vec();
        payload.extend(vec![7u8; len]);
        assert_eq!(
            decrypt_wallet(&key(KEY), &STANDARD.encode(payload)),
            Err("Decryption failed: aead::Error".to_string())
        );
    }
}

#[test]
fn a_private_key_that_is_not_utf8_is_said() {
    let bytes = vec![b'a', 0xff, b'b'];
    let error = String::from_utf8(bytes.clone()).unwrap_err();
    let text = stored_payload(KEY, &bytes);
    let expected = Err(format!("Invalid UTF-8 in private key: {}", error));
    assert_eq!(decrypt_wallet(&key(KEY), &text), expected);
    assert_eq!(read_plaintext(Some(bytes)), expected);
}

#[test]
fn any_utf8_text_survives_sealing() {
    for text in ["", "a", "höhe", "🚀 to the moon"] {
        let stored = seal(&key(KEY), &NONCE, text.as_bytes()).unwrap();
        assert_eq!(stored, stored_payload(KEY, text.as_bytes()));
        assert_eq!(decrypt_wallet(&key(KEY), &stored), Ok(text.to_string()));
    }
}

#[test]
fn the_nonce_stands_in_front_of_the_ciphertext() {
    assert_eq!(
        frame_ciphertext(&NONCE, Some(b"abc".to_vec())),
        Ok("AAECAwQFBgcICQoLYWJj".to_string())
    );
    assert_eq!(
        frame_ciphertext(&NONCE, Some(b"abcd".to_vec())),
        Ok("AAECAwQFBgcICQoLYWJjZA==".to_string())
    );
    assert_eq!(
        frame_ciphertext(&NONCE, Some(vec![0xfb, 0xff])),
        Ok("AAECAwQFBgcICQoL+/8=".to_string())
    );
}

#[test]
fn a_failed_encryption_is_said() {
    assert_eq!(
        frame_ciphertext(&NONCE, None),
        Err(format!("Encryption failed: {}", aes_gcm::Error))
    );
}

#[test]
fn a_payload_splits_behind_the_nonce() {
    let mut payload = NONCE.to_vec();
    payload.extend(b"rest");
    assert_eq!(split_payload(Ok(payload)), Ok((NONCE, b"rest".to_vec())));
    assert_eq!(split_payload(Ok(NONCE.to_vec())), Ok((NONCE, vec![])));
    assert_eq!(
        split_payload(Ok(vec![1, 2, 3])),
        Err("Encrypted payload is too short to contain a nonce".to_string())
    );
    assert_eq!(
        split_payload(Err("why".to_string())),
        Err("Invalid base64 payload: why".to_string())
    );
}

#[test]
fn the_plaintext_is_read_as_text() {
    assert_eq!(read_plaintext(Some(b"key".to_vec())), Ok("key".to_string()));
    assert_eq!(read_plaintext(None), Err("Decryption failed: aead::Error".to_string()));
    assert_eq!(read_private_key(Ok("key".to_string())), Ok("key".to_string()));
    assert_eq!(
        read_private_key(Err("why".to_string())),
        Err("Invalid UTF-8 in private key: why".to_string())
    );
}

#[test]
fn an_address_names_its_account() {
    assert_eq!(balance_account(ADDRESS), Ok(PUBLIC));
    assert_eq!(balance_account("11111111111111111111111111111111"), Ok([0u8; 32]));
    assert_eq!(
        balance_account("So11111111111111111111111111111111111111112"),
        Ok([
            6, 155, 136, 87, 254, 171, 129, 132, 251, 104, 127, 99, 70, 24, 192, 53, 218, 196, 57,
            220, 26, 235, 59, 85, 152, 160, 240, 0, 0, 0, 0, 1
        ])
    );
}

#[test]
fn a_text_of_the_wrong_size_is_no_address() {
    let long = "1".repeat(45);
    let bad_and_long = "0".repeat(45);
    for text in ["", "1", "1111111111111111111111111111111", &ADDRESS[2..], &long, &bad_and_long] {
        assert_eq!(balance_account(text), Err("String is the wrong size".to_string()));
    }
    assert_eq!(
        balance_account("111111111111111111111111111111111"),
        Err("String is the wrong size".to_string())
    );
}

#[test]
fn a_text_outside_base58_is_no_address() {
    for text in ["0", "O", "I", "l", "FVen3X669xLzsi6N2V91DoiyzHzg1uAgqiT8jZ9nS96!", "ö", " "] {
        assert_eq!(balance_account(text), Err("Invalid Base58 string".to_string()));
    }
}
