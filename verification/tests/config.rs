use axiom_trade_bot::balance::shown_balance;
use axiom_trade_bot::config::{read_encryption_key, rpc_url, wss_url, KeyCell, KeyError};
use axiom_trade_bot::text::{decimal_text, join, same_text};

#[test]
fn a_key_of_32_bytes_is_taken_as_it_is() {
    let text = "0123456789abcdef0123456789abcdef";
    match read_encryption_key(Some(text)) {
        Ok(key) => assert_eq!(&key.bytes()[..], text.as_bytes()),
        Err(_) => panic!("refused"),
    }
}

#[test]
fn the_length_of_a_key_counts_bytes() {
    let text = "ßßßßßßßßßßßßßßßß";
    match read_encryption_key(Some(text)) {
        Ok(key) => assert_eq!(&key.bytes()[..], text.as_bytes()),
        Err(_) => panic!("refused"),
    }
    let text = "ß123456789abcdef0123456789abcdef";
    match read_encryption_key(Some(text)) {
        Ok(_) => panic!("taken"),
        Err(error) => assert_eq!(error, KeyError::WrongLength(33)),
    }
}

#[test]
fn a_key_of_another_length_is_refused() {
    for len in [0, 1, 31, 33, 64] {
        match read_encryption_key(Some(&"k".repeat(len))) {
            Ok(_) => panic!("taken"),
            Err(error) => {
                assert_eq!(error, KeyError::WrongLength(len));
                assert_eq!(
                    error.message(),
                    format!("ENCRYPTION_KEY must be exactly 32 bytes, got {} bytes", len)
                );
            }
        }
    }
}

#[test]
fn a_missing_key_is_refused() {
    match read_encryption_key(None) {
        Ok(_) => panic!("taken"),
        Err(error) => {
            assert_eq!(error, KeyError::Missing);
            assert_eq!(
                error.message(),
                "ENCRYPTION_KEY env var must be set to a 32-byte secret before starting the bot"
            );
        }
    }
}

fn held(cell: &KeyCell) -> Result<Vec<u8>, KeyError> {
    cell.encryption_key().map(|key| key.bytes().to_vec())
}

#[test]
fn a_key_is_kept_once_it_is_set() {
    let mut cell = KeyCell::new();
    assert_eq!(held(&cell), Err(KeyError::NotSet));
    let text = "0123456789abcdef0123456789abcdef";
    assert_eq!(cell.init_encryption_key(Some(text)), Ok(()));
    assert_eq!(held(&cell), Ok(text.as_bytes().to_vec()));
}

#[test]
fn a_key_is_set_once() {
    let mut cell = KeyCell::new();
    let text = "0123456789abcdef0123456789abcdef";
    let other = "0123456789abcdef0123456789abcdeF";
    assert_eq!(cell.init_encryption_key(Some(text)), Ok(()));
    assert_eq!(cell.init_encryption_key(Some(other)), Err(KeyError::AlreadySet));
    assert_eq!(cell.init_encryption_key(Some(text)), Err(KeyError::AlreadySet));
    assert_eq!(cell.init_encryption_key(None), Err(KeyError::Missing));
    assert_eq!(cell.init_encryption_key(Some("short")), Err(KeyError::WrongLength(5)));
    assert_eq!(held(&cell), Ok(text.as_bytes().to_vec()));
}

#[test]
fn a_failed_attempt_leaves_the_key_unset() {
    let mut cell = KeyCell::new();
    assert_eq!(cell.init_encryption_key(None), Err(KeyError::Missing));
    assert_eq!(cell.init_encryption_key(Some("short")), Err(KeyError::WrongLength(5)));
    assert_eq!(held(&cell), Err(KeyError::NotSet));
    let text = "0123456789abcdef0123456789abcdef";
    assert_eq!(cell.init_encryption_key(Some(text)), Ok(()));
    assert_eq!(held(&cell), Ok(text.as_bytes().to_vec()));
}

#[test]
fn a_misused_key_has_its_message() {
    assert_eq!(KeyError::AlreadySet.message(), "init_encryption_key called more than once");
    assert_eq!(
        KeyError::NotSet.message(),
        "encryption key accessed before init_encryption_key() was called"
    );
}

#[test]
fn endpoints_are_configurable() {
    assert_eq!(rpc_url(Some("http://localhost:8899".to_string())), "http://localhost:8899");
    assert_eq!(wss_url(Some("ws://localhost:8900".to_string())), "ws://localhost:8900");
    assert_eq!(rpc_url(Some(String::new())), "");
}

#[test]
fn endpoints_fall_back_to_mainnet() {
    assert_eq!(rpc_url(None), "https://api.mainnet-beta.solana.com");
    assert_eq!(wss_url(None), "wss://api.mainnet-beta.solana.com");
}

#[test]
fn a_balance_that_was_not_fetched_is_zero() {
    assert_eq!(shown_balance(None), format!("{:.4}", 0.0f64));
    assert_eq!(shown_balance(Some("1.5000".to_string())), "1.5000");
}

#[test]
fn numbers_are_written_in_decimal() {
    for n in [0usize, 7, 9, 10, 42, 99, 100, 1_234_567_890, usize::MAX] {
        assert_eq!(decimal_text(n), n.to_string());
    }
}

#[test]
fn texts_are_compared_and_joined() {
    assert!(same_text("⚡", "⚡"));
    assert!(!same_text("a", "A"));
    assert_eq!(join("a⚡", "b"), "a⚡b");
}
