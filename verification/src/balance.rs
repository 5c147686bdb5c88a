//! The balance of a wallet: which account to ask for, and what to show where
//! there is no answer.

use crate::base58_text::{base58_text, law_base58_injective};
use crate::keypair::{address_error, pubkey_from_str, AddressError};
use crate::text::option_text;
use vstd::prelude::*;

verus! {

/// The account that an address names: the 32 bytes whose base58 text it is.
pub open spec fn address_account(text: Seq<char>) -> Option<Seq<u8>> {
    if exists|bytes: Seq<u8>| bytes.len() == 32 && #[trigger] base58_text(bytes) == text {
        Some(choose|bytes: Seq<u8>| bytes.len() == 32 && #[trigger] base58_text(bytes) == text)
    } else {
        None
    }
}

/// The message for a text that is not an address.
pub open spec fn address_error_message(error: AddressError) -> Seq<char> {
    match error {
        AddressError::WrongSize => "String is the wrong size"@,
        AddressError::Invalid => "Invalid Base58 string"@,
    }
}

/// The address of an account names that account.
pub proof fn law_address_round_trip(account: Seq<u8>)
    requires
        account.len() == 32,
    ensures
        address_account(base58_text(account)) == Some(account),
{
    let text = base58_text(account);
    let found = choose|bytes: Seq<u8>| bytes.len() == 32 && #[trigger] base58_text(bytes) == text;
    law_base58_injective(found, account);
}

/// A text is the address of an account exactly where it is the base58 text of
/// the account's 32 bytes.
pub proof fn law_address_account(text: Seq<char>, account: Seq<u8>)
    ensures
        address_account(text) == Some(account) <==> account.len() == 32 && base58_text(account)
            == text,
        address_account(text) is None ==> (account.len() == 32 ==> base58_text(account) != text),
{
    if account.len() == 32 && base58_text(account) == text {
        law_address_round_trip(account);
    }
}

/// What is said of a text that is not an address.
pub proof fn law_address_error_messages()
    ensures
        address_error_message(AddressError::WrongSize) == "String is the wrong size"@,
        address_error_message(AddressError::Invalid) == "Invalid Base58 string"@,
{
}

/// The account to ask for the balance of an address, or the message that says
/// why the text is not an address.
pub fn balance_account(pubkey_str: &str) -> (account: Result<[u8; 32], String>)
    ensures
        match account {
            Ok(bytes) => address_account(pubkey_str@) == Some(bytes@) && base58_text(bytes@)
                == pubkey_str@,
            Err(message) => {
                &&& address_account(pubkey_str@) is None
                &&& message@ == address_error_message(address_error(pubkey_str@))
            },
        },
{
    match pubkey_from_str(pubkey_str) {
        Ok(bytes) => {
            proof {
                law_address_round_trip(bytes@);
            }
            Ok(bytes)
        },
        Err(AddressError::WrongSize) => Err("String is the wrong size".to_owned()),
        Err(AddressError::Invalid) => Err("Invalid Base58 string".to_owned()),
    }
}

/// The balance to show, with four decimals: the one fetched, or zero where
/// fetching failed.
pub open spec fn balance_text(fetched: Option<Seq<char>>) -> Seq<char> {
    match fetched {
        Some(text) => text,
        None => "0.0000"@,
    }
}

/// A balance that was fetched is shown as it is, and one that was not as zero.
pub proof fn law_balance_text(fetched: Seq<char>)
    ensures
        balance_text(Some(fetched)) == fetched,
        balance_text(None) == "0.0000"@,
{
}

/// The balance to show, given the one that was fetched, if that went well.
pub fn shown_balance(fetched: Option<String>) -> (balance: String)
    ensures
        balance@ == balance_text(option_text(fetched)),
        balance@ == match fetched {
            Some(text) => text@,
            None => "0.0000"@,
        },
{
    match fetched {
        Some(text) => text,
        None => "0.0000".to_owned(),
    }
}

} // verus!
