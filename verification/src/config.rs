//! What the bot takes from its environment: the encryption key, which is set
//! once, and the two Solana endpoints.

use crate::text::{decimal_text, join};
use vstd::prelude::*;
use vstd::utf8::encode_utf8;

verus! {

/// The number of bytes in an encryption key.
pub const KEY_LEN: usize = 32;

/// The key that private keys are encrypted under.
pub struct EncryptionKey {
    bytes: [u8; 32],
}

impl View for EncryptionKey {
    type V = Seq<u8>;

    closed spec fn view(&self) -> Seq<u8> {
        self.bytes@
    }
}

/// Why an encryption key was not set, or not found.
#[derive(Clone, Copy, Debug, PartialEq, Eq, Structural)]
pub enum KeyError {
    /// The variable is not set.
    Missing,
    /// The variable holds this number of bytes.
    WrongLength(usize),
    /// A key was set before.
    AlreadySet,
    /// No key was set yet.
    NotSet,
}

/// The message for a key that was not set, or not found.
pub open spec fn key_error_message(error: KeyError) -> Seq<char> {
    match error {
        KeyError::Missing =>
            "ENCRYPTION_KEY env var must be set to a 32-byte secret before starting the bot"@,
        KeyError::WrongLength(len) => "ENCRYPTION_KEY must be exactly 32 bytes, got "@
            + crate::text::decimal(len as nat) + " bytes"@,
        KeyError::AlreadySet => "init_encryption_key called more than once"@,
        KeyError::NotSet =>
            "encryption key accessed before init_encryption_key() was called"@,
    }
}

impl KeyError {
    /// The message to stop with.
    pub fn message(&self) -> (message: String)
        ensures
            message@ == key_error_message(*self),
            match self {
                KeyError::Missing => message@
                    == "ENCRYPTION_KEY env var must be set to a 32-byte secret before starting the bot"@,
                KeyError::WrongLength(len) => message@
                    == "ENCRYPTION_KEY must be exactly 32 bytes, got "@ + crate::text::decimal(
                    *len as nat,
                ) + " bytes"@,
                KeyError::AlreadySet => message@ == "init_encryption_key called more than once"@,
                KeyError::NotSet => message@
                    == "encryption key accessed before init_encryption_key() was called"@,
            },
    {
        match self {
            KeyError::Missing =>
                "ENCRYPTION_KEY env var must be set to a 32-byte secret before starting the bot".to_owned(),
            KeyError::WrongLength(len) => {
                let head = join(
                    "ENCRYPTION_KEY must be exactly 32 bytes, got ",
                    decimal_text(*len).as_str(),
                );
                join(head.as_str(), " bytes")
            },
            KeyError::AlreadySet => "init_encryption_key called more than once".to_owned(),
            KeyError::NotSet =>
                "encryption key accessed before init_encryption_key() was called".to_owned(),
        }
    }
}

impl EncryptionKey {
    /// The bytes of the key.
    pub fn bytes(&self) -> (bytes: &[u8; 32])
        ensures
            bytes@ == self@,
    {
        &self.bytes
    }
}

/// What a variable holds, where it is set.
pub open spec fn variable_text(variable: Option<&str>) -> Option<Seq<char>> {
    match variable {
        Some(text) => Some(text@),
        None => None,
    }
}

/// The key that a variable holds: its UTF-8 bytes, of which there must be
/// exactly 32.
pub open spec fn variable_key(variable: Option<Seq<char>>) -> Result<Seq<u8>, KeyError> {
    match variable {
        None => Err(KeyError::Missing),
        Some(text) => if encode_utf8(text).len() == KEY_LEN {
            Ok(encode_utf8(text))
        } else {
            Err(KeyError::WrongLength(encode_utf8(text).len() as usize))
        },
    }
}

/// The outcome of reading a key, as bytes.
pub open spec fn key_view(key: Result<EncryptionKey, KeyError>) -> Result<Seq<u8>, KeyError> {
    match key {
        Ok(key) => Ok(key@),
        Err(error) => Err(error),
    }
}

/// Reads the encryption key out of the `ENCRYPTION_KEY` variable.
pub fn read_encryption_key(variable: Option<&str>) -> (key: Result<EncryptionKey, KeyError>)
    ensures
        key_view(key) == variable_key(variable_text(variable)),
        match variable {
            None => key == Err::<EncryptionKey, KeyError>(KeyError::Missing),
            Some(text) => if encode_utf8(text@).len() == 32 {
                key matches Ok(found) && found@ == encode_utf8(text@)
            } else {
                key matches Err(KeyError::WrongLength(len)) && len == encode_utf8(text@).len()
            },
        },
{
    match variable {
        None => Err(KeyError::Missing),
        Some(text) => {
            let source = text.as_bytes();
            if source.len() != KEY_LEN {
                return Err(KeyError::WrongLength(source.len()));
            }
            let mut bytes = [0u8; 32];
            let mut i: usize = 0;
            while i < KEY_LEN
                invariant
                    i <= KEY_LEN,
                    source@.len() == KEY_LEN,
                    bytes@.len() == KEY_LEN,
                    forall|j: int| 0 <= j < i ==> bytes@[j] == source@[j],
                decreases KEY_LEN - i,
            {
                bytes[i] = source[i];
                i = i + 1;
            }
            assert(bytes@ =~= source@);
            Ok(EncryptionKey { bytes })
        },
    }
}

/// The place where the encryption key is kept once it is set.
pub struct KeyCell {
    key: Option<EncryptionKey>,
}

impl View for KeyCell {
    type V = Option<Seq<u8>>;

    closed spec fn view(&self) -> Option<Seq<u8>> {
        match self.key {
            Some(key) => Some(key@),
            None => None,
        }
    }
}

/// A key is the variable's text, byte for byte and no byte more or less: there is
/// no key without a variable, and none that was cut or filled up to its length.
/// What is said otherwise counts the bytes.
pub proof fn law_variable_key(text: Seq<char>, key: Seq<u8>)
    ensures
        variable_key(None) == Err::<Seq<u8>, KeyError>(KeyError::Missing),
        variable_key(Some(text)) == Ok::<Seq<u8>, KeyError>(key) <==> encode_utf8(text) == key
            && key.len() == 32,
        encode_utf8(text).len() != 32 ==> variable_key(Some(text)) == Err::<Seq<u8>, KeyError>(
            KeyError::WrongLength(encode_utf8(text).len() as usize),
        ),
{
}

/// What comes of setting the key from a variable: the key that is then held, or
/// the reason why nothing has changed.
pub open spec fn init_outcome(held: Option<Seq<u8>>, variable: Option<Seq<char>>) -> Result<
    Seq<u8>,
    KeyError,
> {
    match variable_key(variable) {
        Ok(key) => if held is None {
            Ok(key)
        } else {
            Err(KeyError::AlreadySet)
        },
        Err(error) => Err(error),
    }
}

/// The key that is held after it was to be set from a variable.
pub open spec fn held_after(held: Option<Seq<u8>>, variable: Option<Seq<char>>) -> Option<Seq<u8>> {
    match init_outcome(held, variable) {
        Ok(key) => Some(key),
        Err(_) => held,
    }
}

impl KeyCell {
    /// A place without a key.
    pub fn new() -> (cell: KeyCell)
        ensures
            cell@ is None,
    {
        KeyCell { key: None }
    }

    /// Sets the encryption key from the `ENCRYPTION_KEY` variable. Where the
    /// variable holds no key, or a key is set already, nothing changes.
    pub fn init_encryption_key(&mut self, variable: Option<&str>) -> (outcome: Result<(), KeyError>)
        ensures
            final(self)@ == held_after(old(self)@, variable_text(variable)),
            match init_outcome(old(self)@, variable_text(variable)) {
                Ok(_) => outcome is Ok,
                Err(error) => outcome == Err::<(), KeyError>(error),
            },
            outcome is Ok <==> {
                &&& old(self)@ is None
                &&& variable matches Some(text)
                &&& encode_utf8(text@).len() == 32
            },
            outcome is Ok ==> final(self)@ == Some(encode_utf8(variable->Some_0@)),
            outcome is Err ==> final(self)@ == old(self)@,
            variable is None ==> outcome == Err::<(), KeyError>(KeyError::Missing),
            variable matches Some(text) ==> (encode_utf8(text@).len() != 32 ==> outcome == Err::<
                (),
                KeyError,
            >(KeyError::WrongLength(encode_utf8(text@).len() as usize))),
            variable matches Some(text) ==> (encode_utf8(text@).len() == 32 && outcome is Err
                ==> outcome == Err::<(), KeyError>(KeyError::AlreadySet)),
    {
        match read_encryption_key(variable) {
            Ok(key) => {
                if self.key.is_some() {
                    return Err(KeyError::AlreadySet);
                }
                self.key = Some(key);
                Ok(())
            },
            Err(error) => Err(error),
        }
    }

    /// The encryption key, once it is set.
    pub fn encryption_key(&self) -> (key: Result<&EncryptionKey, KeyError>)
        ensures
            match self@ {
                Some(held) => key matches Ok(found) && found@ == held,
                None => key == Err::<&EncryptionKey, KeyError>(KeyError::NotSet),
            },
    {
        match &self.key {
            Some(key) => Ok(key),
            None => Err(KeyError::NotSet),
        }
    }
}

/// A key of 32 bytes is set where none is held, and refused where one is. What
/// is held afterwards is the first key.
pub proof fn law_init_outcome(held: Seq<u8>, text: Seq<char>)
    requires
        encode_utf8(text).len() == 32,
    ensures
        init_outcome(None, Some(text)) == Ok::<Seq<u8>, KeyError>(encode_utf8(text)),
        held_after(None, Some(text)) == Some(encode_utf8(text)),
        init_outcome(Some(held), Some(text)) == Err::<Seq<u8>, KeyError>(KeyError::AlreadySet),
        held_after(Some(held), Some(text)) == Some(held),
{
}

/// What is said of a key that is missing or misused.
pub proof fn law_key_error_messages(len: usize)
    ensures
        key_error_message(KeyError::Missing)
            == "ENCRYPTION_KEY env var must be set to a 32-byte secret before starting the bot"@,
        key_error_message(KeyError::WrongLength(len))
            == "ENCRYPTION_KEY must be exactly 32 bytes, got "@ + crate::text::decimal(len as nat)
            + " bytes"@,
        key_error_message(KeyError::AlreadySet) == "init_encryption_key called more than once"@,
        key_error_message(KeyError::NotSet)
            == "encryption key accessed before init_encryption_key() was called"@,
{
}

/// The key that is held after it was to be set from one variable after the
/// other.
pub open spec fn held_after_all(variables: Seq<Option<Seq<char>>>) -> Option<Seq<u8>>
    decreases variables.len(),
{
    if variables.len() == 0 {
        None
    } else {
        held_after(held_after_all(variables.drop_last()), variables.last())
    }
}

/// The key is set once: of all the variables that it was to be set from, the
/// first that holds a key decides. What came before it failed and left the key
/// unset, and what came after it changed nothing.
pub proof fn law_key_set_once(variables: Seq<Option<Seq<char>>>, first: int)
    requires
        0 <= first < variables.len(),
        variable_key(variables[first]) is Ok,
        forall|i: int| 0 <= i < first ==> variable_key(#[trigger] variables[i]) is Err,
    ensures
        held_after_all(variables.take(first)) is None,
        init_outcome(held_after_all(variables.take(first)), variables[first]) == variable_key(
            variables[first],
        ),
        held_after_all(variables) == Some(variable_key(variables[first])->Ok_0),
    decreases variables.len(),
{
    lemma_no_key(variables.take(first));
    let earlier = variables.drop_last();
    if first < earlier.len() {
        law_key_set_once(earlier, first);
    } else {
        assert(earlier =~= variables.take(first));
    }
}

/// Where no variable held a key, none is set.
proof fn lemma_no_key(variables: Seq<Option<Seq<char>>>)
    requires
        forall|i: int| 0 <= i < variables.len() ==> variable_key(#[trigger] variables[i]) is Err,
    ensures
        held_after_all(variables) is None,
    decreases variables.len(),
{
    if variables.len() > 0 {
        let earlier = variables.drop_last();
        assert forall|i: int| 0 <= i < earlier.len() implies variable_key(
            #[trigger] earlier[i],
        ) is Err by {
            assert(earlier[i] == variables[i]);
        }
        lemma_no_key(earlier);
    }
}

/// A variable that holds no key is refused for the same reason whether or not a
/// key is held.
pub proof fn law_bad_variable_refused(held: Option<Seq<u8>>, text: Seq<char>)
    ensures
        init_outcome(held, None) == Err::<Seq<u8>, KeyError>(KeyError::Missing),
        held_after(held, None) == held,
        encode_utf8(text).len() != 32 ==> init_outcome(held, Some(text)) == Err::<
            Seq<u8>,
            KeyError,
        >(KeyError::WrongLength(encode_utf8(text).len() as usize)) && held_after(held, Some(text))
            == held,
{
}

/// A failed attempt to set the key leaves it as it was, and the next attempt
/// goes as if the failed one had not been made.
pub proof fn law_failed_init_changes_nothing(
    held: Option<Seq<u8>>,
    failed: Option<Seq<char>>,
    next: Option<Seq<char>>,
)
    requires
        init_outcome(held, failed) is Err,
    ensures
        held_after(held, failed) == held,
        init_outcome(held_after(held, failed), next) == init_outcome(held, next),
{
}

/// The RPC endpoint: the one configured, or else the public one of mainnet.
pub fn rpc_url(variable: Option<String>) -> (url: String)
    ensures
        url@ == match variable {
            Some(configured) => configured@,
            None => "https://api.mainnet-beta.solana.com"@,
        },
{
    match variable {
        Some(configured) => configured,
        None => "https://api.mainnet-beta.solana.com".to_owned(),
    }
}

/// The WebSocket endpoint: the one configured, or else the public one of
/// mainnet.
pub fn wss_url(variable: Option<String>) -> (url: String)
    ensures
        url@ == match variable {
            Some(configured) => configured@,
            None => "wss://api.mainnet-beta.solana.com"@,
        },
{
    match variable {
        Some(configured) => configured,
        None => "wss://api.mainnet-beta.solana.com".to_owned(),
    }
}

} // verus!
