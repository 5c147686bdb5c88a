//! The rules of the Axiom trade bot, a Telegram bot for Solana traders.
//!
//! - [`config`]: the encryption key and the endpoints, out of the environment.
//! - [`wallet`]: making a wallet, and encrypting and decrypting its private
//!   key. It stands on [`keypair`], [`cipher`], [`base58_text`] and
//!   [`base64_text`].
//! - [`balance`]: the account behind an address, and the balance to show.
//! - [`menu`]: the buttons, the commands and the texts of the answers.
//! - [`dialogue`]: how a message is answered in each state of a dialogue, and
//!   [`dialogue_laws`]: what holds of every answer, and [`answer_laws`]: what
//!   each message is answered with.
//! - [`users`]: what the answers do to the stored wallets.
//! - [`worker`]: the steps and waits of a copy-trade worker.
//! - [`registry`]: the running workers, at most one for each user.
//! - [`text`]: small pieces of text.
//!
//! What is left to the program around the library is to talk to Telegram, to
//! the database and to the Solana network.

pub mod answer_laws;
pub mod balance;
pub mod base58_text;
pub mod base64_text;
pub mod cipher;
pub mod config;
pub mod dialogue;
pub mod dialogue_laws;
pub mod keypair;
pub mod menu;
pub mod registry;
pub mod text;
pub mod users;
pub mod wallet;
pub mod worker;
