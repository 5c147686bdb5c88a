# Axiom Trade Bot

A Telegram bot for Solana traders: it makes each user an encrypted wallet,
answers from a menu, and watches the wallets that users want to copy.

- `src/` is the library, verified with Verus: the encryption key, the wallet
  format and its encryption, the conversation, the menu, the steps and waits of
  the copy-trade workers and the registry that holds them. What holds of them is
  stated in the contracts and in the proof functions whose names begin with
  `law_`.
- `app/` is the program: Telegram, SQLite, the Solana network and the
  environment variables.
- `tests/` runs the library on concrete values.

The functions that call `aes_gcm`, `base64`, `solana_sdk` and
`String::from_utf8` are the only ones whose contracts are taken on trust. They
are in `src/cipher.rs`, `src/base64_text.rs`, `src/keypair.rs` and
`src/wallet.rs`, each with a comment that says what is claimed of the call.
`src/users.rs` describes what the statements in `app/telegram.rs` do to the table
of users; that SQLite performs them so is not proved.

## Running

The program reads `ENCRYPTION_KEY` (exactly 32 bytes), `TELOXIDE_TOKEN`, and,
where they are set, `SOLANA_RPC_URL` and `SOLANA_WSS_URL`. It expects the
picture `assets/solana_logo.png`, and keeps its data in `axiom_bot.db`.
