use axiom_trade_bot::config::{read_encryption_key, EncryptionKey};
use axiom_trade_bot::dialogue::{
    handle_buy_address, handle_copy_trade_wallet, handle_idle_state, handle_message, handle_start,
    resume, schema, send_welcome_menu, Effect, Reply, Stage, State, Step, Update,
};
use axiom_trade_bot::menu::{
    buy_answer, menu_keyboard, parse_command, subscribed_answer, welcome_caption, Command,
};
use axiom_trade_bot::wallet::decrypt_wallet;

const USER: i64 = 4711;

fn key() -> EncryptionKey {
    match read_encryption_key(Some("0123456789abcdef0123456789abcdef")) {
        Ok(key) => key,
        Err(_) => panic!("not a key"),
    }
}

fn message(text: &str, html: bool) -> Effect {
    Effect::SendMessage { text: text.to_string(), html }
}

/// Follows a step up with replies, and gives the effects and whether the
/// answer was finished.
fn run(first: Step, replies: Vec<Reply>) -> (Vec<Effect>, bool) {
    let mut effects = vec![];
    let mut step = first;
    for reply in replies {
        match step {
            Step::Perform(effect, stage) => {
                effects.push(effect);
                step = resume(stage, reply);
            }
            Step::Finished => panic!("a reply to nothing"),
            Step::Failed(_) => panic!("a reply to nothing"),
        }
    }
    match step {
        Step::Perform(effect, _) => {
            effects.push(effect);
            (effects, false)
        }
        Step::Finished => (effects, true),
        Step::Failed(_) => (effects, false),
    }
}

#[test]
fn a_dialogue_starts_idle() {
    assert_eq!(State::default(), State::Idle);
}

#[test]
fn start_stores_a_wallet_and_welcomes_with_the_stored_one() {
    let step = handle_message(&key(), State::Idle, USER, Some("/start"));
    let stage = match step {
        Step::Perform(Effect::InsertUser { telegram_id, pubkey, privkey_enc }, stage) => {
            assert_eq!(telegram_id, USER);
            assert!(!pubkey.is_empty());
            assert!(decrypt_wallet(&key(), &privkey_enc).is_ok());
            stage
        }
        _ => panic!("no wallet"),
    };
    let (effects, finished) = run(
        resume(stage, Reply::Done),
        vec![
            Reply::Pubkey("stored".to_string()),
            Reply::Balance("1.2500".to_string()),
            Reply::Done,
        ],
    );
    assert!(finished);
    assert_eq!(
        effects,
        vec![
            Effect::SelectPubkey { telegram_id: USER },
            Effect::FetchBalance { pubkey: "stored".to_string() },
            send_welcome_menu("1.2500", "stored"),
        ]
    );
}

#[test]
fn start_shows_zero_where_no_balance_was_fetched() {
    let step = resume(
        Stage::BalanceAsked { pubkey: "stored".to_string() },
        Reply::Failed("down".to_string()),
    );
    assert_eq!(step, Step::Perform(send_welcome_menu("0.0000", "stored"), Stage::Finish));
}

#[test]
fn a_wallet_that_cannot_be_made_is_a_failure() {
    assert_eq!(
        handle_start(USER, Err("Encryption failed: aead::Error".to_string())),
        Step::Failed("Encryption failed: aead::Error".to_string())
    );
    assert_eq!(
        handle_start(USER, Ok(("a".to_string(), "b".to_string()))),
        Step::Perform(
            Effect::InsertUser {
                telegram_id: USER,
                pubkey: "a".to_string(),
                privkey_enc: "b".to_string()
            },
            Stage::UserStored { telegram_id: USER }
        )
    );
}

#[test]
fn the_buy_button_asks_for_a_contract() {
    let (effects, finished) = run(
        handle_message(&key(), State::Idle, USER, Some("Buy 🚀")),
        vec![Reply::Done, Reply::Done],
    );
    assert!(finished);
    assert_eq!(
        effects,
        vec![
            message("Please paste the token contract address to Buy:", false),
            Effect::UpdateDialogue(State::AwaitingBuyAddress),
        ]
    );
}

#[test]
fn the_copy_trade_button_asks_for_a_wallet() {
    let (effects, finished) = run(
        handle_message(&key(), State::Idle, USER, Some("Copy Trade ⚡")),
        vec![Reply::Done, Reply::Done],
    );
    assert!(finished);
    assert_eq!(
        effects,
        vec![
            message("Enter the wallet address you wish to copy trade:", false),
            Effect::UpdateDialogue(State::AwaitingCopyTradeWallet),
        ]
    );
}

#[test]
fn other_texts_are_answered_in_place() {
    let cases = [
        ("Position 📈", "Fetching your current open positions..."),
        ("Help", "Axiom bot documentation and support..."),
        ("help", "Unrecognized command. Please use the menu buttons."),
        ("/start ", "Unrecognized command. Please use the menu buttons."),
        ("", "Unrecognized command. Please use the menu buttons."),
        ("Referrals 💰", "Unrecognized command. Please use the menu buttons."),
        ("Sell 🛠️", "Unrecognized command. Please use the menu buttons."),
    ];
    for (text, answer) in cases {
        assert_eq!(
            run(handle_idle_state(&key(), USER, Some(text)), vec![Reply::Done]),
            (vec![message(answer, false)], true)
        );
    }
}

#[test]
fn an_idle_dialogue_ignores_a_message_without_text() {
    assert_eq!(handle_message(&key(), State::Idle, USER, None), Step::Finished);
}

#[test]
fn a_contract_address_is_bought() {
    let (effects, finished) = run(
        handle_message(&key(), State::AwaitingBuyAddress, USER, Some("Token")),
        vec![Reply::Done, Reply::Done],
    );
    assert!(finished);
    assert_eq!(
        effects,
        vec![
            message("✅ Executing buy order for contract: \n<code>Token</code>", true),
            Effect::ExitDialogue,
        ]
    );
}

#[test]
fn a_command_is_an_address_where_one_is_awaited() {
    assert_eq!(
        handle_buy_address(Some("/start")),
        Step::Perform(message(&buy_answer("/start"), true), Stage::ExitNext)
    );
}

#[test]
fn a_message_without_text_leaves_the_question_open() {
    assert_eq!(
        run(handle_buy_address(None), vec![Reply::Done]),
        (vec![message("Please send a valid text contract address.", false)], true)
    );
    assert_eq!(
        run(handle_copy_trade_wallet(USER, None), vec![Reply::Done]),
        (vec![message("Please send a valid text wallet address.", false)], true)
    );
}

#[test]
fn a_wallet_address_is_copied() {
    let (effects, finished) = run(
        handle_message(&key(), State::AwaitingCopyTradeWallet, USER, Some("Target")),
        vec![
            Reply::Privkey(Some("stored".to_string())),
            Reply::Done,
            Reply::Done,
            Reply::Done,
        ],
    );
    assert!(finished);
    assert_eq!(
        effects,
        vec![
            Effect::SelectPrivkey { telegram_id: USER },
            Effect::SpawnWorker {
                telegram_id: USER,
                target_wallet: "Target".to_string(),
                privkey_enc: "stored".to_string()
            },
            message(
                "⚡ Successfully subscribed! Now copy trading wallet: \n<code>Target</code>\n\nYou will receive a notification when a swap executes.",
                true
            ),
            Effect::ExitDialogue,
        ]
    );
}

#[test]
fn copying_needs_a_wallet_of_ones_own() {
    let (effects, finished) = run(
        handle_copy_trade_wallet(USER, Some("Target")),
        vec![Reply::Privkey(None), Reply::Done, Reply::Done],
    );
    assert!(finished);
    assert_eq!(
        effects,
        vec![
            Effect::SelectPrivkey { telegram_id: USER },
            message("Please run /start first to create your wallet.", false),
            Effect::ExitDialogue,
        ]
    );
}

#[test]
fn a_new_message_is_answered_by_the_handler_of_the_state() {
    for text in [None, Some("/start"), Some("Buy 🚀"), Some("Help"), Some("Target")] {
        let update = Update::NewMessage { telegram_id: USER, text };
        assert_eq!(
            schema(&key(), Some(State::AwaitingBuyAddress), update),
            Some(handle_buy_address(text))
        );
        assert_eq!(
            schema(&key(), Some(State::AwaitingCopyTradeWallet), update),
            Some(handle_copy_trade_wallet(USER, text))
        );
    }
    for text in [None, Some("Buy 🚀"), Some("Help"), Some("Target")] {
        let update = Update::NewMessage { telegram_id: USER, text };
        let answer = Some(handle_idle_state(&key(), USER, text));
        assert_eq!(schema(&key(), Some(State::Idle), update), answer);
        assert_eq!(schema(&key(), None, update), answer);
    }
}

#[test]
fn other_updates_have_no_answer() {
    let states = [
        None,
        Some(State::Idle),
        Some(State::AwaitingBuyAddress),
        Some(State::AwaitingCopyTradeWallet),
    ];
    for stored in states {
        assert_eq!(schema(&key(), stored, Update::Other), None);
    }
}

/// Plays a start of a user against a table in which a row that is there is not
/// replaced, and gives the address that the user is welcomed with.
fn start(users: &mut Vec<(i64, String, String)>, user: i64) -> String {
    let mut step = handle_message(&key(), State::Idle, user, Some("/start"));
    loop {
        step = match step {
            Step::Perform(Effect::InsertUser { telegram_id, pubkey, privkey_enc }, stage) => {
                if users.iter().all(|row| row.0 != telegram_id) {
                    users.push((telegram_id, pubkey, privkey_enc));
                }
                resume(stage, Reply::Done)
            }
            Step::Perform(Effect::SelectPubkey { telegram_id }, stage) => {
                let row = users.iter().find(|row| row.0 == telegram_id).unwrap();
                resume(stage, Reply::Pubkey(row.1.clone()))
            }
            Step::Perform(Effect::FetchBalance { pubkey }, _) => return pubkey,
            _ => panic!("no welcome"),
        };
    }
}

#[test]
fn starting_again_shows_the_same_wallet() {
    let mut users = vec![];
    let first = start(&mut users, USER);
    let stored = users.clone();
    assert_eq!(start(&mut users, USER), first);
    assert_eq!(users, stored);
    assert_ne!(start(&mut users, USER + 1), first);
    assert_eq!(start(&mut users, USER), first);
    for (_, _, privkey_enc) in &users {
        assert!(decrypt_wallet(&key(), privkey_enc).is_ok());
    }
}

#[test]
fn a_failure_ends_the_answer() {
    let stages = vec![
        Stage::Finish,
        Stage::UpdateNext(State::AwaitingBuyAddress),
        Stage::ExitNext,
        Stage::UserStored { telegram_id: USER },
        Stage::PubkeyAsked,
        Stage::PrivkeyAsked { telegram_id: USER, target_wallet: "t".to_string() },
        Stage::WorkerSpawned { target_wallet: "t".to_string() },
    ];
    for stage in stages {
        assert_eq!(
            resume(stage, Reply::Failed("down".to_string())),
            Step::Failed("down".to_string())
        );
    }
}

#[test]
fn a_reply_to_another_effect_is_refused() {
    assert_eq!(
        resume(Stage::PubkeyAsked, Reply::Done),
        Step::Failed("The reply does not belong to the effect".to_string())
    );
    assert_eq!(
        resume(Stage::Finish, Reply::Privkey(None)),
        Step::Failed("The reply does not belong to the effect".to_string())
    );
}

#[test]
fn the_menu_has_its_rows() {
    let keyboard = menu_keyboard();
    assert_eq!(
        keyboard.rows,
        vec![
            vec!["Buy 🚀", "Sell 🛠️"],
            vec!["DCA orders"],
            vec!["Position 📈", "My Trades 📊"],
            vec!["Referrals 💰", "Copy Trade ⚡"],
            vec!["Withdraw"],
            vec!["Help", "Settings ⚙️"],
        ]
    );
    assert!(keyboard.resize);
    assert!(keyboard.persistent);
}

#[test]
fn the_menu_has_four_working_buttons() {
    let mut working = vec![];
    for row in menu_keyboard().rows {
        for label in row {
            if parse_command(&label) != Command::Unrecognized {
                working.push(label);
            }
        }
    }
    assert_eq!(working, vec!["Buy 🚀", "Position 📈", "Copy Trade ⚡", "Help"]);
    assert_eq!(parse_command("/start"), Command::Start);
}

#[test]
fn the_welcome_has_its_text() {
    let expected = format!(
        "<b>Welcome to Axiom trade bot!</b>\n\n\
         Introducing a cutting-edge bot crafted exclusively for Solana Traders.\n\n\
         <b>Balance:</b> {:.4} SOL\n\n\
         Here's your Solana wallet address linked to your Telegram account. \
         Simply fund your wallet to start trading.\n\n\
         <code>{}</code>",
        12.5, "Addr"
    );
    assert_eq!(welcome_caption("12.5000", "Addr"), expected);
    assert_eq!(
        send_welcome_menu("12.5000", "Addr"),
        Effect::SendPhoto {
            photo: "assets/solana_logo.png".to_string(),
            caption: expected,
            keyboard: menu_keyboard(),
        }
    );
}

#[test]
fn the_answers_quote_the_address() {
    assert_eq!(
        buy_answer("<b>"),
        "✅ Executing buy order for contract: \n<code><b></code>"
    );
    assert_eq!(
        subscribed_answer(""),
        "⚡ Successfully subscribed! Now copy trading wallet: \n<code></code>\n\nYou will receive a notification when a swap executes."
    );
}

/// Plays a message through, with no balance to be had, and gives the state
/// that the dialogue is left in and the number of effects.
fn play(state: State, text: Option<&str>, has_wallet: bool) -> (State, usize) {
    let mut after = state;
    let mut count = 0;
    let mut step = handle_message(&key(), state, USER, text);
    loop {
        step = match step {
            Step::Perform(effect, stage) => {
                count += 1;
                let reply = match effect {
                    Effect::UpdateDialogue(next) => {
                        after = next;
                        Reply::Done
                    }
                    Effect::ExitDialogue => {
                        after = State::default();
                        Reply::Done
                    }
                    Effect::SelectPubkey { .. } => Reply::Pubkey("p".to_string()),
                    Effect::FetchBalance { .. } => Reply::Failed("down".to_string()),
                    Effect::SelectPrivkey { .. } => {
                        Reply::Privkey(if has_wallet { Some("e".to_string()) } else { None })
                    }
                    _ => Reply::Done,
                };
                resume(stage, reply)
            }
            Step::Finished => return (after, count),
            Step::Failed(message) => panic!("{}", message),
        };
    }
}

#[test]
fn a_conversation_moves_through_its_states() {
    assert_eq!(play(State::Idle, Some("/start"), false), (State::Idle, 4));
    assert_eq!(play(State::Idle, Some("Buy 🚀"), true), (State::AwaitingBuyAddress, 2));
    assert_eq!(play(State::AwaitingBuyAddress, None, true), (State::AwaitingBuyAddress, 1));
    assert_eq!(play(State::AwaitingBuyAddress, Some("Help"), true), (State::Idle, 2));
    assert_eq!(play(State::Idle, Some("Copy Trade ⚡"), true), (State::AwaitingCopyTradeWallet, 2));
    assert_eq!(
        play(State::AwaitingCopyTradeWallet, None, true),
        (State::AwaitingCopyTradeWallet, 1)
    );
    assert_eq!(play(State::AwaitingCopyTradeWallet, Some("w"), true), (State::Idle, 4));
    assert_eq!(play(State::AwaitingCopyTradeWallet, Some("w"), false), (State::Idle, 3));
    assert_eq!(play(State::Idle, None, true), (State::Idle, 0));
    assert_eq!(play(State::Idle, Some("Withdraw"), true), (State::Idle, 1));
}
