//! What each message is answered with: the effects that are performed, in their
//! order and with their texts, for every message in every state and whatever
//! the replies to the effects are.

use crate::dialogue::{
    dialogue_state, is_answer, message_text, resume_step, start_step, wallet_view, Effect, EffectView, Reply,
    ReplyView, Stage, StageView, State, Step, StepView,
};
use crate::dialogue_laws::{completes, goes_on, is_consistent, performed};
use crate::menu::{law_commands, KeyboardView};
use crate::wallet::is_wallet_of;
use vstd::prelude::*;

verus! {

/// Whether the reply at a position is there and says that the effect is done.
pub open spec fn done(replies: Seq<ReplyView>, i: int) -> bool {
    0 <= i < replies.len() && replies[i] == ReplyView::Done
}

/// `/start` stores a new wallet of the key for the user, reads the address that
/// is then stored, asks for its balance, and welcomes the user with that address,
/// the balance and the menu. A balance that could not be had is shown as zero.
/// Each effect waits for the one before it. The result is the new wallet.
pub proof fn law_start_answer(
    key: Seq<u8>,
    telegram_id: i64,
    step: StepView,
    replies: Seq<ReplyView>,
    pubkey: Seq<char>,
    balance: Seq<char>,
) -> (wallet: (Seq<char>, Seq<char>))
    requires
        is_answer(key, State::Idle, telegram_id, Some("/start"@), step),
        replies.len() > 1 ==> replies[1] == ReplyView::Pubkey(pubkey) || !(replies[1] is Pubkey),
        replies.len() > 2 ==> match replies[2] {
            ReplyView::Balance(fetched) => balance == fetched,
            ReplyView::Failed(_) => balance == "0.0000"@,
            _ => true,
        },
    ensures
        is_wallet_of(key, wallet.0, wallet.1),
        ({
            let all = seq![
                EffectView::InsertUser { telegram_id, pubkey: wallet.0, privkey_enc: wallet.1 },
                EffectView::SelectPubkey { telegram_id },
                EffectView::FetchBalance { pubkey },
                EffectView::SendPhoto {
                    photo: "assets/solana_logo.png"@,
                    caption: "<b>Welcome to Axiom trade bot!</b>\n\nIntroducing a cutting-edge bot crafted exclusively for Solana Traders.\n\n<b>Balance:</b> "@
                        + balance
                        + " SOL\n\nHere's your Solana wallet address linked to your Telegram account. Simply fund your wallet to start trading.\n\n<code>"@
                        + pubkey + "</code>"@,
                    keyboard: KeyboardView {
                        rows: seq![
                            seq!["Buy 🚀"@, "Sell 🛠️"@],
                            seq!["DCA orders"@],
                            seq!["Position 📈"@, "My Trades 📊"@],
                            seq!["Referrals 💰"@, "Copy Trade ⚡"@],
                            seq!["Withdraw"@],
                            seq!["Help"@, "Settings ⚙️"@],
                        ],
                        resize: true,
                        persistent: true,
                    },
                },
            ];
            performed(step, replies) == if !done(replies, 0) {
                all.take(1)
            } else if replies.len() == 1 || !(replies[1] is Pubkey) {
                all.take(2)
            } else if replies.len() == 2 || !(replies[2] is Balance || replies[2] is Failed) {
                all.take(3)
            } else {
                all
            }
        }),
        completes(
            step,
            seq![
                ReplyView::Done,
                ReplyView::Pubkey(pubkey),
                ReplyView::Balance(balance),
                ReplyView::Done,
            ],
        ),
{
    reveal_with_fuel(performed, 6);
    reveal_with_fuel(completes, 6);
    law_commands("/start"@);
    let replies_done = seq![
        ReplyView::Done,
        ReplyView::Pubkey(pubkey),
        ReplyView::Balance(balance),
        ReplyView::Done,
    ];
    let after_insert = replies_done.drop_first();
    let after_select = after_insert.drop_first();
    let after_fetch = after_select.drop_first();
    assert(after_insert[0] == ReplyView::Pubkey(pubkey));
    assert(after_select[0] == ReplyView::Balance(balance));
    assert(after_fetch =~= seq![ReplyView::Done]);
    let wallet = choose|wallet: Result<(Seq<char>, Seq<char>), Seq<char>>|
        {
            &&& crate::dialogue::asks_for_wallet(State::Idle, Some("/start"@))
                ==> crate::dialogue::is_made_wallet(key, wallet)
            &&& step == #[trigger] crate::dialogue::message_step(
                State::Idle,
                telegram_id,
                Some("/start"@),
                wallet,
            )
        };
    wallet->Ok_0
}

/// The buy button asks for a contract address, and then waits for one.
pub proof fn law_buy_button_answer(
    key: Seq<u8>,
    telegram_id: i64,
    step: StepView,
    replies: Seq<ReplyView>,
)
    requires
        is_answer(key, State::Idle, telegram_id, Some("Buy 🚀"@), step),
    ensures
        performed(step, replies) == if done(replies, 0) {
            seq![
                EffectView::SendMessage { text: "Please paste the token contract address to Buy:"@, html: false },
                EffectView::UpdateDialogue(State::AwaitingBuyAddress),
            ]
        } else {
            seq![EffectView::SendMessage { text: "Please paste the token contract address to Buy:"@, html: false }]
        },
        completes(step, seq![ReplyView::Done, ReplyView::Done]),
{
    reveal_with_fuel(performed, 4);
    reveal_with_fuel(completes, 4);
    law_commands("Buy 🚀"@);
    assert(seq![ReplyView::Done, ReplyView::Done].drop_first() =~= seq![ReplyView::Done]);
}

/// The copy trade button asks for a wallet address, and then waits for one.
pub proof fn law_copy_trade_button_answer(
    key: Seq<u8>,
    telegram_id: i64,
    step: StepView,
    replies: Seq<ReplyView>,
)
    requires
        is_answer(key, State::Idle, telegram_id, Some("Copy Trade ⚡"@), step),
    ensures
        performed(step, replies) == if done(replies, 0) {
            seq![
                EffectView::SendMessage { text: "Enter the wallet address you wish to copy trade:"@, html: false },
                EffectView::UpdateDialogue(State::AwaitingCopyTradeWallet),
            ]
        } else {
            seq![EffectView::SendMessage { text: "Enter the wallet address you wish to copy trade:"@, html: false }]
        },
        completes(step, seq![ReplyView::Done, ReplyView::Done]),
{
    reveal_with_fuel(performed, 4);
    reveal_with_fuel(completes, 4);
    law_commands("Copy Trade ⚡"@);
    assert(seq![ReplyView::Done, ReplyView::Done].drop_first() =~= seq![ReplyView::Done]);
}

/// The position button is answered in place.
pub proof fn law_position_button_answer(
    key: Seq<u8>,
    telegram_id: i64,
    step: StepView,
    replies: Seq<ReplyView>,
)
    requires
        is_answer(key, State::Idle, telegram_id, Some("Position 📈"@), step),
    ensures
        performed(step, replies) == seq![EffectView::SendMessage { text: "Fetching your current open positions..."@, html: false }],
        completes(step, seq![ReplyView::Done]),
{
    reveal_with_fuel(performed, 3);
    reveal_with_fuel(completes, 3);
    law_commands("Position 📈"@);
}

/// The help button is answered in place.
pub proof fn law_help_button_answer(
    key: Seq<u8>,
    telegram_id: i64,
    step: StepView,
    replies: Seq<ReplyView>,
)
    requires
        is_answer(key, State::Idle, telegram_id, Some("Help"@), step),
    ensures
        performed(step, replies) == seq![EffectView::SendMessage { text: "Axiom bot documentation and support..."@, html: false }],
        completes(step, seq![ReplyView::Done]),
{
    reveal_with_fuel(performed, 3);
    reveal_with_fuel(completes, 3);
    law_commands("Help"@);
}

/// An idle dialogue refuses every text but the five commands, and does nothing
/// else.
pub proof fn law_unrecognized_answer(
    key: Seq<u8>,
    telegram_id: i64,
    text: Seq<char>,
    step: StepView,
    replies: Seq<ReplyView>,
)
    requires
        is_answer(key, State::Idle, telegram_id, Some(text), step),
        text != "/start"@,
        text != "Buy 🚀"@,
        text != "Copy Trade ⚡"@,
        text != "Position 📈"@,
        text != "Help"@,
    ensures
        performed(step, replies) == seq![EffectView::SendMessage { text: "Unrecognized command. Please use the menu buttons."@, html: false }],
        completes(step, seq![ReplyView::Done]),
{
    reveal_with_fuel(performed, 3);
    reveal_with_fuel(completes, 3);
    law_commands(text);
}

/// An idle dialogue does nothing about a message without text.
pub proof fn law_idle_without_text(key: Seq<u8>, telegram_id: i64, step: StepView)
    requires
        is_answer(key, State::Idle, telegram_id, None, step),
    ensures
        step == StepView::Finished,
{
}

/// Every text is taken as the contract address where one is awaited: the order
/// is announced with that address, and then the question is closed.
pub proof fn law_buy_address_answer(
    key: Seq<u8>,
    telegram_id: i64,
    token_address: Seq<char>,
    step: StepView,
    replies: Seq<ReplyView>,
)
    requires
        is_answer(key, State::AwaitingBuyAddress, telegram_id, Some(token_address), step),
    ensures
        performed(step, replies) == if done(replies, 0) {
            seq![
                EffectView::SendMessage {
                    text: "✅ Executing buy order for contract: \n<code>"@ + token_address
                        + "</code>"@,
                    html: true,
                },
                EffectView::ExitDialogue,
            ]
        } else {
            seq![EffectView::SendMessage {
                    text: "✅ Executing buy order for contract: \n<code>"@ + token_address
                        + "</code>"@,
                    html: true,
                }]
        },
        completes(step, seq![ReplyView::Done, ReplyView::Done]),
{
    reveal_with_fuel(performed, 4);
    reveal_with_fuel(completes, 4);
    assert(seq![ReplyView::Done, ReplyView::Done].drop_first() =~= seq![ReplyView::Done]);
}

/// A message without text leaves the question for a contract address open.
pub proof fn law_buy_address_without_text(
    key: Seq<u8>,
    telegram_id: i64,
    step: StepView,
    replies: Seq<ReplyView>,
)
    requires
        is_answer(key, State::AwaitingBuyAddress, telegram_id, None, step),
    ensures
        performed(step, replies) == seq![EffectView::SendMessage { text: "Please send a valid text contract address."@, html: false }],
        completes(step, seq![ReplyView::Done]),
{
    reveal_with_fuel(performed, 3);
    reveal_with_fuel(completes, 3);
}

/// Every text is taken as the wallet to copy where one is awaited. Where the user
/// has a wallet, a worker is spawned for that user and that text with the stored
/// key; only when that is done is the user told that the wallet is being copied,
/// and then the question is closed.
pub proof fn law_copy_trade_answer(
    key: Seq<u8>,
    telegram_id: i64,
    target_wallet: Seq<char>,
    privkey_enc: Seq<char>,
    step: StepView,
    replies: Seq<ReplyView>,
)
    requires
        is_answer(key, State::AwaitingCopyTradeWallet, telegram_id, Some(target_wallet), step),
    ensures
        performed(step, replies)[0] == (EffectView::SelectPrivkey { telegram_id }),
        replies.len() > 0 && replies[0] == ReplyView::Privkey(Some(privkey_enc)) ==> ({
            let all = seq![
                EffectView::SelectPrivkey { telegram_id },
                EffectView::SpawnWorker { telegram_id, target_wallet, privkey_enc },
                EffectView::SendMessage {
                    text: "⚡ Successfully subscribed! Now copy trading wallet: \n<code>"@
                        + target_wallet
                        + "</code>\n\nYou will receive a notification when a swap executes."@,
                    html: true,
                },
                EffectView::ExitDialogue,
            ];
            performed(step, replies) == if !done(replies, 1) {
                all.take(2)
            } else if !done(replies, 2) {
                all.take(3)
            } else {
                all
            }
        }),
        completes(
            step,
            seq![
                ReplyView::Privkey(Some(privkey_enc)),
                ReplyView::Done,
                ReplyView::Done,
                ReplyView::Done,
            ],
        ),
        replies.len() == 0 || !(replies[0] is Privkey) ==> performed(step, replies).len() == 1,
{
    reveal_with_fuel(performed, 6);
    reveal_with_fuel(completes, 6);
    let replies_done = seq![
        ReplyView::Privkey(Some(privkey_enc)),
        ReplyView::Done,
        ReplyView::Done,
        ReplyView::Done,
    ];
    let after_select = replies_done.drop_first();
    assert(after_select =~= seq![ReplyView::Done, ReplyView::Done, ReplyView::Done]);
    assert(after_select.drop_first() =~= seq![ReplyView::Done, ReplyView::Done]);
    assert(after_select.drop_first().drop_first() =~= seq![ReplyView::Done]);
}

/// A user without a wallet is sent to `/start`, and the question is closed: no
/// worker is spawned.
pub proof fn law_copy_trade_without_wallet(
    key: Seq<u8>,
    telegram_id: i64,
    target_wallet: Seq<char>,
    step: StepView,
    replies: Seq<ReplyView>,
)
    requires
        is_answer(key, State::AwaitingCopyTradeWallet, telegram_id, Some(target_wallet), step),
        replies.len() > 0,
        replies[0] == ReplyView::Privkey(None),
    ensures
        ({
            let all = seq![
                EffectView::SelectPrivkey { telegram_id },
                EffectView::SendMessage {
                    text: "Please run /start first to create your wallet."@,
                    html: false,
                },
                EffectView::ExitDialogue,
            ];
            performed(step, replies) == if done(replies, 1) {
                all
            } else {
                all.take(2)
            }
        }),
        completes(step, seq![ReplyView::Privkey(None), ReplyView::Done, ReplyView::Done]),
{
    reveal_with_fuel(performed, 5);
    reveal_with_fuel(completes, 5);
    let replies_done = seq![ReplyView::Privkey(None), ReplyView::Done, ReplyView::Done];
    assert(replies_done.drop_first() =~= seq![ReplyView::Done, ReplyView::Done]);
    assert(replies_done.drop_first().drop_first() =~= seq![ReplyView::Done]);
}

/// A message without text leaves the question for a wallet address open.
pub proof fn law_copy_trade_without_text(
    key: Seq<u8>,
    telegram_id: i64,
    step: StepView,
    replies: Seq<ReplyView>,
)
    requires
        is_answer(key, State::AwaitingCopyTradeWallet, telegram_id, None, step),
    ensures
        performed(step, replies) == seq![EffectView::SendMessage { text: "Please send a valid text wallet address."@, html: false }],
        completes(step, seq![ReplyView::Done]),
{
    reveal_with_fuel(performed, 3);
    reveal_with_fuel(completes, 3);
}

/// What `/start` comes to for each outcome of making a wallet: the wallet that
/// was made is the one that is offered for storage, for the user who sent the
/// message; without one the answer fails with the reason.
pub proof fn law_start_step(
    telegram_id: i64,
    wallet: Result<(Seq<char>, Seq<char>), Seq<char>>,
    replies: Seq<ReplyView>,
)
    ensures
        match wallet {
            Ok((pubkey, privkey_enc)) => performed(start_step(telegram_id, wallet), replies)[0] == (
            EffectView::InsertUser { telegram_id, pubkey, privkey_enc }) && (done(replies, 0)
                ==> performed(start_step(telegram_id, wallet), replies)[1] == (
            EffectView::SelectPubkey { telegram_id })),
            Err(message) => start_step(telegram_id, wallet) == StepView::Failed(message),
        },
{
    reveal_with_fuel(performed, 3);
}

/// The first letters and the lengths of the messages, by which they differ.
proof fn lemma_messages_differ()
    ensures
        "Please paste the token contract address to Buy:"@[0] == 'P',
        "Please paste the token contract address to Buy:"@.len() == 47,
        "Enter the wallet address you wish to copy trade:"@[0] == 'E',
        "Fetching your current open positions..."@[0] == 'F',
        "Axiom bot documentation and support..."@[0] == 'A',
        "Unrecognized command. Please use the menu buttons."@[0] == 'U',
        "Please send a valid text contract address."@[0] == 'P',
        "Please send a valid text contract address."@.len() == 42,
        "Please send a valid text wallet address."@[0] == 'P',
        "Please send a valid text wallet address."@.len() == 40,
        "Please run /start first to create your wallet."@[0] == 'P',
        "Please run /start first to create your wallet."@.len() == 46,
        "✅ Executing buy order for contract: \n<code>"@.len() > 0,
        "✅ Executing buy order for contract: \n<code>"@[0] == '✅',
        "⚡ Successfully subscribed! Now copy trading wallet: \n<code>"@.len() > 0,
        "⚡ Successfully subscribed! Now copy trading wallet: \n<code>"@[0] == '⚡',
{
    reveal_strlit("Please paste the token contract address to Buy:");
    reveal_strlit("Enter the wallet address you wish to copy trade:");
    reveal_strlit("Fetching your current open positions...");
    reveal_strlit("Axiom bot documentation and support...");
    reveal_strlit("Unrecognized command. Please use the menu buttons.");
    reveal_strlit("Please send a valid text contract address.");
    reveal_strlit("Please send a valid text wallet address.");
    reveal_strlit("Please run /start first to create your wallet.");
    reveal_strlit("✅ Executing buy order for contract: \n<code>");
    reveal_strlit("⚡ Successfully subscribed! Now copy trading wallet: \n<code>");
}

/// Every answer is one of those that the laws above describe.
proof fn lemma_all_answers(
    key: Seq<u8>,
    state: State,
    telegram_id: i64,
    text: Option<Seq<char>>,
    step: StepView,
    replies: Seq<ReplyView>,
)
    requires
        is_answer(key, state, telegram_id, text, step),
    ensures
        forall|i: int|
            0 <= i < performed(step, replies).len() ==> ((#[trigger] performed(
                step,
                replies,
            )[i]) matches EffectView::SendMessage { text: sent, html } ==> {
                ||| sent == "Please paste the token contract address to Buy:"@
                ||| sent == "Enter the wallet address you wish to copy trade:"@
                ||| sent == "Fetching your current open positions..."@
                ||| sent == "Axiom bot documentation and support..."@
                ||| sent == "Unrecognized command. Please use the menu buttons."@
                ||| sent == "Please run /start first to create your wallet."@
                ||| sent == "Please send a valid text contract address."@ && state
                    == State::AwaitingBuyAddress && text is None
                ||| sent == "Please send a valid text wallet address."@ && state
                    == State::AwaitingCopyTradeWallet && text is None
                ||| text matches Some(token_address) && state == State::AwaitingBuyAddress && html && i
                    == 0 && sent == "✅ Executing buy order for contract: \n<code>"@ + token_address
                    + "</code>"@
                ||| text matches Some(target_wallet) && state == State::AwaitingCopyTradeWallet && html
                    && i == 2 && sent == "⚡ Successfully subscribed! Now copy trading wallet: \n<code>"@
                    + target_wallet
                    + "</code>\n\nYou will receive a notification when a swap executes."@
            }),
{
    reveal_with_fuel(performed, 6);
    if let Some(sent) = text {
        law_commands(sent);
    }
}

/// A buy order is announced only to a user who was asked for a contract address
/// and sent that address.
pub proof fn law_buy_announced_only_when_awaited(
    key: Seq<u8>,
    state: State,
    telegram_id: i64,
    text: Option<Seq<char>>,
    step: StepView,
    replies: Seq<ReplyView>,
    i: int,
    token_address: Seq<char>,
    html: bool,
)
    requires
        is_answer(key, state, telegram_id, text, step),
        0 <= i < performed(step, replies).len(),
        performed(step, replies)[i] == (EffectView::SendMessage {
            text: "✅ Executing buy order for contract: \n<code>"@ + token_address + "</code>"@,
            html,
        }),
    ensures
        state == State::AwaitingBuyAddress,
        text == Some(token_address),
        i == 0,
        html,
{
    lemma_all_answers(key, state, telegram_id, text, step, replies);
    lemma_messages_differ();
    let head = "✅ Executing buy order for contract: \n<code>"@;
    let sent = head + token_address + "</code>"@;
    assert(sent[0] == '✅');
    if let Some(message) = text {
        let subscribed = "⚡ Successfully subscribed! Now copy trading wallet: \n<code>"@ + message
            + "</code>\n\nYou will receive a notification when a swap executes."@;
        assert(subscribed[0] == '⚡');
        crate::menu::law_buy_text(token_address, message);
    }
}

/// A user is told that a wallet is being copied only after a worker was spawned
/// for that user and that wallet, with the key that is stored for the user.
pub proof fn law_subscribed_only_after_spawn(
    key: Seq<u8>,
    state: State,
    telegram_id: i64,
    text: Option<Seq<char>>,
    step: StepView,
    replies: Seq<ReplyView>,
    i: int,
    target_wallet: Seq<char>,
    html: bool,
)
    requires
        is_answer(key, state, telegram_id, text, step),
        0 <= i < performed(step, replies).len(),
        performed(step, replies)[i] == (EffectView::SendMessage {
            text: "⚡ Successfully subscribed! Now copy trading wallet: \n<code>"@ + target_wallet
                + "</code>\n\nYou will receive a notification when a swap executes."@,
            html,
        }),
    ensures
        state == State::AwaitingCopyTradeWallet,
        text == Some(target_wallet),
        i == 2,
        html,
        replies[0] matches ReplyView::Privkey(Some(privkey_enc)) && performed(step, replies)[1] == (
        EffectView::SpawnWorker { telegram_id, target_wallet, privkey_enc }),
        done(replies, 1),
{
    lemma_all_answers(key, state, telegram_id, text, step, replies);
    lemma_messages_differ();
    let head = "⚡ Successfully subscribed! Now copy trading wallet: \n<code>"@;
    let end = "</code>\n\nYou will receive a notification when a swap executes."@;
    let sent = head + target_wallet + end;
    assert(sent[0] == '⚡');
    if let Some(message) = text {
        let order = "✅ Executing buy order for contract: \n<code>"@ + message + "</code>"@;
        assert(order[0] == '✅');
        crate::menu::law_subscribed_text(target_wallet, message);
    }
    reveal_with_fuel(performed, 6);
}

/// A user is asked for a text address only where one is awaited and the message
/// had no text.
pub proof fn law_text_wanted_only_without_text(
    key: Seq<u8>,
    state: State,
    telegram_id: i64,
    text: Option<Seq<char>>,
    step: StepView,
    replies: Seq<ReplyView>,
    i: int,
    html: bool,
)
    requires
        is_answer(key, state, telegram_id, text, step),
        0 <= i < performed(step, replies).len(),
    ensures
        performed(step, replies)[i] == (EffectView::SendMessage {
            text: "Please send a valid text contract address."@,
            html,
        }) ==> state == State::AwaitingBuyAddress && text is None,
        performed(step, replies)[i] == (EffectView::SendMessage {
            text: "Please send a valid text wallet address."@,
            html,
        }) ==> state == State::AwaitingCopyTradeWallet && text is None,
{
    lemma_all_answers(key, state, telegram_id, text, step, replies);
    lemma_messages_differ();
    if let Some(message) = text {
        let order = "✅ Executing buy order for contract: \n<code>"@ + message + "</code>"@;
        assert(order[0] == '✅');
        let subscribed = "⚡ Successfully subscribed! Now copy trading wallet: \n<code>"@ + message
            + "</code>\n\nYou will receive a notification when a swap executes."@;
        assert(subscribed[0] == '⚡');
    }
}

/// How each stage is resumed, wherever it came from: what it was to do next is
/// done, for the user and with the texts that it was left with or was told. A
/// stage without anything left to do is the end of the answer.
pub proof fn law_resumed(
    telegram_id: i64,
    state: State,
    pubkey: Seq<char>,
    balance: Seq<char>,
    target_wallet: Seq<char>,
    privkey_enc: Seq<char>,
    replies: Seq<ReplyView>,
)
    ensures
        resume_step(StageView::Finish, ReplyView::Done) == StepView::Finished,
        performed(resume_step(StageView::UpdateNext(state), ReplyView::Done), replies) == seq![
            EffectView::UpdateDialogue(state),
        ],
        performed(resume_step(StageView::ExitNext, ReplyView::Done), replies) == seq![
            EffectView::ExitDialogue,
        ],
        performed(
            resume_step(StageView::UserStored { telegram_id }, ReplyView::Done),
            replies,
        )[0] == (EffectView::SelectPubkey { telegram_id }),
        performed(resume_step(StageView::PubkeyAsked, ReplyView::Pubkey(pubkey)), replies)[0] == (
        EffectView::FetchBalance { pubkey }),
        performed(
            resume_step(StageView::BalanceAsked { pubkey }, ReplyView::Balance(balance)),
            replies,
        ).len() == 1,
        performed(
            resume_step(StageView::BalanceAsked { pubkey }, ReplyView::Balance(balance)),
            replies,
        )[0] matches EffectView::SendPhoto { photo, caption, keyboard } && photo
            == "assets/solana_logo.png"@ && caption
            == "<b>Welcome to Axiom trade bot!</b>\n\nIntroducing a cutting-edge bot crafted exclusively for Solana Traders.\n\n<b>Balance:</b> "@
            + balance
            + " SOL\n\nHere's your Solana wallet address linked to your Telegram account. Simply fund your wallet to start trading.\n\n<code>"@
            + pubkey + "</code>"@ && keyboard == crate::menu::menu(),
        performed(
            resume_step(
                StageView::PrivkeyAsked { telegram_id, target_wallet },
                ReplyView::Privkey(Some(privkey_enc)),
            ),
            replies,
        )[0] == (EffectView::SpawnWorker { telegram_id, target_wallet, privkey_enc }),
        performed(
            resume_step(
                StageView::PrivkeyAsked { telegram_id, target_wallet },
                ReplyView::Privkey(None),
            ),
            replies,
        )[0] == (EffectView::SendMessage {
            text: "Please run /start first to create your wallet."@,
            html: false,
        }),
        performed(
            resume_step(StageView::WorkerSpawned { target_wallet }, ReplyView::Done),
            replies,
        )[0] == (EffectView::SendMessage {
            text: "⚡ Successfully subscribed! Now copy trading wallet: \n<code>"@ + target_wallet
                + "</code>\n\nYou will receive a notification when a swap executes."@,
            html: true,
        }),
{
    reveal_with_fuel(performed, 3);
}

/// A failure is reported with its own message, unless it is that of the balance
/// request; and a reply that does not belong to the effect is refused.
pub proof fn law_failure_is_reported(effect: EffectView, stage: StageView, reply: ReplyView)
    requires
        is_consistent(StepView::Perform(effect, stage)),
        !(effect is FetchBalance && reply is Failed),
    ensures
        reply matches ReplyView::Failed(message) ==> resume_step(stage, reply) == StepView::Failed(
            message,
        ),
        !(reply is Failed) && !goes_on(effect, reply) ==> resume_step(stage, reply)
            == StepView::Failed("The reply does not belong to the effect"@),
{
}

/// A dialogue is in the state that is stored for it, and idle where none is.
pub proof fn law_dialogue_state(state: State)
    ensures
        dialogue_state(Some(state)) == state,
        dialogue_state(None) == State::Idle,
{
}

/// The view of an effect has the texts and numbers that the effect has, each in
/// its own place.
pub proof fn law_effect_view(effect: Effect)
    ensures
        match effect {
            Effect::SendMessage { text, html } => effect@ == (EffectView::SendMessage {
                text: text@,
                html,
            }),
            Effect::SendPhoto { photo, caption, keyboard } => effect@ == (EffectView::SendPhoto {
                photo: photo@,
                caption: caption@,
                keyboard: keyboard@,
            }),
            Effect::UpdateDialogue(state) => effect@ == EffectView::UpdateDialogue(state),
            Effect::ExitDialogue => effect@ == EffectView::ExitDialogue,
            Effect::InsertUser { telegram_id, pubkey, privkey_enc } => effect@ == (
            EffectView::InsertUser { telegram_id, pubkey: pubkey@, privkey_enc: privkey_enc@ }),
            Effect::SelectPubkey { telegram_id } => effect@ == (EffectView::SelectPubkey {
                telegram_id,
            }),
            Effect::FetchBalance { pubkey } => effect@ == (EffectView::FetchBalance {
                pubkey: pubkey@,
            }),
            Effect::SelectPrivkey { telegram_id } => effect@ == (EffectView::SelectPrivkey {
                telegram_id,
            }),
            Effect::SpawnWorker { telegram_id, target_wallet, privkey_enc } => effect@ == (
            EffectView::SpawnWorker {
                telegram_id,
                target_wallet: target_wallet@,
                privkey_enc: privkey_enc@,
            }),
        },
{
}

/// The view of a stage has the texts and numbers that the stage has.
pub proof fn law_stage_view(stage: Stage)
    ensures
        match stage {
            Stage::Finish => stage@ == StageView::Finish,
            Stage::UpdateNext(state) => stage@ == StageView::UpdateNext(state),
            Stage::ExitNext => stage@ == StageView::ExitNext,
            Stage::UserStored { telegram_id } => stage@ == (StageView::UserStored { telegram_id }),
            Stage::PubkeyAsked => stage@ == StageView::PubkeyAsked,
            Stage::BalanceAsked { pubkey } => stage@ == (StageView::BalanceAsked {
                pubkey: pubkey@,
            }),
            Stage::PrivkeyAsked { telegram_id, target_wallet } => stage@ == (
            StageView::PrivkeyAsked { telegram_id, target_wallet: target_wallet@ }),
            Stage::WorkerSpawned { target_wallet } => stage@ == (StageView::WorkerSpawned {
                target_wallet: target_wallet@,
            }),
        },
{
}

/// The view of a reply has the text that the reply has.
pub proof fn law_reply_view(reply: Reply)
    ensures
        match reply {
            Reply::Done => reply@ == ReplyView::Done,
            Reply::Pubkey(pubkey) => reply@ == ReplyView::Pubkey(pubkey@),
            Reply::Balance(balance) => reply@ == ReplyView::Balance(balance@),
            Reply::Privkey(Some(privkey_enc)) => reply@ == ReplyView::Privkey(
                Some(privkey_enc@),
            ),
            Reply::Privkey(None) => reply@ == ReplyView::Privkey(None),
            Reply::Failed(message) => reply@ == ReplyView::Failed(message@),
        },
{
}

/// The view of a step has the effect and the stage, or the message, that the step
/// has.
pub proof fn law_step_view(step: Step)
    ensures
        match step {
            Step::Perform(effect, stage) => step@ == StepView::Perform(effect@, stage@),
            Step::Finished => step@ == StepView::Finished,
            Step::Failed(message) => step@ == StepView::Failed(message@),
        },
{
}

/// A message's text, and a new wallet, are read as they are.
pub proof fn law_inputs_read_as_they_are(
    text: Option<&str>,
    wallet: Result<(String, String), String>,
)
    ensures
        match text {
            Some(sent) => message_text(text) == Some(sent@),
            None => message_text(text) is None,
        },
        match wallet {
            Ok((pubkey, privkey_enc)) => wallet_view(wallet) == Ok::<
                (Seq<char>, Seq<char>),
                Seq<char>,
            >((pubkey@, privkey_enc@)),
            Err(message) => wallet_view(wallet) == Err::<(Seq<char>, Seq<char>), Seq<char>>(
                message@,
            ),
        },
{
}

} // verus!
