//! The conversation with a user: how a message is answered in each state of
//! the dialogue.
//!
//! Answering a message takes effects outside the library: messages sent, rows
//! written and read, a balance fetched, a worker spawned. A handler names the
//! first effect and the stage that it leaves the answer at. The caller performs
//! the effect and resumes the stage with the reply, until the answer is
//! finished or has failed.

use crate::balance::{balance_text, shown_balance};
use crate::config::EncryptionKey;
use crate::menu::{
    buy_answer, buy_text, command_of, menu, menu_keyboard, parse_command, subscribed_answer,
    subscribed_text, welcome_caption, welcome_text, Command, Keyboard, KeyboardView, BUY_PROMPT,
    CONTRACT_TEXT_WANTED, COPY_TRADE_PROMPT, HELP_ANSWER, POSITION_ANSWER, START_FIRST,
    UNRECOGNIZED_ANSWER, WALLET_TEXT_WANTED, WELCOME_PHOTO,
};
use crate::wallet::{generate_and_encrypt_wallet, is_wallet_of};
use vstd::prelude::*;

verus! {

/// The state of a dialogue between two messages.
#[derive(Clone, Copy, Debug, PartialEq, Eq, Structural)]
pub enum State {
    /// Nothing is awaited but a command.
    Idle,
    /// The user is about to send the contract address of a token to buy.
    AwaitingBuyAddress,
    /// The user is about to send the address of a wallet to copy.
    AwaitingCopyTradeWallet,
}

impl Default for State {
    fn default() -> (state: State)
        ensures
            state == State::Idle,
    {
        State::Idle
    }
}

/// Something to be done outside the library.
#[derive(Clone, Debug, PartialEq, Eq)]
pub enum Effect {
    /// Send a message to the user.
    SendMessage { text: String, html: bool },
    /// Send a picture with an HTML caption and a keyboard to the user.
    SendPhoto { photo: String, caption: String, keyboard: Keyboard },
    /// Put the dialogue into another state.
    UpdateDialogue(State),
    /// End the dialogue, which puts it back to its first state.
    ExitDialogue,
    /// Store a wallet for the user, unless one is stored already.
    InsertUser { telegram_id: i64, pubkey: String, privkey_enc: String },
    /// Read the address of the user's wallet.
    SelectPubkey { telegram_id: i64 },
    /// Fetch the balance of an address.
    FetchBalance { pubkey: String },
    /// Read the encrypted private key of the user's wallet.
    SelectPrivkey { telegram_id: i64 },
    /// Replace the user's copy-trade worker by one for this wallet.
    SpawnWorker { telegram_id: i64, target_wallet: String, privkey_enc: String },
}

/// How far the answer to a message has got.
#[derive(Clone, Debug, PartialEq, Eq)]
pub enum Stage {
    /// The last effect is under way.
    Finish,
    /// The dialogue state changes next.
    UpdateNext(State),
    /// The dialogue ends next.
    ExitNext,
    /// A wallet is being stored.
    UserStored { telegram_id: i64 },
    /// The address is being read.
    PubkeyAsked,
    /// The balance is being fetched.
    BalanceAsked { pubkey: String },
    /// The encrypted private key is being read.
    PrivkeyAsked { telegram_id: i64, target_wallet: String },
    /// The worker is being spawned.
    WorkerSpawned { target_wallet: String },
}

/// What came of an effect.
#[derive(Clone, Debug, PartialEq, Eq)]
pub enum Reply {
    /// It is done.
    Done,
    /// The address that was read.
    Pubkey(String),
    /// The balance that was fetched, with four decimals.
    Balance(String),
    /// The encrypted private key that was read; none where the user has no
    /// wallet.
    Privkey(Option<String>),
    /// It failed, with this message.
    Failed(String),
}

/// What the answer to a message comes to next.
#[derive(Clone, Debug, PartialEq, Eq)]
pub enum Step {
    /// Perform the effect, and then resume the stage with the reply.
    Perform(Effect, Stage),
    /// The answer is complete.
    Finished,
    /// The answer is given up, with this message.
    Failed(String),
}

/// The content of an [`Effect`].
pub enum EffectView {
    SendMessage { text: Seq<char>, html: bool },
    SendPhoto { photo: Seq<char>, caption: Seq<char>, keyboard: KeyboardView },
    UpdateDialogue(State),
    ExitDialogue,
    InsertUser { telegram_id: i64, pubkey: Seq<char>, privkey_enc: Seq<char> },
    SelectPubkey { telegram_id: i64 },
    FetchBalance { pubkey: Seq<char> },
    SelectPrivkey { telegram_id: i64 },
    SpawnWorker { telegram_id: i64, target_wallet: Seq<char>, privkey_enc: Seq<char> },
}

/// The content of a [`Stage`].
pub enum StageView {
    Finish,
    UpdateNext(State),
    ExitNext,
    UserStored { telegram_id: i64 },
    PubkeyAsked,
    BalanceAsked { pubkey: Seq<char> },
    PrivkeyAsked { telegram_id: i64, target_wallet: Seq<char> },
    WorkerSpawned { target_wallet: Seq<char> },
}

/// The content of a [`Reply`].
pub enum ReplyView {
    Done,
    Pubkey(Seq<char>),
    Balance(Seq<char>),
    Privkey(Option<Seq<char>>),
    Failed(Seq<char>),
}

/// The content of a [`Step`].
pub enum StepView {
    Perform(EffectView, StageView),
    Finished,
    Failed(Seq<char>),
}

impl View for Effect {
    type V = EffectView;

    open spec fn view(&self) -> EffectView {
        match self {
            Effect::SendMessage { text, html } => EffectView::SendMessage {
                text: text@,
                html: *html,
            },
            Effect::SendPhoto { photo, caption, keyboard } => EffectView::SendPhoto {
                photo: photo@,
                caption: caption@,
                keyboard: keyboard@,
            },
            Effect::UpdateDialogue(state) => EffectView::UpdateDialogue(*state),
            Effect::ExitDialogue => EffectView::ExitDialogue,
            Effect::InsertUser { telegram_id, pubkey, privkey_enc } => EffectView::InsertUser {
                telegram_id: *telegram_id,
                pubkey: pubkey@,
                privkey_enc: privkey_enc@,
            },
            Effect::SelectPubkey { telegram_id } => EffectView::SelectPubkey {
                telegram_id: *telegram_id,
            },
            Effect::FetchBalance { pubkey } => EffectView::FetchBalance { pubkey: pubkey@ },
            Effect::SelectPrivkey { telegram_id } => EffectView::SelectPrivkey {
                telegram_id: *telegram_id,
            },
            Effect::SpawnWorker { telegram_id, target_wallet, privkey_enc } =>
                EffectView::SpawnWorker {
                telegram_id: *telegram_id,
                target_wallet: target_wallet@,
                privkey_enc: privkey_enc@,
            },
        }
    }
}

impl View for Stage {
    type V = StageView;

    open spec fn view(&self) -> StageView {
        match self {
            Stage::Finish => StageView::Finish,
            Stage::UpdateNext(state) => StageView::UpdateNext(*state),
            Stage::ExitNext => StageView::ExitNext,
            Stage::UserStored { telegram_id } => StageView::UserStored {
                telegram_id: *telegram_id,
            },
            Stage::PubkeyAsked => StageView::PubkeyAsked,
            Stage::BalanceAsked { pubkey } => StageView::BalanceAsked { pubkey: pubkey@ },
            Stage::PrivkeyAsked { telegram_id, target_wallet } => StageView::PrivkeyAsked {
                telegram_id: *telegram_id,
                target_wallet: target_wallet@,
            },
            Stage::WorkerSpawned { target_wallet } => StageView::WorkerSpawned {
                target_wallet: target_wallet@,
            },
        }
    }
}

impl View for Reply {
    type V = ReplyView;

    open spec fn view(&self) -> ReplyView {
        match self {
            Reply::Done => ReplyView::Done,
            Reply::Pubkey(pubkey) => ReplyView::Pubkey(pubkey@),
            Reply::Balance(balance) => ReplyView::Balance(balance@),
            Reply::Privkey(privkey_enc) => ReplyView::Privkey(
                crate::text::option_text(*privkey_enc),
            ),
            Reply::Failed(message) => ReplyView::Failed(message@),
        }
    }
}

impl View for Step {
    type V = StepView;

    open spec fn view(&self) -> StepView {
        match self {
            Step::Perform(effect, stage) => StepView::Perform(effect@, stage@),
            Step::Finished => StepView::Finished,
            Step::Failed(message) => StepView::Failed(message@),
        }
    }
}

/// The message for a reply that is not one to the effect before it.
pub const UNEXPECTED_REPLY: &'static str = "The reply does not belong to the effect";

/// A step that sends a plain message.
pub open spec fn say(text: Seq<char>, then_stage: StageView) -> StepView {
    StepView::Perform(EffectView::SendMessage { text, html: false }, then_stage)
}

/// The step that starts a user off, given the outcome of making a wallet.
pub open spec fn start_step(
    telegram_id: i64,
    wallet: Result<(Seq<char>, Seq<char>), Seq<char>>,
) -> StepView {
    match wallet {
        Ok((pubkey, privkey_enc)) => StepView::Perform(
            EffectView::InsertUser { telegram_id, pubkey, privkey_enc },
            StageView::UserStored { telegram_id },
        ),
        Err(message) => StepView::Failed(message),
    }
}

/// The step that answers a message in the idle state, where `wallet` is the
/// outcome of making a wallet if the message asks for one.
pub open spec fn idle_step(
    telegram_id: i64,
    text: Option<Seq<char>>,
    wallet: Result<(Seq<char>, Seq<char>), Seq<char>>,
) -> StepView {
    match text {
        Some(text) => match command_of(text) {
            Command::Start => start_step(telegram_id, wallet),
            Command::Buy => say(BUY_PROMPT@, StageView::UpdateNext(State::AwaitingBuyAddress)),
            Command::CopyTrade => say(
                COPY_TRADE_PROMPT@,
                StageView::UpdateNext(State::AwaitingCopyTradeWallet),
            ),
            Command::Position => say(POSITION_ANSWER@, StageView::Finish),
            Command::Help => say(HELP_ANSWER@, StageView::Finish),
            Command::Unrecognized => say(UNRECOGNIZED_ANSWER@, StageView::Finish),
        },
        None => StepView::Finished,
    }
}

/// The step that answers a message where a contract address is awaited.
pub open spec fn buy_address_step(text: Option<Seq<char>>) -> StepView {
    match text {
        Some(token_address) => StepView::Perform(
            EffectView::SendMessage { text: buy_text(token_address), html: true },
            StageView::ExitNext,
        ),
        None => say(CONTRACT_TEXT_WANTED@, StageView::Finish),
    }
}

/// The step that answers a message where a wallet address is awaited.
pub open spec fn copy_trade_wallet_step(telegram_id: i64, text: Option<Seq<char>>) -> StepView {
    match text {
        Some(target_wallet) => StepView::Perform(
            EffectView::SelectPrivkey { telegram_id },
            StageView::PrivkeyAsked { telegram_id, target_wallet },
        ),
        None => say(WALLET_TEXT_WANTED@, StageView::Finish),
    }
}

/// The step that answers a message in any state.
pub open spec fn message_step(
    state: State,
    telegram_id: i64,
    text: Option<Seq<char>>,
    wallet: Result<(Seq<char>, Seq<char>), Seq<char>>,
) -> StepView {
    match state {
        State::Idle => idle_step(telegram_id, text, wallet),
        State::AwaitingBuyAddress => buy_address_step(text),
        State::AwaitingCopyTradeWallet => copy_trade_wallet_step(telegram_id, text),
    }
}

/// Whether a message asks for a wallet to be made.
pub open spec fn asks_for_wallet(state: State, text: Option<Seq<char>>) -> bool {
    state == State::Idle && (text matches Some(text) && command_of(text) == Command::Start)
}

/// Whether `wallet` is the outcome of making a wallet for `key`.
pub open spec fn is_made_wallet(
    key: Seq<u8>,
    wallet: Result<(Seq<char>, Seq<char>), Seq<char>>,
) -> bool {
    wallet matches Ok((pubkey, privkey_enc)) && is_wallet_of(key, pubkey, privkey_enc)
}

/// Whether `step` answers a message: it is the step that state, user and text
/// decide, with some wallet of `key` where the message asks for one.
pub open spec fn is_answer(
    key: Seq<u8>,
    state: State,
    telegram_id: i64,
    text: Option<Seq<char>>,
    step: StepView,
) -> bool {
    exists|wallet: Result<(Seq<char>, Seq<char>), Seq<char>>|
        {
            &&& asks_for_wallet(state, text) ==> is_made_wallet(key, wallet)
            &&& step == #[trigger] message_step(state, telegram_id, text, wallet)
        }
}

/// The balance that a reply brings, where it brings one.
pub open spec fn fetched_balance(reply: ReplyView) -> Option<Seq<char>> {
    match reply {
        ReplyView::Balance(balance) => Some(balance),
        _ => None,
    }
}

/// The step that the reply to the pending effect leads to. A failure is the end
/// of the answer, but for that of the balance request: the welcome is sent all
/// the same, and shows zero.
pub open spec fn resume_step(stage: StageView, reply: ReplyView) -> StepView {
    match (stage, reply) {
        (StageView::BalanceAsked { pubkey }, ReplyView::Failed(_)) => StepView::Perform(
            welcome(balance_text(None), pubkey),
            StageView::Finish,
        ),
        (_, ReplyView::Failed(message)) => StepView::Failed(message),
        (StageView::Finish, ReplyView::Done) => StepView::Finished,
        (StageView::UpdateNext(state), ReplyView::Done) => StepView::Perform(
            EffectView::UpdateDialogue(state),
            StageView::Finish,
        ),
        (StageView::ExitNext, ReplyView::Done) => StepView::Perform(
            EffectView::ExitDialogue,
            StageView::Finish,
        ),
        (StageView::UserStored { telegram_id }, ReplyView::Done) => StepView::Perform(
            EffectView::SelectPubkey { telegram_id },
            StageView::PubkeyAsked,
        ),
        (StageView::PubkeyAsked, ReplyView::Pubkey(pubkey)) => StepView::Perform(
            EffectView::FetchBalance { pubkey },
            StageView::BalanceAsked { pubkey },
        ),
        (StageView::BalanceAsked { pubkey }, ReplyView::Balance(balance)) => StepView::Perform(
            welcome(balance_text(Some(balance)), pubkey),
            StageView::Finish,
        ),
        (StageView::PrivkeyAsked { .. }, ReplyView::Privkey(None)) => say(
            START_FIRST@,
            StageView::ExitNext,
        ),
        (
            StageView::PrivkeyAsked { telegram_id, target_wallet },
            ReplyView::Privkey(Some(privkey_enc)),
        ) => StepView::Perform(
            EffectView::SpawnWorker { telegram_id, target_wallet, privkey_enc },
            StageView::WorkerSpawned { target_wallet },
        ),
        (StageView::WorkerSpawned { target_wallet }, ReplyView::Done) => StepView::Perform(
            EffectView::SendMessage { text: subscribed_text(target_wallet), html: true },
            StageView::ExitNext,
        ),
        _ => StepView::Failed(UNEXPECTED_REPLY@),
    }
}

/// The welcome message for a balance and an address.
pub open spec fn welcome(balance: Seq<char>, pubkey: Seq<char>) -> EffectView {
    EffectView::SendPhoto {
        photo: WELCOME_PHOTO@,
        caption: welcome_text(balance, pubkey),
        keyboard: menu(),
    }
}

/// The text of a message that may have none.
pub open spec fn message_text(text: Option<&str>) -> Option<Seq<char>> {
    match text {
        Some(text) => Some(text@),
        None => None,
    }
}

/// The outcome of making a wallet, as texts.
pub open spec fn wallet_view(wallet: Result<(String, String), String>) -> Result<
    (Seq<char>, Seq<char>),
    Seq<char>,
> {
    match wallet {
        Ok((pubkey, privkey_enc)) => Ok((pubkey@, privkey_enc@)),
        Err(message) => Err(message@),
    }
}

/// Where no wallet is asked for, the answer does not depend on one.
proof fn lemma_plain_answer(
    key: Seq<u8>,
    state: State,
    telegram_id: i64,
    text: Option<Seq<char>>,
)
    ensures
        !asks_for_wallet(state, text) ==> is_answer(
            key,
            state,
            telegram_id,
            text,
            message_step(state, telegram_id, text, Err(Seq::empty())),
        ),
{
}

fn plain_message(text: &str, stage: Stage) -> (step: Step)
    ensures
        step@ == say(text@, stage@),
{
    Step::Perform(Effect::SendMessage { text: text.to_owned(), html: false }, stage)
}

/// Makes the welcome message for a balance and an address.
pub fn send_welcome_menu(balance: &str, pubkey: &str) -> (effect: Effect)
    ensures
        effect@ == welcome(balance@, pubkey@),
{
    Effect::SendPhoto {
        photo: WELCOME_PHOTO.to_owned(),
        caption: welcome_caption(balance, pubkey),
        keyboard: menu_keyboard(),
    }
}

/// Starts a user off, given the outcome of making a wallet.
pub fn handle_start(telegram_id: i64, wallet: Result<(String, String), String>) -> (step: Step)
    ensures
        step@ == start_step(telegram_id, wallet_view(wallet)),
{
    match wallet {
        Ok((pubkey, privkey_enc)) => Step::Perform(
            Effect::InsertUser { telegram_id, pubkey, privkey_enc },
            Stage::UserStored { telegram_id },
        ),
        Err(message) => Step::Failed(message),
    }
}

/// Answers a message in the idle state. A new wallet is made for every
/// `/start`; which one is kept is up to what is stored already.
pub fn handle_idle_state(key: &EncryptionKey, telegram_id: i64, text: Option<&str>) -> (step: Step)
    ensures
        is_answer(key@, State::Idle, telegram_id, message_text(text), step@),
{
    proof {
        lemma_plain_answer(key@, State::Idle, telegram_id, message_text(text));
    }
    match text {
        Some(text) => match parse_command(text) {
            Command::Start => {
                let wallet = generate_and_encrypt_wallet(key);
                assert(is_answer(
                    key@,
                    State::Idle,
                    telegram_id,
                    Some(text@),
                    message_step(State::Idle, telegram_id, Some(text@), wallet_view(wallet)),
                ));
                handle_start(telegram_id, wallet)
            },
            Command::Buy => plain_message(
                BUY_PROMPT,
                Stage::UpdateNext(State::AwaitingBuyAddress),
            ),
            Command::CopyTrade => plain_message(
                COPY_TRADE_PROMPT,
                Stage::UpdateNext(State::AwaitingCopyTradeWallet),
            ),
            Command::Position => plain_message(POSITION_ANSWER, Stage::Finish),
            Command::Help => plain_message(HELP_ANSWER, Stage::Finish),
            Command::Unrecognized => plain_message(UNRECOGNIZED_ANSWER, Stage::Finish),
        },
        None => Step::Finished,
    }
}

/// Answers a message where a contract address is awaited.
pub fn handle_buy_address(text: Option<&str>) -> (step: Step)
    ensures
        step@ == buy_address_step(message_text(text)),
{
    match text {
        Some(token_address) => Step::Perform(
            Effect::SendMessage { text: buy_answer(token_address), html: true },
            Stage::ExitNext,
        ),
        None => plain_message(CONTRACT_TEXT_WANTED, Stage::Finish),
    }
}

/// Answers a message where a wallet address is awaited.
pub fn handle_copy_trade_wallet(telegram_id: i64, text: Option<&str>) -> (step: Step)
    ensures
        step@ == copy_trade_wallet_step(telegram_id, message_text(text)),
{
    match text {
        Some(target_wallet) => Step::Perform(
            Effect::SelectPrivkey { telegram_id },
            Stage::PrivkeyAsked { telegram_id, target_wallet: target_wallet.to_owned() },
        ),
        None => plain_message(WALLET_TEXT_WANTED, Stage::Finish),
    }
}

/// Answers a message in any state.
pub fn handle_message(
    key: &EncryptionKey,
    state: State,
    telegram_id: i64,
    text: Option<&str>,
) -> (step: Step)
    ensures
        is_answer(key@, state, telegram_id, message_text(text), step@),
{
    proof {
        lemma_plain_answer(key@, state, telegram_id, message_text(text));
    }
    match state {
        State::Idle => handle_idle_state(key, telegram_id, text),
        State::AwaitingBuyAddress => handle_buy_address(text),
        State::AwaitingCopyTradeWallet => handle_copy_trade_wallet(telegram_id, text),
    }
}

/// What arrives from Telegram.
#[derive(Clone, Copy, Debug, PartialEq, Eq)]
pub enum Update<'a> {
    /// A new message in the chat with a user, and its text where it has one.
    NewMessage { telegram_id: i64, text: Option<&'a str> },
    /// Anything else.
    Other,
}

/// The state of a dialogue, given the one that is stored. A dialogue that is
/// new, or that has ended, has none stored.
pub open spec fn dialogue_state(stored: Option<State>) -> State {
    match stored {
        Some(state) => state,
        None => State::Idle,
    }
}

/// Answers an update, given the stored state of the dialogue. Only a new
/// message has an answer.
pub fn schema(key: &EncryptionKey, stored: Option<State>, update: Update<'_>) -> (step: Option<
    Step,
>)
    ensures
        match update {
            Update::NewMessage { telegram_id, text } => step matches Some(step) && is_answer(
                key@,
                dialogue_state(stored),
                telegram_id,
                message_text(text),
                step@,
            ),
            Update::Other => step is None,
        },
{
    match update {
        Update::NewMessage { telegram_id, text } => {
            let state = match stored {
                Some(state) => state,
                None => State::default(),
            };
            Some(handle_message(key, state, telegram_id, text))
        },
        Update::Other => None,
    }
}

/// Goes on with the answer to a message, given the reply to the pending effect.
pub fn resume(stage: Stage, reply: Reply) -> (step: Step)
    ensures
        step@ == resume_step(stage@, reply@),
{
    match (stage, reply) {
        (Stage::BalanceAsked { pubkey }, Reply::Failed(_)) => {
            let shown = shown_balance(None);
            Step::Perform(send_welcome_menu(shown.as_str(), pubkey.as_str()), Stage::Finish)
        },
        (_, Reply::Failed(message)) => Step::Failed(message),
        (Stage::Finish, Reply::Done) => Step::Finished,
        (Stage::UpdateNext(state), Reply::Done) => Step::Perform(
            Effect::UpdateDialogue(state),
            Stage::Finish,
        ),
        (Stage::ExitNext, Reply::Done) => Step::Perform(Effect::ExitDialogue, Stage::Finish),
        (Stage::UserStored { telegram_id }, Reply::Done) => Step::Perform(
            Effect::SelectPubkey { telegram_id },
            Stage::PubkeyAsked,
        ),
        (Stage::PubkeyAsked, Reply::Pubkey(pubkey)) => Step::Perform(
            Effect::FetchBalance { pubkey: pubkey.clone() },
            Stage::BalanceAsked { pubkey },
        ),
        (Stage::BalanceAsked { pubkey }, Reply::Balance(balance)) => {
            let shown = shown_balance(Some(balance));
            Step::Perform(send_welcome_menu(shown.as_str(), pubkey.as_str()), Stage::Finish)
        },
        (Stage::PrivkeyAsked { .. }, Reply::Privkey(None)) => plain_message(
            START_FIRST,
            Stage::ExitNext,
        ),
        (
            Stage::PrivkeyAsked { telegram_id, target_wallet },
            Reply::Privkey(Some(privkey_enc)),
        ) => Step::Perform(
            Effect::SpawnWorker {
                telegram_id,
                target_wallet: target_wallet.clone(),
                privkey_enc,
            },
            Stage::WorkerSpawned { target_wallet },
        ),
        (Stage::WorkerSpawned { target_wallet }, Reply::Done) => Step::Perform(
            Effect::SendMessage { text: subscribed_answer(target_wallet.as_str()), html: true },
            Stage::ExitNext,
        ),
        _ => Step::Failed(UNEXPECTED_REPLY.to_owned()),
    }
}

} // verus!
