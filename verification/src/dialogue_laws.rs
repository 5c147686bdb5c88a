//! What holds of every conversation: how long answers get, when they stop, how
//! the state of the dialogue moves, and what a wallet or a worker is made of.

use crate::balance::balance_text;
use crate::dialogue::{
    buy_address_step, copy_trade_wallet_step, fetched_balance, idle_step, is_answer, is_made_wallet,
    message_step, resume_step, welcome, EffectView, ReplyView, StageView, State, StepView,
};
use crate::menu::{command_of, Command};
use vstd::prelude::*;

verus! {

/// The effects that are performed when a step is followed up with these
/// replies.
pub open spec fn performed(step: StepView, replies: Seq<ReplyView>) -> Seq<EffectView>
    decreases replies.len(),
{
    match step {
        StepView::Perform(effect, stage) => if replies.len() == 0 {
            seq![effect]
        } else {
            seq![effect] + performed(resume_step(stage, replies[0]), replies.drop_first())
        },
        _ => Seq::empty(),
    }
}

/// Whether a reply is one that the effect can have when it does not fail.
pub open spec fn is_success(effect: EffectView, reply: ReplyView) -> bool {
    match effect {
        EffectView::SelectPubkey { .. } => reply is Pubkey,
        EffectView::FetchBalance { .. } => reply is Balance,
        EffectView::SelectPrivkey { .. } => reply is Privkey,
        _ => reply is Done,
    }
}

/// Whether the answer goes on after a reply to an effect: the effect succeeded,
/// or it was the balance request.
pub open spec fn goes_on(effect: EffectView, reply: ReplyView) -> bool {
    is_success(effect, reply) || (effect is FetchBalance && reply is Failed)
}

/// Whether the replies carry a step through to the end.
pub open spec fn completes(step: StepView, replies: Seq<ReplyView>) -> bool
    decreases replies.len(),
{
    match step {
        StepView::Perform(effect, stage) => {
            &&& replies.len() > 0
            &&& goes_on(effect, replies[0])
            &&& completes(resume_step(stage, replies[0]), replies.drop_first())
        },
        StepView::Finished => true,
        StepView::Failed(_) => false,
    }
}

/// The state of the dialogue after an effect was done.
pub open spec fn effect_state(state: State, effect: EffectView) -> State {
    match effect {
        EffectView::UpdateDialogue(next) => next,
        EffectView::ExitDialogue => State::Idle,
        _ => state,
    }
}

/// The state of the dialogue after a step was followed up with these replies.
pub open spec fn state_after(state: State, step: StepView, replies: Seq<ReplyView>) -> State
    decreases replies.len(),
{
    match step {
        StepView::Perform(effect, stage) if replies.len() > 0 => state_after(
            if replies[0] is Done {
                effect_state(state, effect)
            } else {
                state
            },
            resume_step(stage, replies[0]),
            replies.drop_first(),
        ),
        _ => state,
    }
}

/// The state that a completed answer leaves the dialogue in.
pub open spec fn next_state(state: State, text: Option<Seq<char>>) -> State {
    match (state, text) {
        (_, None) => state,
        (State::Idle, Some(text)) => match command_of(text) {
            Command::Buy => State::AwaitingBuyAddress,
            Command::CopyTrade => State::AwaitingCopyTradeWallet,
            _ => State::Idle,
        },
        (_, Some(_)) => State::Idle,
    }
}

/// Whether the stage of a step is one that its effect leads to.
pub open spec fn is_consistent(step: StepView) -> bool {
    match step {
        StepView::Perform(effect, stage) => match stage {
            StageView::Finish => !(effect is SelectPubkey || effect is FetchBalance
                || effect is SelectPrivkey),
            StageView::UpdateNext(_) => effect is SendMessage,
            StageView::ExitNext => effect is SendMessage,
            StageView::UserStored { .. } => effect is InsertUser,
            StageView::PubkeyAsked => effect is SelectPubkey,
            StageView::BalanceAsked { .. } => effect is FetchBalance,
            StageView::PrivkeyAsked { .. } => effect is SelectPrivkey,
            StageView::WorkerSpawned { .. } => effect is SpawnWorker,
        },
        _ => true,
    }
}

/// The most effects that a stage can still lead to.
pub open spec fn effects_left(stage: StageView) -> nat {
    match stage {
        StageView::Finish => 0,
        StageView::UpdateNext(_) => 1,
        StageView::ExitNext => 1,
        StageView::BalanceAsked { .. } => 1,
        StageView::PubkeyAsked => 2,
        StageView::WorkerSpawned { .. } => 2,
        StageView::UserStored { .. } => 3,
        StageView::PrivkeyAsked { .. } => 3,
    }
}

/// The most effects that a step leads to.
pub open spec fn step_effects(step: StepView) -> nat {
    match step {
        StepView::Perform(_, stage) => 1 + effects_left(stage),
        _ => 0,
    }
}

proof fn lemma_performed_bounded(step: StepView, replies: Seq<ReplyView>)
    ensures
        performed(step, replies).len() <= step_effects(step),
    decreases replies.len(),
{
    if let StepView::Perform(_, stage) = step {
        if replies.len() > 0 {
            lemma_performed_bounded(resume_step(stage, replies[0]), replies.drop_first());
        }
    }
}

/// Every answer comes to an end: it takes at most four effects, whatever the
/// replies are.
pub proof fn law_answers_end(
    state: State,
    telegram_id: i64,
    text: Option<Seq<char>>,
    wallet: Result<(Seq<char>, Seq<char>), Seq<char>>,
    replies: Seq<ReplyView>,
)
    ensures
        performed(message_step(state, telegram_id, text, wallet), replies).len() <= 4,
{
    lemma_performed_bounded(message_step(state, telegram_id, text, wallet), replies);
}

proof fn lemma_failure_stops(step: StepView, replies: Seq<ReplyView>, failed: int)
    requires
        is_consistent(step),
        0 <= failed < replies.len(),
        replies[failed] is Failed,
        failed < performed(step, replies).len() ==> !(performed(
            step,
            replies,
        )[failed] is FetchBalance),
    ensures
        performed(step, replies).len() <= failed + 1,
    decreases replies.len(),
{
    if let StepView::Perform(_, stage) = step {
        if failed > 0 {
            lemma_failure_stops(
                resume_step(stage, replies[0]),
                replies.drop_first(),
                failed - 1,
            );
        } else {
            assert(performed(resume_step(stage, replies[0]), replies.drop_first()).len() == 0);
        }
    }
}

/// A failure stops the answer: no effect is performed after one that failed,
/// unless that was the balance request.
pub proof fn law_failure_stops(
    state: State,
    telegram_id: i64,
    text: Option<Seq<char>>,
    wallet: Result<(Seq<char>, Seq<char>), Seq<char>>,
    replies: Seq<ReplyView>,
    failed: int,
)
    requires
        0 <= failed < replies.len(),
        replies[failed] is Failed,
        failed < performed(message_step(state, telegram_id, text, wallet), replies).len()
            ==> !(performed(message_step(state, telegram_id, text, wallet), replies)[failed]
            is FetchBalance),
    ensures
        performed(message_step(state, telegram_id, text, wallet), replies).len() <= failed + 1,
{
    lemma_failure_stops(message_step(state, telegram_id, text, wallet), replies, failed);
}

/// A failed balance request does not stop the answer: the welcome is sent with
/// the address that was read and a balance of zero, and completes it.
pub proof fn law_balance_failure_shows_zero(
    telegram_id: i64,
    text: Option<Seq<char>>,
    wallet: (Seq<char>, Seq<char>),
    pubkey: Seq<char>,
    message: Seq<char>,
)
    requires
        crate::dialogue::asks_for_wallet(State::Idle, text),
    ensures
        ({
            let step = message_step(State::Idle, telegram_id, text, Ok(wallet));
            let replies = seq![
                ReplyView::Done,
                ReplyView::Pubkey(pubkey),
                ReplyView::Failed(message),
                ReplyView::Done,
            ];
            &&& performed(step, replies) == seq![
                EffectView::InsertUser { telegram_id, pubkey: wallet.0, privkey_enc: wallet.1 },
                EffectView::SelectPubkey { telegram_id },
                EffectView::FetchBalance { pubkey },
                welcome("0.0000"@, pubkey),
            ]
            &&& completes(step, replies)
        }),
{
    reveal_with_fuel(performed, 6);
    reveal_with_fuel(completes, 6);
    let replies = seq![
        ReplyView::Done,
        ReplyView::Pubkey(pubkey),
        ReplyView::Failed(message),
        ReplyView::Done,
    ];
    let after_insert = replies.drop_first();
    let after_select = after_insert.drop_first();
    let after_fetch = after_select.drop_first();
    assert(after_insert[0] == ReplyView::Pubkey(pubkey));
    assert(after_select[0] == ReplyView::Failed(message));
    assert(after_fetch =~= seq![ReplyView::Done]);
}

/// No step of an answer is at odds with itself, and a reply that the answer goes
/// on with, which every success is, never makes the answer fail.
pub proof fn law_success_never_fails(effect: EffectView, stage: StageView, reply: ReplyView)
    requires
        is_consistent(StepView::Perform(effect, stage)),
        goes_on(effect, reply),
    ensures
        !(resume_step(stage, reply) is Failed),
        is_consistent(resume_step(stage, reply)),
{
}

/// Every answer starts with a step that is not at odds with itself, and fails
/// at once only where a wallet was asked for and could not be made.
pub proof fn law_answers_start(
    state: State,
    telegram_id: i64,
    text: Option<Seq<char>>,
    wallet: Result<(Seq<char>, Seq<char>), Seq<char>>,
)
    ensures
        is_consistent(message_step(state, telegram_id, text, wallet)),
        message_step(state, telegram_id, text, wallet) is Failed <==> {
            &&& crate::dialogue::asks_for_wallet(state, text)
            &&& wallet is Err
        },
{
}

/// A message is answered by the one handler of the dialogue's state, whatever
/// its text is: commands have no meaning where an address is awaited.
pub proof fn law_one_handler(
    key: Seq<u8>,
    state: State,
    telegram_id: i64,
    text: Option<Seq<char>>,
    step: StepView,
)
    requires
        is_answer(key, state, telegram_id, text, step),
    ensures
        match state {
            State::Idle => exists|wallet: Result<(Seq<char>, Seq<char>), Seq<char>>|
                {
                    &&& step == #[trigger] idle_step(telegram_id, text, wallet)
                    &&& crate::dialogue::asks_for_wallet(state, text) ==> is_made_wallet(
                        key,
                        wallet,
                    )
                },
            State::AwaitingBuyAddress => step == buy_address_step(text),
            State::AwaitingCopyTradeWallet => step == copy_trade_wallet_step(telegram_id, text),
        },
{
    let wallet = choose|wallet: Result<(Seq<char>, Seq<char>), Seq<char>>|
        {
            &&& crate::dialogue::asks_for_wallet(state, text) ==> is_made_wallet(key, wallet)
            &&& step == #[trigger] message_step(state, telegram_id, text, wallet)
        };
    assert(state == State::Idle ==> step == idle_step(telegram_id, text, wallet));
}

/// The state that a step may still move the dialogue to.
spec fn target_state(step: StepView) -> Option<State> {
    match step {
        StepView::Perform(EffectView::UpdateDialogue(next), _) => Some(next),
        StepView::Perform(EffectView::ExitDialogue, _) => Some(State::Idle),
        StepView::Perform(_, StageView::UpdateNext(next)) => Some(next),
        StepView::Perform(_, StageView::ExitNext) => Some(State::Idle),
        StepView::Perform(_, StageView::WorkerSpawned { .. }) => Some(State::Idle),
        StepView::Perform(_, StageView::PrivkeyAsked { .. }) => Some(State::Idle),
        _ => None,
    }
}

proof fn lemma_state_after(state: State, step: StepView, replies: Seq<ReplyView>)
    requires
        is_consistent(step),
    ensures
        state_after(state, step, replies) == state || Some(state_after(state, step, replies))
            == target_state(step),
        completes(step, replies) ==> state_after(state, step, replies) == match target_state(
            step,
        ) {
            Some(next) => next,
            None => state,
        },
    decreases replies.len(),
{
    if let StepView::Perform(effect, stage) = step {
        if replies.len() > 0 {
            let next = resume_step(stage, replies[0]);
            let moved = if replies[0] is Done {
                effect_state(state, effect)
            } else {
                state
            };
            assert(is_consistent(next));
            lemma_state_after(moved, next, replies.drop_first());
        }
    }
}

/// A dialogue never loses its context: whatever fails on the way, a message
/// leaves the state as it was or moves it to where the completed answer would.
pub proof fn law_state_moves(
    state: State,
    telegram_id: i64,
    text: Option<Seq<char>>,
    wallet: Result<(Seq<char>, Seq<char>), Seq<char>>,
    replies: Seq<ReplyView>,
)
    ensures
        ({
            let after = state_after(
                state,
                message_step(state, telegram_id, text, wallet),
                replies,
            );
            after == state || after == next_state(state, text)
        }),
{
    lemma_state_after(state, message_step(state, telegram_id, text, wallet), replies);
}

/// An answer that is carried through moves the dialogue on: the buy and the copy
/// trade buttons open a question, a text answers the open question and closes
/// it, and everything else leaves the state alone.
pub proof fn law_completed_state(
    state: State,
    telegram_id: i64,
    text: Option<Seq<char>>,
    wallet: Result<(Seq<char>, Seq<char>), Seq<char>>,
    replies: Seq<ReplyView>,
)
    requires
        completes(message_step(state, telegram_id, text, wallet), replies),
    ensures
        state_after(state, message_step(state, telegram_id, text, wallet), replies) == next_state(
            state,
            text,
        ),
{
    lemma_state_after(state, message_step(state, telegram_id, text, wallet), replies);
}

/// A message without text never changes the state of the dialogue.
pub proof fn law_no_text_no_move(
    state: State,
    telegram_id: i64,
    wallet: Result<(Seq<char>, Seq<char>), Seq<char>>,
    replies: Seq<ReplyView>,
)
    ensures
        state_after(state, message_step(state, telegram_id, None, wallet), replies) == state,
{
    lemma_state_after(state, message_step(state, telegram_id, None, wallet), replies);
}

/// A worker is spawned only where a wallet address was awaited, for the user
/// who sent it and the wallet that was sent, with the private key that is
/// stored for that user.
pub proof fn law_worker_spawned(
    state: State,
    telegram_id: i64,
    text: Option<Seq<char>>,
    wallet: Result<(Seq<char>, Seq<char>), Seq<char>>,
    replies: Seq<ReplyView>,
    i: int,
)
    requires
        0 <= i < performed(message_step(state, telegram_id, text, wallet), replies).len(),
        performed(message_step(state, telegram_id, text, wallet), replies)[i] is SpawnWorker,
    ensures
        state == State::AwaitingCopyTradeWallet,
        i == 1,
        performed(message_step(state, telegram_id, text, wallet), replies)[0]
            == (EffectView::SelectPrivkey { telegram_id }),
        replies[0] matches ReplyView::Privkey(Some(privkey_enc)) && text matches Some(
            target_wallet,
        ) && performed(message_step(state, telegram_id, text, wallet), replies)[1]
            == (EffectView::SpawnWorker { telegram_id, target_wallet, privkey_enc }),
{
    reveal_with_fuel(performed, 6);
}

/// The welcome shows the wallet that is stored for the user, whether or not it
/// is the one just made: the address in it is the one that was read after the
/// new wallet was offered for storage, and the balance is what came of asking
/// for that address's.
pub proof fn law_welcome_shows_stored_wallet(
    state: State,
    telegram_id: i64,
    text: Option<Seq<char>>,
    wallet: Result<(Seq<char>, Seq<char>), Seq<char>>,
    replies: Seq<ReplyView>,
    i: int,
)
    requires
        0 <= i < performed(message_step(state, telegram_id, text, wallet), replies).len(),
        performed(message_step(state, telegram_id, text, wallet), replies)[i] is SendPhoto,
    ensures
        crate::dialogue::asks_for_wallet(state, text),
        i == 3,
        performed(message_step(state, telegram_id, text, wallet), replies)[1]
            == (EffectView::SelectPubkey { telegram_id }),
        replies[2] is Balance || replies[2] is Failed,
        replies[1] matches ReplyView::Pubkey(pubkey) && {
            &&& performed(message_step(state, telegram_id, text, wallet), replies)[2]
                == (EffectView::FetchBalance { pubkey })
            &&& performed(message_step(state, telegram_id, text, wallet), replies)[3] == welcome(
                balance_text(fetched_balance(replies[2])),
                pubkey,
            )
        },
{
    reveal_with_fuel(performed, 6);
}

/// A user without a wallet cannot copy trades: the answer is to run `/start`
/// first, no worker is spawned, and the question is closed.
pub proof fn law_copy_trade_needs_wallet(
    telegram_id: i64,
    target_wallet: Seq<char>,
    wallet: Result<(Seq<char>, Seq<char>), Seq<char>>,
)
    ensures
        performed(
            message_step(State::AwaitingCopyTradeWallet, telegram_id, Some(target_wallet), wallet),
            seq![ReplyView::Privkey(None), ReplyView::Done, ReplyView::Done],
        ) == seq![
            EffectView::SelectPrivkey { telegram_id },
            EffectView::SendMessage { text: crate::menu::START_FIRST@, html: false },
            EffectView::ExitDialogue,
        ],
{
    reveal_with_fuel(performed, 5);
    let replies = seq![ReplyView::Privkey(None), ReplyView::Done, ReplyView::Done];
    assert(replies.drop_first() =~= seq![ReplyView::Done, ReplyView::Done]);
    assert(replies.drop_first().drop_first() =~= seq![ReplyView::Done]);
}

} // verus!
