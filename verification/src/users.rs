//! The stored wallets: what the effects of the answers do to the table of
//! users, in which the database keeps one row for each of them.
//!
//! Storing a wallet is `INSERT OR IGNORE` under the user's id as primary key, in
//! a single statement. This module describes that statement and the two queries,
//! and says what follows for users who start more than once, or twice at the
//! same time. A series of effects is one of all the users, in the order in which
//! the database performed them.

use crate::balance::balance_text;
use crate::dialogue::{
    asks_for_wallet, fetched_balance, is_answer, is_made_wallet, message_step, welcome, EffectView,
    ReplyView, State, StepView,
};
use crate::dialogue_laws::{law_welcome_shows_stored_wallet, law_worker_spawned, performed};
use crate::wallet::is_wallet_of;
use vstd::prelude::*;

verus! {

/// What is stored of a user: the address and the encrypted private key of the
/// user's wallet.
pub struct UserRow {
    pub pubkey: Seq<char>,
    pub privkey_enc: Seq<char>,
}

/// The row of a user, where there is one.
pub open spec fn row(users: Map<i64, UserRow>, telegram_id: i64) -> Option<UserRow> {
    if users.dom().contains(telegram_id) {
        Some(users[telegram_id])
    } else {
        None
    }
}

/// The row that an effect offers for a user, where it offers one.
pub open spec fn offered(effect: EffectView, telegram_id: i64) -> Option<UserRow> {
    match effect {
        EffectView::InsertUser { telegram_id: id, pubkey, privkey_enc } => if id == telegram_id {
            Some(UserRow { pubkey, privkey_enc })
        } else {
            None
        },
        _ => None,
    }
}

/// The table after an effect: a row is inserted where the user has none yet, and
/// ignored where the user has one.
pub open spec fn after_effect(users: Map<i64, UserRow>, effect: EffectView) -> Map<i64, UserRow> {
    match effect {
        EffectView::InsertUser { telegram_id, pubkey, privkey_enc } => match row(
            users,
            telegram_id,
        ) {
            Some(_) => users,
            None => users.insert(telegram_id, UserRow { pubkey, privkey_enc }),
        },
        _ => users,
    }
}

/// The table after a series of effects.
pub open spec fn users_after(users: Map<i64, UserRow>, effects: Seq<EffectView>) -> Map<
    i64,
    UserRow,
>
    decreases effects.len(),
{
    if effects.len() == 0 {
        users
    } else {
        after_effect(users_after(users, effects.drop_last()), effects.last())
    }
}

/// The reply of the address query: it fails where the user has no row.
pub open spec fn pubkey_reply(users: Map<i64, UserRow>, telegram_id: i64) -> Option<ReplyView> {
    match row(users, telegram_id) {
        Some(found) => Some(ReplyView::Pubkey(found.pubkey)),
        None => None,
    }
}

/// The reply of the query for the encrypted private key.
pub open spec fn privkey_reply(users: Map<i64, UserRow>, telegram_id: i64) -> ReplyView {
    match row(users, telegram_id) {
        Some(found) => ReplyView::Privkey(Some(found.privkey_enc)),
        None => ReplyView::Privkey(None),
    }
}

/// A row is never changed and never removed, whatever effects are performed.
pub proof fn law_rows_never_change(
    users: Map<i64, UserRow>,
    effects: Seq<EffectView>,
    telegram_id: i64,
)
    requires
        row(users, telegram_id) is Some,
    ensures
        row(users_after(users, effects), telegram_id) == row(users, telegram_id),
    decreases effects.len(),
{
    if effects.len() > 0 {
        law_rows_never_change(users, effects.drop_last(), telegram_id);
    }
}

/// The first wallet that is offered for a user without one is the one that is
/// stored, address and private key together; without an offer there is none.
/// So two starts at the same time leave one row, and it is whole.
pub proof fn law_first_offer_is_stored(
    users: Map<i64, UserRow>,
    effects: Seq<EffectView>,
    telegram_id: i64,
)
    requires
        row(users, telegram_id) is None,
    ensures
        match row(users_after(users, effects), telegram_id) {
            Some(stored) => exists|i: int|
                {
                    &&& 0 <= i < effects.len()
                    &&& offered(#[trigger] effects[i], telegram_id) == Some(stored)
                    &&& forall|j: int|
                        0 <= j < i ==> offered(#[trigger] effects[j], telegram_id) is None
                },
            None => forall|i: int|
                0 <= i < effects.len() ==> offered(#[trigger] effects[i], telegram_id) is None,
        },
    decreases effects.len(),
{
    if effects.len() > 0 {
        let earlier = effects.drop_last();
        law_first_offer_is_stored(users, earlier, telegram_id);
        match row(users_after(users, earlier), telegram_id) {
            Some(stored) => {
                let i = choose|i: int|
                    {
                        &&& 0 <= i < earlier.len()
                        &&& offered(#[trigger] earlier[i], telegram_id) == Some(stored)
                        &&& forall|j: int|
                            0 <= j < i ==> offered(#[trigger] earlier[j], telegram_id) is None
                    };
                assert(offered(effects[i], telegram_id) == Some(stored));
                assert forall|j: int| 0 <= j < i implies offered(
                    #[trigger] effects[j],
                    telegram_id,
                ) is None by {
                    assert(earlier[j] == effects[j]);
                }
            },
            None => {
                assert forall|j: int| 0 <= j < earlier.len() implies offered(
                    #[trigger] effects[j],
                    telegram_id,
                ) is None by {
                    assert(earlier[j] == effects[j]);
                }
            },
        }
    }
}

/// Whoever reads a user's address after a wallet was offered for the user finds
/// the same one, at any time: two starts at the same time are shown the same
/// wallet.
pub proof fn law_starts_agree(
    users: Map<i64, UserRow>,
    effects: Seq<EffectView>,
    telegram_id: i64,
    insert: int,
    read: int,
    other_read: int,
)
    requires
        0 <= insert < read <= other_read <= effects.len(),
        offered(effects[insert], telegram_id) is Some,
    ensures
        pubkey_reply(users_after(users, effects.take(read)), telegram_id) is Some,
        pubkey_reply(users_after(users, effects.take(other_read)), telegram_id) == pubkey_reply(
            users_after(users, effects.take(read)),
            telegram_id,
        ),
{
    lemma_split(users, effects.take(read), insert + 1);
    lemma_split(users, effects.take(other_read), read);
    let inserted = effects.take(read).take(insert + 1);
    assert(inserted.last() == effects[insert]);
    assert(effects.take(other_read).take(read) =~= effects.take(read));
    law_rows_never_change(
        users_after(users, inserted),
        effects.take(read).skip(insert + 1),
        telegram_id,
    );
    law_rows_never_change(
        users_after(users, effects.take(read)),
        effects.take(other_read).skip(read),
        telegram_id,
    );
}

/// A series of effects may be taken in two parts.
proof fn lemma_split(users: Map<i64, UserRow>, effects: Seq<EffectView>, n: int)
    requires
        0 <= n <= effects.len(),
    ensures
        users_after(users, effects) == users_after(
            users_after(users, effects.take(n)),
            effects.skip(n),
        ),
    decreases effects.len(),
{
    if n == effects.len() {
        assert(effects.take(n) =~= effects);
    } else {
        lemma_split(users, effects.drop_last(), n);
        assert(effects.drop_last().take(n) =~= effects.take(n));
        assert(effects.drop_last().skip(n) =~= effects.skip(n).drop_last());
        assert(effects.skip(n).last() == effects.last());
    }
}

/// A user who starts again keeps the wallet that is stored, and is shown it
/// again: whatever wallet was made for this start, and whatever was performed
/// before its address is read, the welcome has the stored address.
pub proof fn law_start_again_keeps_wallet(
    users: Map<i64, UserRow>,
    telegram_id: i64,
    text: Option<Seq<char>>,
    wallet: Result<(Seq<char>, Seq<char>), Seq<char>>,
    before_read: Seq<EffectView>,
    replies: Seq<ReplyView>,
)
    requires
        row(users, telegram_id) is Some,
        asks_for_wallet(State::Idle, text),
        replies.len() > 2,
        performed(message_step(State::Idle, telegram_id, text, wallet), replies).len() == 4,
        pubkey_reply(users_after(users, before_read), telegram_id) == Some(replies[1]),
    ensures
        row(users_after(users, before_read), telegram_id) == row(users, telegram_id),
        performed(message_step(State::Idle, telegram_id, text, wallet), replies)[3] == welcome(
            balance_text(fetched_balance(replies[2])),
            users[telegram_id].pubkey,
        ),
{
    law_rows_never_change(users, before_read, telegram_id);
    reveal_with_fuel(performed, 5);
    law_welcome_shows_stored_wallet(State::Idle, telegram_id, text, wallet, replies, 3);
}

/// The only wallets that answers offer for storage are new wallets of the key,
/// each for the user who sent the message.
pub proof fn law_answers_offer_wallets(
    key: Seq<u8>,
    state: State,
    telegram_id: i64,
    text: Option<Seq<char>>,
    step: StepView,
    replies: Seq<ReplyView>,
    i: int,
)
    requires
        is_answer(key, state, telegram_id, text, step),
        0 <= i < performed(step, replies).len(),
    ensures
        performed(step, replies)[i] matches EffectView::InsertUser {
            telegram_id: id,
            pubkey,
            privkey_enc,
        } ==> id == telegram_id && is_wallet_of(key, pubkey, privkey_enc),
{
    reveal_with_fuel(performed, 6);
    let wallet = choose|wallet: Result<(Seq<char>, Seq<char>), Seq<char>>|
        {
            &&& asks_for_wallet(state, text) ==> is_made_wallet(key, wallet)
            &&& step == #[trigger] message_step(state, telegram_id, text, wallet)
        };
}

/// Whether every row of a table is a wallet of `key`.
pub open spec fn all_wallets(key: Seq<u8>, users: Map<i64, UserRow>) -> bool {
    forall|telegram_id: i64| #[trigger]
        users.dom().contains(telegram_id) ==> is_wallet_of(
            key,
            users[telegram_id].pubkey,
            users[telegram_id].privkey_enc,
        )
}

/// Every row is a wallet of the key, as long as only such wallets are offered:
/// what is stored for a user opens to the private key of the stored address.
pub proof fn law_rows_are_wallets(
    key: Seq<u8>,
    users: Map<i64, UserRow>,
    effects: Seq<EffectView>,
)
    requires
        all_wallets(key, users),
        forall|i: int|
            0 <= i < effects.len() ==> ((#[trigger] effects[i]) matches EffectView::InsertUser {
                pubkey,
                privkey_enc,
                ..
            } ==> is_wallet_of(key, pubkey, privkey_enc)),
    ensures
        all_wallets(key, users_after(users, effects)),
    decreases effects.len(),
{
    if effects.len() > 0 {
        let earlier = effects.drop_last();
        assert forall|i: int| 0 <= i < earlier.len() implies ((
        #[trigger] earlier[i]) matches EffectView::InsertUser { pubkey, privkey_enc, .. }
            ==> is_wallet_of(key, pubkey, privkey_enc)) by {
            assert(earlier[i] == effects[i]);
        }
        law_rows_are_wallets(key, users, earlier);
        assert(effects[effects.len() - 1] == effects.last());
    }
}

/// A worker is spawned with the private key that is stored for its user, and
/// only for a user who has a row.
pub proof fn law_worker_has_stored_key(
    users: Map<i64, UserRow>,
    state: State,
    telegram_id: i64,
    text: Option<Seq<char>>,
    wallet: Result<(Seq<char>, Seq<char>), Seq<char>>,
    replies: Seq<ReplyView>,
    i: int,
)
    requires
        0 <= i < performed(message_step(state, telegram_id, text, wallet), replies).len(),
        performed(message_step(state, telegram_id, text, wallet), replies)[i] is SpawnWorker,
        replies[0] == privkey_reply(users, telegram_id),
    ensures
        row(users, telegram_id) matches Some(stored) && text matches Some(target_wallet)
            && performed(message_step(state, telegram_id, text, wallet), replies)[i]
            == (EffectView::SpawnWorker {
            telegram_id,
            target_wallet,
            privkey_enc: stored.privkey_enc,
        }),
{
    law_worker_spawned(state, telegram_id, text, wallet, replies, i);
}

} // verus!
