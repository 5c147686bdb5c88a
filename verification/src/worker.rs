//! The copy-trade worker of one target wallet: which step comes next, and how
//! long to wait before trying again.
//!
//! The worker connects, subscribes to the logs of its target, and reads them
//! one by one. Whenever a step fails or the stream ends, it waits and connects
//! again. The wait doubles from one second up to a minute, and is back at one
//! second after a successful subscription.

use vstd::prelude::*;

verus! {

/// The longest wait between two attempts, in seconds.
pub const MAX_BACKOFF_SECS: u64 = 60;

/// A step that the worker waits for the outcome of.
#[derive(Clone, Copy, Debug, PartialEq, Eq, Structural)]
pub enum WorkerAction {
    /// Open a connection.
    Connect,
    /// Subscribe to the logs that mention the target wallet.
    Subscribe,
    /// Read the next log; it fails where the stream has ended.
    ReadLog,
    /// Wait this number of seconds.
    Sleep(u64),
}

/// How final a transaction must be before its log is sent.
#[derive(Clone, Copy, Debug, PartialEq, Eq, Structural)]
pub enum Commitment {
    /// A node has processed the transaction.
    Processed,
    /// Most of the cluster has voted for the block.
    Confirmed,
    /// The cluster cannot go back behind the block.
    Finalized,
}

/// Which logs a subscription asks for.
#[derive(Clone, Debug, PartialEq, Eq)]
pub struct LogSubscription {
    /// The addresses of which a transaction must mention one.
    pub mentions: Vec<String>,
    /// The commitment to wait for.
    pub commitment: Commitment,
}

/// The content of a [`LogSubscription`].
pub struct LogSubscriptionView {
    pub mentions: Seq<Seq<char>>,
    pub commitment: Commitment,
}

impl View for LogSubscription {
    type V = LogSubscriptionView;

    open spec fn view(&self) -> LogSubscriptionView {
        LogSubscriptionView {
            mentions: self.mentions@.map_values(|address: String| address@),
            commitment: self.commitment,
        }
    }
}

/// The subscription to the logs of a target wallet: those that mention this one
/// address, once they are confirmed.
pub open spec fn target_subscription(target: Seq<char>) -> LogSubscriptionView {
    LogSubscriptionView { mentions: seq![target], commitment: Commitment::Confirmed }
}

/// The subscription to the logs of a target mentions that target and nothing
/// else, and waits for the confirmation: different targets have different
/// subscriptions.
pub proof fn law_target_subscription(target: Seq<char>, other_target: Seq<char>)
    ensures
        target_subscription(target).mentions.len() == 1,
        target_subscription(target).mentions[0] == target,
        target_subscription(target).commitment == Commitment::Confirmed,
        target_subscription(target) == target_subscription(other_target) ==> target == other_target,
{
    assert(target_subscription(target).mentions[0] == target);
    assert(target_subscription(other_target).mentions[0] == other_target);
}

/// The view of a subscription has the addresses and the commitment that the
/// subscription has.
pub proof fn law_subscription_view(subscription: LogSubscription)
    ensures
        subscription@.mentions.len() == subscription.mentions@.len(),
        forall|i: int|
            0 <= i < subscription.mentions@.len() ==> (#[trigger] subscription@.mentions[i])
                == subscription.mentions@[i]@,
        subscription@.commitment == subscription.commitment,
{
}

/// What the worker is doing, and how long its next wait will be.
pub struct WorkerStatus {
    /// The wallet whose trades are copied.
    pub target: Seq<char>,
    /// The encrypted private key of the user who copies them.
    pub user_privkey_enc: Seq<char>,
    /// The step that is under way.
    pub pending: WorkerAction,
    /// The next wait, in seconds.
    pub backoff_secs: nat,
}

/// The wait after a wait of this length.
pub open spec fn doubled_backoff(backoff_secs: nat) -> nat {
    if backoff_secs * 2 < MAX_BACKOFF_SECS {
        backoff_secs * 2
    } else {
        MAX_BACKOFF_SECS as nat
    }
}

/// How a worker starts.
pub open spec fn worker_start(target: Seq<char>, user_privkey_enc: Seq<char>) -> WorkerStatus {
    WorkerStatus { target, user_privkey_enc, pending: WorkerAction::Connect, backoff_secs: 1 }
}

/// How a worker goes on after its pending step has succeeded or failed.
pub open spec fn worker_next(status: WorkerStatus, succeeded: bool) -> WorkerStatus {
    match status.pending {
        WorkerAction::Sleep(_) => WorkerStatus { pending: WorkerAction::Connect, ..status },
        WorkerAction::Connect if succeeded => WorkerStatus {
            pending: WorkerAction::Subscribe,
            ..status
        },
        WorkerAction::Subscribe if succeeded => WorkerStatus {
            pending: WorkerAction::ReadLog,
            backoff_secs: 1,
            ..status
        },
        WorkerAction::ReadLog if succeeded => status,
        _ => WorkerStatus {
            pending: WorkerAction::Sleep(status.backoff_secs as u64),
            backoff_secs: doubled_backoff(status.backoff_secs),
            ..status
        },
    }
}

/// Where a worker is after a series of outcomes.
pub open spec fn worker_after(status: WorkerStatus, outcomes: Seq<bool>) -> WorkerStatus
    decreases outcomes.len(),
{
    if outcomes.len() == 0 {
        status
    } else {
        worker_next(worker_after(status, outcomes.drop_last()), outcomes.last())
    }
}

/// What is true of a worker at all times: its waits are between a second and
/// a minute, and while it reads logs the next wait is one second.
pub open spec fn worker_valid(status: WorkerStatus) -> bool {
    &&& 1 <= status.backoff_secs <= MAX_BACKOFF_SECS
    &&& status.pending matches WorkerAction::Sleep(secs) ==> 1 <= secs <= MAX_BACKOFF_SECS
    &&& status.pending == WorkerAction::ReadLog ==> status.backoff_secs == 1
}

/// A worker that has its target, its pending step and its next wait. The
/// encrypted private key is there for the trades to be made with it; no step
/// uses it yet.
pub struct CopyTradeWorker {
    target_wallet: String,
    _user_privkey_enc: String,
    pending: WorkerAction,
    backoff_secs: u64,
}

impl View for CopyTradeWorker {
    type V = WorkerStatus;

    closed spec fn view(&self) -> WorkerStatus {
        WorkerStatus {
            target: self.target_wallet@,
            user_privkey_enc: self._user_privkey_enc@,
            pending: self.pending,
            backoff_secs: self.backoff_secs as nat,
        }
    }
}

impl CopyTradeWorker {
    #[verifier::type_invariant]
    spec fn valid(self) -> bool {
        worker_valid(self@)
    }

    /// A worker that is about to connect for the first time.
    pub fn new(target_wallet: String, user_privkey_enc: String) -> (worker: CopyTradeWorker)
        ensures
            worker@ == worker_start(target_wallet@, user_privkey_enc@),
            worker@.target == target_wallet@,
            worker@.user_privkey_enc == user_privkey_enc@,
            worker@.pending == WorkerAction::Connect,
            worker@.backoff_secs == 1,
    {
        CopyTradeWorker {
            target_wallet,
            _user_privkey_enc: user_privkey_enc,
            pending: WorkerAction::Connect,
            backoff_secs: 1,
        }
    }

    /// The step to perform now.
    pub fn pending(&self) -> (action: WorkerAction)
        ensures
            action == self@.pending,
            worker_valid(self@),
            action matches WorkerAction::Sleep(secs) ==> 1 <= secs <= 60,
            1 <= self@.backoff_secs <= 60,
    {
        proof {
            use_type_invariant(self);
        }
        self.pending
    }

    /// The wallet whose trades are copied.
    pub fn target_wallet(&self) -> (target: &str)
        ensures
            target@ == self@.target,
    {
        self.target_wallet.as_str()
    }

    /// The subscription to make where the pending step is to subscribe.
    pub fn subscription(&self) -> (subscription: LogSubscription)
        ensures
            subscription@ == target_subscription(self@.target),
            subscription.mentions@.len() == 1,
            subscription.mentions@[0]@ == self@.target,
            subscription.commitment == Commitment::Confirmed,
    {
        let mut mentions: Vec<String> = Vec::new();
        mentions.push(self.target_wallet.clone());
        let subscription = LogSubscription { mentions, commitment: Commitment::Confirmed };
        assert(subscription@.mentions =~= seq![self@.target]);
        subscription
    }

    /// Takes note of how the pending step went, and moves on to the next one.
    pub fn step(&mut self, succeeded: bool)
        ensures
            final(self)@ == worker_next(old(self)@, succeeded),
            final(self)@.target == old(self)@.target,
            final(self)@.user_privkey_enc == old(self)@.user_privkey_enc,
    {
        proof {
            use_type_invariant(&*self);
        }
        match (self.pending, succeeded) {
            (WorkerAction::Sleep(_), _) => {
                self.pending = WorkerAction::Connect;
            },
            (WorkerAction::Connect, true) => {
                self.pending = WorkerAction::Subscribe;
            },
            (WorkerAction::Subscribe, true) => {
                self.backoff_secs = 1;
                self.pending = WorkerAction::ReadLog;
            },
            (WorkerAction::ReadLog, true) => {},
            _ => {
                let doubled: u64 = self.backoff_secs * 2;
                self.pending = WorkerAction::Sleep(self.backoff_secs);
                self.backoff_secs = if doubled < MAX_BACKOFF_SECS {
                    doubled
                } else {
                    MAX_BACKOFF_SECS
                };
            },
        }
    }
}

/// Every worker stays valid and keeps its target, whatever happens to it.
pub proof fn law_worker_valid(target: Seq<char>, user_privkey_enc: Seq<char>, outcomes: Seq<bool>)
    ensures
        worker_valid(worker_after(worker_start(target, user_privkey_enc), outcomes)),
        worker_after(worker_start(target, user_privkey_enc), outcomes).target == target,
    decreases outcomes.len(),
{
    if outcomes.len() > 0 {
        law_worker_valid(target, user_privkey_enc, outcomes.drop_last());
    }
}

/// A worker begins by connecting, for the target and with the key that it was
/// made with, and its first wait is one second.
pub proof fn law_worker_starts(target: Seq<char>, user_privkey_enc: Seq<char>)
    ensures
        worker_start(target, user_privkey_enc).target == target,
        worker_start(target, user_privkey_enc).user_privkey_enc == user_privkey_enc,
        worker_start(target, user_privkey_enc).pending == WorkerAction::Connect,
        worker_start(target, user_privkey_enc).backoff_secs == 1,
{
}

/// How every step is followed up, whatever the target is. Connecting leads to
/// subscribing, subscribing to reading, reading to more reading, and waiting to
/// connecting; anything that fails leads to the wait that was due, after which
/// twice that is due, up to a minute. Nothing but a subscription makes the wait
/// shorter, and target and key stay.
pub proof fn law_worker_steps(status: WorkerStatus, succeeded: bool)
    requires
        1 <= status.backoff_secs <= 60,
    ensures
        ({
            let next = worker_next(status, succeeded);
            &&& next.target == status.target
            &&& next.user_privkey_enc == status.user_privkey_enc
            &&& status.pending == WorkerAction::Connect && succeeded ==> next.pending
                == WorkerAction::Subscribe && next.backoff_secs == status.backoff_secs
            &&& status.pending == WorkerAction::Subscribe && succeeded ==> next.pending
                == WorkerAction::ReadLog && next.backoff_secs == 1
            &&& status.pending == WorkerAction::ReadLog && succeeded ==> next.pending
                == WorkerAction::ReadLog && next.backoff_secs == status.backoff_secs
            &&& status.pending is Sleep ==> next.pending == WorkerAction::Connect
                && next.backoff_secs == status.backoff_secs
            &&& !(status.pending is Sleep) && !succeeded ==> {
                &&& next.pending matches WorkerAction::Sleep(secs)
                &&& secs == status.backoff_secs
                &&& 2 * status.backoff_secs <= 60 ==> next.backoff_secs == 2 * status.backoff_secs
                &&& 2 * status.backoff_secs > 60 ==> next.backoff_secs == 60
            }
        }),
{
}

/// The steps that a worker has been given after a series of outcomes: one for
/// each outcome, and the one that is pending.
pub open spec fn worker_actions(status: WorkerStatus, outcomes: Seq<bool>) -> Seq<WorkerAction> {
    Seq::new(outcomes.len() + 1, |i: int| worker_after(status, outcomes.take(i)).pending)
}

proof fn lemma_worker_step(status: WorkerStatus, outcomes: Seq<bool>, i: int)
    requires
        0 <= i < outcomes.len(),
    ensures
        worker_after(status, outcomes.take(i + 1)) == worker_next(
            worker_after(status, outcomes.take(i)),
            outcomes[i],
        ),
{
    assert(outcomes.take(i + 1).drop_last() =~= outcomes.take(i));
}

/// Every successful connection is followed by one subscription, and no other
/// subscription is made. Each is for the logs that mention the target and no
/// other address, once they are confirmed.
pub proof fn law_one_subscription_per_connection(
    target: Seq<char>,
    user_privkey_enc: Seq<char>,
    outcomes: Seq<bool>,
    i: int,
)
    requires
        0 <= i <= outcomes.len(),
    ensures
        ({
            let start = worker_start(target, user_privkey_enc);
            let actions = worker_actions(start, outcomes);
            let status = worker_after(start, outcomes.take(i));
            &&& actions[i] == WorkerAction::Subscribe <==> {
                &&& i > 0
                &&& actions[i - 1] == WorkerAction::Connect
                &&& outcomes[i - 1]
            }
            &&& target_subscription(status.target).mentions == seq![target]
            &&& target_subscription(status.target).commitment == Commitment::Confirmed
        }),
{
    let start = worker_start(target, user_privkey_enc);
    law_worker_valid(target, user_privkey_enc, outcomes.take(i));
    if i > 0 {
        lemma_worker_step(start, outcomes, i - 1);
    } else {
        assert(outcomes.take(0) =~= Seq::<bool>::empty());
    }
}

/// The private key influences nothing: two workers that have the same target
/// and the same outcomes take the same steps, make the same subscriptions and
/// wait for the same times, whatever their keys are.
pub proof fn law_worker_ignores_privkey(
    target: Seq<char>,
    user_privkey_enc: Seq<char>,
    other_privkey_enc: Seq<char>,
    outcomes: Seq<bool>,
)
    ensures
        worker_after(worker_start(target, other_privkey_enc), outcomes) == (WorkerStatus {
            user_privkey_enc: other_privkey_enc,
            ..worker_after(worker_start(target, user_privkey_enc), outcomes)
        }),
        worker_actions(worker_start(target, other_privkey_enc), outcomes) == worker_actions(
            worker_start(target, user_privkey_enc),
            outcomes,
        ),
    decreases outcomes.len(),
{
    if outcomes.len() > 0 {
        law_worker_ignores_privkey(
            target,
            user_privkey_enc,
            other_privkey_enc,
            outcomes.drop_last(),
        );
    }
    let actions = worker_actions(worker_start(target, user_privkey_enc), outcomes);
    let other_actions = worker_actions(worker_start(target, other_privkey_enc), outcomes);
    assert forall|i: int| 0 <= i <= outcomes.len() implies actions[i] == other_actions[i] by {
        if i < outcomes.len() {
            law_worker_ignores_privkey(
                target,
                user_privkey_enc,
                other_privkey_enc,
                outcomes.take(i),
            );
        } else {
            assert(outcomes.take(i) =~= outcomes);
        }
    }
    assert(actions =~= other_actions);
}

/// A worker never gives up: a failed connection, a failed subscription and the
/// end of the stream are all followed by one wait and a new connection.
pub proof fn law_worker_reconnects(status: WorkerStatus, woke: bool)
    requires
        worker_valid(status),
        !(status.pending is Sleep),
    ensures
        worker_next(status, false).pending == WorkerAction::Sleep(status.backoff_secs as u64),
        worker_next(worker_next(status, false), woke).pending == WorkerAction::Connect,
        worker_next(worker_next(status, false), woke).backoff_secs == doubled_backoff(
            status.backoff_secs,
        ),
{
}

/// A successful subscription puts the wait back to one second.
pub proof fn law_worker_resets(status: WorkerStatus)
    requires
        status.pending == WorkerAction::Subscribe,
    ensures
        worker_next(status, true).pending == WorkerAction::ReadLog,
        worker_next(status, true).backoff_secs == 1,
{
}

/// Reading a log leaves the worker as it was: what is detected is followed by
/// nothing but the next log.
pub proof fn law_worker_keeps_reading(status: WorkerStatus)
    requires
        status.pending == WorkerAction::ReadLog,
    ensures
        worker_next(status, true) == status,
{
}

/// Two to the power of `n`.
pub open spec fn power_of_two(n: nat) -> nat
    decreases n,
{
    if n == 0 {
        1
    } else {
        2 * power_of_two((n - 1) as nat)
    }
}

/// The wait that comes after this number of waits: two to that power, in
/// seconds, or a minute where that is less.
pub open spec fn wait_after(waits: nat) -> nat {
    if power_of_two(waits) < MAX_BACKOFF_SECS {
        power_of_two(waits)
    } else {
        MAX_BACKOFF_SECS as nat
    }
}

/// The waits begin with one second, and each is twice the one before it, but
/// never more than a minute.
pub proof fn law_wait_lengths(waits: nat)
    ensures
        wait_after(0) == 1,
        2 * wait_after(waits) <= 60 ==> wait_after(waits + 1) == 2 * wait_after(waits),
        2 * wait_after(waits) > 60 ==> wait_after(waits + 1) == 60,
        1 <= wait_after(waits) <= 60,
{
    reveal_with_fuel(power_of_two, 2);
    lemma_power_of_two_positive(waits);
}

proof fn lemma_power_of_two_positive(n: nat)
    ensures
        power_of_two(n) >= 1,
    decreases n,
{
    if n > 0 {
        lemma_power_of_two_positive((n - 1) as nat);
    }
}

/// The number of waits that a worker has begun since its last successful
/// subscription, or since its start where there was none.
pub open spec fn waits_since_subscription(status: WorkerStatus, outcomes: Seq<bool>) -> nat
    decreases outcomes.len(),
{
    if outcomes.len() == 0 {
        0
    } else {
        let before = worker_after(status, outcomes.drop_last());
        let waits = waits_since_subscription(status, outcomes.drop_last());
        if before.pending == WorkerAction::Subscribe && outcomes.last() {
            0
        } else if worker_next(before, outcomes.last()).pending is Sleep {
            waits + 1
        } else {
            waits
        }
    }
}

/// Whatever has happened to a worker, its next wait is decided by the number of
/// waits since its last successful subscription: it is two to that power, in
/// seconds, or a minute where that is less. So the waits are one, two, four
/// seconds and so on up to a minute, and start again with a subscription.
pub proof fn law_backoff_counts_waits(
    target: Seq<char>,
    user_privkey_enc: Seq<char>,
    outcomes: Seq<bool>,
)
    ensures
        ({
            let start = worker_start(target, user_privkey_enc);
            let status = worker_after(start, outcomes);
            let waits = waits_since_subscription(start, outcomes);
            &&& status.backoff_secs == wait_after(waits)
            &&& status.pending matches WorkerAction::Sleep(secs) ==> waits > 0 && secs
                == wait_after((waits - 1) as nat)
        }),
    decreases outcomes.len(),
{
    if outcomes.len() > 0 {
        law_backoff_counts_waits(target, user_privkey_enc, outcomes.drop_last());
        law_worker_valid(target, user_privkey_enc, outcomes.drop_last());
    }
}

/// The wait only gets shorter by a successful subscription.
pub proof fn law_backoff_monotone(status: WorkerStatus, succeeded: bool)
    requires
        worker_valid(status),
        !(status.pending == WorkerAction::Subscribe && succeeded),
    ensures
        worker_next(status, succeeded).backoff_secs >= status.backoff_secs,
{
}

} // verus!
