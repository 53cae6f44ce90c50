//! The exchange blocker: for each account and reason a blocker that moves
//! from blocked through before-unblocked to unblocked, with the handlers of
//! each moment run in between.
//!
//! The blocker here is the state machine alone. It takes what happens (a
//! call to block or unblock, an event from the queue, handlers that have
//! finished, a timer that has fired) and answers with the next state and
//! with what is to be done: an event to put on the queue, a timer to start
//! or to abort, handlers to run, waiters to wake. The caller owns the queue,
//! the timers and the handlers, and feeds the events back one by one in the
//! order in which they were queued.

use crate::common::ExchangeAccountId;
use crate::vec_map::{lemma_first_index, lookup, present, spec_insert, spec_remove, Key, VecMap};
use vstd::prelude::*;

verus! {

/// A moment in the life of a blocker at which the handlers are run.
#[derive(Clone, Copy, Debug, PartialEq, Eq, Structural)]
pub enum ExchangeBlockerMoment {
    Blocked,
    BeforeUnblocked,
    Unblocked,
}

/// Why an exchange is blocked.
#[derive(Clone, Copy, Debug)]
pub struct BlockReason {
    pub reason: &'static str,
}

impl View for BlockReason {
    type V = Seq<char>;

    open spec fn view(&self) -> Seq<char> {
        self.reason@
    }
}

impl BlockReason {
    /// The reason with the given text.
    pub fn new(value: &'static str) -> (r: Self)
        ensures
            r@ == value@,
    {
        BlockReason { reason: value }
    }

    /// Whether two reasons have the same text.
    pub fn same(&self, other: &BlockReason) -> (r: bool)
        ensures
            r == (self@ == other@),
    {
        self.reason.to_owned() == other.reason.to_owned()
    }
}

/// How long a block lasts.
#[derive(Clone, Copy, Debug, PartialEq, Eq, Structural)]
pub enum BlockType {
    /// Until it is unblocked.
    Manual,
    /// For the given number of milliseconds, or until it is unblocked.
    Timed(u64),
}

/// Whether a timer runs for a blocker.
#[derive(Clone, Copy, Debug, PartialEq, Eq, Structural)]
pub enum Timeout {
    /// No timer runs.
    ReadyUnblock,
    /// The timer with the number `timer_id` will fire at `end_time`, in
    /// milliseconds of the caller's clock.
    InProgress { end_time: u64, timer_id: u64 },
}

/// How far a blocker has come.
#[derive(Clone, Copy, Debug, PartialEq, Eq, Structural)]
pub enum ProgressStatus {
    /// Created; the event that moves it to blocked is queued.
    WaitBlockedMove,
    /// The handlers of the blocked moment have run.
    ProgressBlocked,
    /// An unblock was asked for; the event that moves on is queued.
    WaitBeforeUnblockedMove,
    /// The handlers of the before-unblocked moment have run; the event that
    /// removes the blocker is queued.
    WaitUnblockedMove,
}

impl ProgressStatus {
    /// The place of the status in the life of a blocker.
    pub open spec fn rank(self) -> int {
        match self {
            ProgressStatus::WaitBlockedMove => 0,
            ProgressStatus::ProgressBlocked => 1,
            ProgressStatus::WaitBeforeUnblockedMove => 2,
            ProgressStatus::WaitUnblockedMove => 3,
        }
    }

    /// The status after a block was renewed: back to blocked where it was
    /// beyond, unchanged where it was not yet there.
    pub open spec fn spec_rolled_back(self) -> ProgressStatus {
        if self.rank() >= 1 {
            ProgressStatus::ProgressBlocked
        } else {
            self
        }
    }

    /// The status after a block was renewed.
    pub fn rolled_back(self) -> (r: ProgressStatus)
        ensures
            r == self.spec_rolled_back(),
    {
        match self {
            ProgressStatus::WaitBlockedMove => ProgressStatus::WaitBlockedMove,
            _ => ProgressStatus::ProgressBlocked,
        }
    }
}

/// The progress of a blocker.
#[derive(Clone, Copy, Debug, PartialEq, Eq, Structural)]
pub struct ProgressState {
    pub is_unblock_requested: bool,
    pub status: ProgressStatus,
}

/// What names a blocker: the account and the reason.
#[derive(Debug)]
pub struct BlockerId {
    pub exchange_account_id: ExchangeAccountId,
    pub reason: BlockReason,
}

impl Clone for BlockerId {
    fn clone(&self) -> (r: Self)
        ensures
            r == *self,
    {
        BlockerId { exchange_account_id: self.exchange_account_id.clone(), reason: self.reason }
    }
}

impl Key for BlockerId {
    type Id = ((Seq<char>, u8), Seq<char>);

    open spec fn id(&self) -> ((Seq<char>, u8), Seq<char>) {
        (self.exchange_account_id@, self.reason@)
    }

    fn same(&self, other: &Self) -> (r: bool) {
        let r = self.exchange_account_id.same(&other.exchange_account_id) && self.reason.same(&other.reason);
        assert(r == (self.id() == other.id()));
        r
    }
}

impl BlockerId {
    /// The blocker of the account for the reason.
    pub fn new(exchange_account_id: ExchangeAccountId, reason: BlockReason) -> (r: Self)
        ensures
            r == (BlockerId { exchange_account_id, reason }),
    {
        BlockerId { exchange_account_id, reason }
    }
}

/// A blocker.
#[derive(Clone, Copy, Debug, PartialEq, Eq, Structural)]
pub struct Blocker {
    pub timeout: Timeout,
    pub progress_state: ProgressState,
}

impl Blocker {
    /// A blocker that was just created.
    pub open spec fn spec_new(timeout: Timeout) -> Blocker {
        Blocker {
            timeout,
            progress_state: ProgressState { is_unblock_requested: false, status: ProgressStatus::WaitBlockedMove },
        }
    }

    /// A blocker that was just created.
    pub fn new(timeout: Timeout) -> (r: Self)
        ensures
            r == Self::spec_new(timeout),
    {
        Blocker {
            timeout,
            progress_state: ProgressState { is_unblock_requested: false, status: ProgressStatus::WaitBlockedMove },
        }
    }

    /// The blocker after the block was renewed: no unblock asked for, and
    /// the status rolled back.
    pub open spec fn spec_rolled_back(self) -> Blocker {
        Blocker {
            progress_state: ProgressState {
                is_unblock_requested: false,
                status: self.progress_state.status.spec_rolled_back(),
            },
            ..self
        }
    }
}

/// The kind of an event on the queue.
#[derive(Clone, Copy, Debug, PartialEq, Eq, Structural)]
pub enum ExchangeBlockerEventType {
    MoveToBlocked,
    UnblockRequested,
    MoveBlockedToBeforeUnblocked,
    MoveBeforeUnblockedToUnblocked,
}

/// An event on the queue.
#[derive(Debug)]
pub struct ExchangeBlockerInternalEvent {
    pub blocker_id: BlockerId,
    pub event_type: ExchangeBlockerEventType,
}

/// What the handlers are told.
#[derive(Debug)]
pub struct ExchangeBlockerEvent {
    pub exchange_account_id: ExchangeAccountId,
    pub reason: BlockReason,
    pub moment: ExchangeBlockerMoment,
}

impl Clone for ExchangeBlockerEvent {
    fn clone(&self) -> (r: Self)
        ensures
            r == *self,
    {
        ExchangeBlockerEvent {
            exchange_account_id: self.exchange_account_id.clone(),
            reason: self.reason,
            moment: self.moment,
        }
    }
}

impl Clone for ExchangeBlockerInternalEvent {
    fn clone(&self) -> (r: Self)
        ensures
            r == *self,
    {
        ExchangeBlockerInternalEvent { blocker_id: self.blocker_id.clone(), event_type: self.event_type }
    }
}

impl ExchangeBlockerInternalEvent {
    /// The event of another kind for the same blocker.
    pub open spec fn spec_with_type(self, event_type: ExchangeBlockerEventType) -> ExchangeBlockerInternalEvent {
        ExchangeBlockerInternalEvent { blocker_id: self.blocker_id, event_type }
    }

    /// What the handlers are told of the blocker at a moment.
    pub open spec fn spec_pub_event(self, moment: ExchangeBlockerMoment) -> ExchangeBlockerEvent {
        ExchangeBlockerEvent {
            exchange_account_id: self.blocker_id.exchange_account_id,
            reason: self.blocker_id.reason,
            moment,
        }
    }

    /// The event of another kind for the same blocker.
    pub fn with_type(&self, event_type: ExchangeBlockerEventType) -> (r: ExchangeBlockerInternalEvent)
        ensures
            r == self.spec_with_type(event_type),
    {
        ExchangeBlockerInternalEvent { blocker_id: self.blocker_id.clone(), event_type }
    }

    /// What the handlers are told of the blocker at a moment.
    pub fn pub_event(&self, moment: ExchangeBlockerMoment) -> (r: ExchangeBlockerEvent)
        ensures
            r == self.spec_pub_event(moment),
    {
        ExchangeBlockerEvent {
            exchange_account_id: self.blocker_id.exchange_account_id.clone(),
            reason: self.blocker_id.reason,
            moment,
        }
    }
}

/// A timer to start: it is to fire for the blocker at `end_time`.
#[derive(Debug)]
pub struct TimerRequest {
    pub blocker_id: BlockerId,
    pub end_time: u64,
    pub timer_id: u64,
}

/// What a call to block asks of the caller.
#[derive(Debug)]
pub struct BlockOutcome {
    /// The timer to abort.
    pub abort_timer: Option<u64>,
    /// The timer to start.
    pub start_timer: Option<TimerRequest>,
    /// The event to put on the queue.
    pub event: Option<ExchangeBlockerInternalEvent>,
}

/// What an event from the queue asks of the caller.
#[derive(Debug)]
pub enum Step {
    /// Nothing: the event does not fit the state of its blocker.
    NothingToDo,
    /// Run the handlers with the event, then report that they have finished.
    RunHandlers(ExchangeBlockerEvent),
    /// Put the event on the queue.
    Enqueue(ExchangeBlockerInternalEvent),
    /// The blocker is gone: wake those who wait for it, then run the
    /// handlers with the event.
    Unblocked(ExchangeBlockerEvent),
}

/// The blockers by account and reason.
pub type Blockers = Seq<(BlockerId, Blocker)>;

/// The state of the exchange blocker as contracts see it.
pub struct BlockerView {
    pub exchange_account_ids: Seq<ExchangeAccountId>,
    pub blockers: Blockers,
    /// The number of the timer started last.
    pub last_timer_id: u64,
}

/// The moment at which a timer set at `now` for `duration` fires: their sum,
/// or the largest moment where the sum is beyond it.
pub open spec fn spec_end_time(now: u64, duration: u64) -> u64 {
    if now + duration > u64::MAX {
        u64::MAX
    } else {
        (now + duration) as u64
    }
}

/// The number after `timer_id`, starting again at 0 after the largest.
pub open spec fn spec_next_timer_id(timer_id: u64) -> u64 {
    if timer_id == u64::MAX {
        0
    } else {
        (timer_id + 1) as u64
    }
}

/// Whether a blocker of the account is among the blockers.
pub open spec fn spec_any_blocker(blockers: Blockers, exchange: (Seq<char>, u8)) -> bool {
    exists|i: int| 0 <= i < blockers.len() && (#[trigger] blockers[i]).0.exchange_account_id@ == exchange
}

/// Whether a blocker of the account for another reason is among the
/// blockers.
pub open spec fn spec_any_other_blocker(blockers: Blockers, exchange: (Seq<char>, u8), reason: Seq<char>) -> bool {
    exists|i: int|
        0 <= i < blockers.len() && (#[trigger] blockers[i]).0.exchange_account_id@ == exchange
            && blockers[i].0.reason@ != reason
}

/// The reasons of the blockers of an account, in the order of the blockers.
pub open spec fn spec_reasons(blockers: Blockers, exchange: (Seq<char>, u8)) -> Seq<BlockReason>
    decreases blockers.len(),
{
    if blockers.len() == 0 {
        Seq::empty()
    } else {
        let reasons = spec_reasons(blockers.drop_last(), exchange);
        if blockers.last().0.exchange_account_id@ == exchange {
            reasons.push(blockers.last().0.reason)
        } else {
            reasons
        }
    }
}

/// A blocker whose timeout was renewed, with the timer to abort and the
/// timer to start.
#[derive(Debug)]
pub struct TimeoutReset {
    pub blocker: Blocker,
    pub abort_timer: Option<u64>,
    pub start_timer: Option<TimerRequest>,
}

/// The timeout of a timed block made at `now`, with the timer to start for
/// it.
pub open spec fn spec_timeout_init(blocker_id: BlockerId, duration: u64, now: u64, timer_id: u64) -> (
    Timeout,
    TimerRequest,
) {
    (
        Timeout::InProgress { end_time: spec_end_time(now, duration), timer_id },
        TimerRequest { blocker_id, end_time: spec_end_time(now, duration), timer_id },
    )
}

/// The blocker of a new block, with the timer to start where the block is
/// timed.
pub open spec fn spec_create_blocker(block_type: BlockType, blocker_id: BlockerId, now: u64, timer_id: u64) -> (
    Blocker,
    Option<TimerRequest>,
) {
    match block_type {
        BlockType::Manual => (Blocker::spec_new(Timeout::ReadyUnblock), None),
        BlockType::Timed(duration) => {
            let (timeout, timer) = spec_timeout_init(blocker_id, duration, now, timer_id);
            (Blocker::spec_new(timeout), Some(timer))
        },
    }
}

/// What a block of a reason that is blocked already does to its blocker;
/// `None` where it does nothing.
///
/// A timed block does nothing where a timer runs that ends no earlier than
/// the new time; else the timer that runs is aborted, the progress is rolled
/// back and a new timer is started. A manual block rolls the progress back
/// where no timer runs, and does nothing where one does.
pub open spec fn spec_timeout_reset_if_exists(
    blocker: Blocker,
    blocker_id: BlockerId,
    block_type: BlockType,
    now: u64,
    timer_id: u64,
) -> Option<TimeoutReset> {
    match block_type {
        BlockType::Timed(duration) => {
            let (timeout, timer) = spec_timeout_init(blocker_id, duration, now, timer_id);
            match blocker.timeout {
                Timeout::InProgress { end_time, timer_id: running } => if end_time >= timer.end_time {
                    None
                } else {
                    Some(
                        TimeoutReset {
                            blocker: Blocker { timeout, ..blocker.spec_rolled_back() },
                            abort_timer: Some(running),
                            start_timer: Some(timer),
                        },
                    )
                },
                Timeout::ReadyUnblock => Some(
                    TimeoutReset {
                        blocker: Blocker { timeout, ..blocker.spec_rolled_back() },
                        abort_timer: None,
                        start_timer: Some(timer),
                    },
                ),
            }
        },
        BlockType::Manual => match blocker.timeout {
            Timeout::ReadyUnblock => Some(
                TimeoutReset { blocker: blocker.spec_rolled_back(), abort_timer: None, start_timer: None },
            ),
            Timeout::InProgress { .. } => None,
        },
    }
}

impl Timeout {
    /// The timeout of a blocker for which the timer `timer_id` runs until
    /// `end_time`.
    pub fn in_progress(end_time: u64, timer_id: u64) -> (r: Timeout)
        ensures
            r == (Timeout::InProgress { end_time, timer_id }),
    {
        Timeout::InProgress { end_time, timer_id }
    }
}

impl Blocker {
    /// The blocker after the block was renewed: no unblock asked for, and
    /// the status rolled back.
    pub fn rollback_to_blocked_progress(&self) -> (r: Blocker)
        ensures
            r == self.spec_rolled_back(),
    {
        Blocker {
            timeout: self.timeout,
            progress_state: ProgressState {
                is_unblock_requested: false,
                status: self.progress_state.status.rolled_back(),
            },
        }
    }
}

/// The timeout of a timed block made at `now`, with the timer to start for
/// it.
pub fn timeout_init(blocker_id: &BlockerId, duration: u64, now: u64, timer_id: u64) -> (r: (Timeout, TimerRequest))
    ensures
        r == spec_timeout_init(*blocker_id, duration, now, timer_id),
{
    let expected_end_time = end_time(now, duration);
    (
        Timeout::in_progress(expected_end_time, timer_id),
        TimerRequest { blocker_id: blocker_id.clone(), end_time: expected_end_time, timer_id },
    )
}

/// The blocker of a new block, with the timer to start where the block is
/// timed.
pub fn create_blocker(block_type: BlockType, blocker_id: &BlockerId, now: u64, timer_id: u64) -> (r: (
    Blocker,
    Option<TimerRequest>,
))
    ensures
        r == spec_create_blocker(block_type, *blocker_id, now, timer_id),
{
    match block_type {
        BlockType::Manual => (Blocker::new(Timeout::ReadyUnblock), None),
        BlockType::Timed(duration) => {
            let (timeout, timer) = timeout_init(blocker_id, duration, now, timer_id);
            (Blocker::new(timeout), Some(timer))
        },
    }
}

/// What a block of a reason that is blocked already does to its blocker;
/// `None` where it does nothing.
pub fn timeout_reset_if_exists(blocker: &Blocker, blocker_id: &BlockerId, block_type: BlockType, now: u64, timer_id: u64) -> (r:
    Option<TimeoutReset>)
    ensures
        r == spec_timeout_reset_if_exists(*blocker, *blocker_id, block_type, now, timer_id),
{
    match block_type {
        BlockType::Timed(duration) => {
            let (timeout, timer) = timeout_init(blocker_id, duration, now, timer_id);
            let abort_timer = match blocker.timeout {
                Timeout::InProgress { end_time, timer_id: running } => {
                    if end_time >= timer.end_time {
                        return None;
                    }
                    Some(running)
                },
                Timeout::ReadyUnblock => None,
            };
            let rolled_back = blocker.rollback_to_blocked_progress();
            Some(
                TimeoutReset {
                    blocker: Blocker { timeout, progress_state: rolled_back.progress_state },
                    abort_timer,
                    start_timer: Some(timer),
                },
            )
        },
        BlockType::Manual => match blocker.timeout {
            Timeout::ReadyUnblock => Some(
                TimeoutReset {
                    blocker: blocker.rollback_to_blocked_progress(),
                    abort_timer: None,
                    start_timer: None,
                },
            ),
            Timeout::InProgress { .. } => None,
        },
    }
}

impl BlockerView {
    /// Whether the account is one of those that the blocker was made for.
    pub open spec fn spec_knows(self, exchange: (Seq<char>, u8)) -> bool {
        exists|i: int| 0 <= i < self.exchange_account_ids.len() && (#[trigger] self.exchange_account_ids[i])@ == exchange
    }

    /// Blocks an account for a reason.
    ///
    /// A new reason gets a blocker, with a timer where the block is timed,
    /// and the event that moves it to blocked. A reason that is blocked
    /// already has its timeout renewed, where the renewal changes anything.
    /// The timer to start, if any, gets the number after the last one.
    pub open spec fn spec_block(self, blocker_id: BlockerId, block_type: BlockType, now: u64) -> (
        BlockerView,
        BlockOutcome,
    ) {
        let timer_id = spec_next_timer_id(self.last_timer_id);
        match lookup(self.blockers, blocker_id.id()) {
            None => {
                let (blocker, start_timer) = spec_create_blocker(block_type, blocker_id, now, timer_id);
                (
                    BlockerView {
                        blockers: self.blockers.push((blocker_id, blocker)),
                        last_timer_id: if start_timer is Some {
                            timer_id
                        } else {
                            self.last_timer_id
                        },
                        ..self
                    },
                    BlockOutcome {
                        abort_timer: None,
                        start_timer,
                        event: Some(
                            ExchangeBlockerInternalEvent {
                                blocker_id,
                                event_type: ExchangeBlockerEventType::MoveToBlocked,
                            },
                        ),
                    },
                )
            },
            Some(blocker) => match spec_timeout_reset_if_exists(blocker, blocker_id, block_type, now, timer_id) {
                None => (self, BlockOutcome { abort_timer: None, start_timer: None, event: None }),
                Some(reset) => (
                    BlockerView {
                        blockers: spec_insert(self.blockers, blocker_id, reset.blocker),
                        last_timer_id: if reset.start_timer is Some {
                            timer_id
                        } else {
                            self.last_timer_id
                        },
                        ..self
                    },
                    BlockOutcome { abort_timer: reset.abort_timer, start_timer: reset.start_timer, event: None },
                ),
            },
        }
    }

    /// Asks for a blocker to be unblocked: the request is noted, and the
    /// event that tells the processor of it is handed out. Nothing happens
    /// where the account is not blocked for the reason.
    pub open spec fn spec_unblock(self, blocker_id: BlockerId) -> (BlockerView, Option<ExchangeBlockerInternalEvent>) {
        match lookup(self.blockers, blocker_id.id()) {
            None => (self, None),
            Some(blocker) => (
                BlockerView {
                    blockers: spec_insert(
                        self.blockers,
                        blocker_id,
                        Blocker {
                            progress_state: ProgressState { is_unblock_requested: true, ..blocker.progress_state },
                            ..blocker
                        },
                    ),
                    ..self
                },
                Some(ExchangeBlockerInternalEvent { blocker_id, event_type: ExchangeBlockerEventType::UnblockRequested }),
            ),
        }
    }

    /// A timer has fired: where it is the timer that runs for the blocker,
    /// no timer runs any more and the blocker is asked to unblock. A timer
    /// that was replaced, or whose blocker is gone, does nothing.
    pub open spec fn spec_timer_fired(self, blocker_id: BlockerId, timer_id: u64) -> (
        BlockerView,
        Option<ExchangeBlockerInternalEvent>,
    ) {
        match lookup(self.blockers, blocker_id.id()) {
            None => (self, None),
            Some(blocker) => match blocker.timeout {
                Timeout::InProgress { timer_id: running, .. } => if running == timer_id {
                    BlockerView {
                        blockers: spec_insert(
                            self.blockers,
                            blocker_id,
                            Blocker { timeout: Timeout::ReadyUnblock, ..blocker },
                        ),
                        ..self
                    }.spec_unblock(blocker_id)
                } else {
                    (self, None)
                },
                Timeout::ReadyUnblock => (self, None),
            },
        }
    }

    /// The processor's step for an event from the queue.
    ///
    /// | status | event | answer | next status |
    /// |---|---|---|---|
    /// | wait to be blocked | move to blocked | run the handlers of blocked | unchanged |
    /// | blocked | unblock requested | queue the move to before-unblocked | wait for that move |
    /// | wait for that move | move to before-unblocked | run the handlers of before-unblocked | unchanged |
    /// | wait to be unblocked | move to unblocked | wake the waiters, run the handlers of unblocked | blocker removed |
    ///
    /// Every other event, and every event for a blocker that is gone, does
    /// nothing.
    pub open spec fn spec_move_next(self, event: ExchangeBlockerInternalEvent) -> (BlockerView, Step) {
        match lookup(self.blockers, event.blocker_id.id()) {
            None => (self, Step::NothingToDo),
            Some(blocker) => match (blocker.progress_state.status, event.event_type) {
                (ProgressStatus::WaitBlockedMove, ExchangeBlockerEventType::MoveToBlocked) => (
                    self,
                    Step::RunHandlers(event.spec_pub_event(ExchangeBlockerMoment::Blocked)),
                ),
                (ProgressStatus::ProgressBlocked, ExchangeBlockerEventType::UnblockRequested) => (
                    self.spec_with_status(event.blocker_id, blocker, ProgressStatus::WaitBeforeUnblockedMove),
                    Step::Enqueue(event.spec_with_type(ExchangeBlockerEventType::MoveBlockedToBeforeUnblocked)),
                ),
                (
                    ProgressStatus::WaitBeforeUnblockedMove,
                    ExchangeBlockerEventType::MoveBlockedToBeforeUnblocked,
                ) => (self, Step::RunHandlers(event.spec_pub_event(ExchangeBlockerMoment::BeforeUnblocked))),
                (ProgressStatus::WaitUnblockedMove, ExchangeBlockerEventType::MoveBeforeUnblockedToUnblocked) => (
                    BlockerView { blockers: spec_remove(self.blockers, event.blocker_id.id()), ..self },
                    Step::Unblocked(event.spec_pub_event(ExchangeBlockerMoment::Unblocked)),
                ),
                _ => (self, Step::NothingToDo),
            },
        }
    }

    /// The state with another status for a blocker.
    pub open spec fn spec_with_status(self, blocker_id: BlockerId, blocker: Blocker, status: ProgressStatus) -> BlockerView {
        BlockerView {
            blockers: spec_insert(
                self.blockers,
                blocker_id,
                Blocker { progress_state: ProgressState { status, ..blocker.progress_state }, ..blocker },
            ),
            ..self
        }
    }

    /// The handlers of a moment have finished.
    ///
    /// After blocked the blocker is blocked, or, where an unblock was asked
    /// for meanwhile, waits for the move to before-unblocked, which is
    /// queued. After before-unblocked it waits to be unblocked, and that
    /// move is queued. After unblocked, and for a blocker that is gone,
    /// nothing happens.
    pub open spec fn spec_handlers_finished(self, event: ExchangeBlockerInternalEvent, moment: ExchangeBlockerMoment) -> (
        BlockerView,
        Option<ExchangeBlockerInternalEvent>,
    ) {
        match lookup(self.blockers, event.blocker_id.id()) {
            None => (self, None),
            Some(blocker) => match moment {
                ExchangeBlockerMoment::Blocked => if blocker.progress_state.is_unblock_requested {
                    (
                        self.spec_with_status(event.blocker_id, blocker, ProgressStatus::WaitBeforeUnblockedMove),
                        Some(event.spec_with_type(ExchangeBlockerEventType::MoveBlockedToBeforeUnblocked)),
                    )
                } else {
                    (self.spec_with_status(event.blocker_id, blocker, ProgressStatus::ProgressBlocked), None)
                },
                ExchangeBlockerMoment::BeforeUnblocked => (
                    self.spec_with_status(event.blocker_id, blocker, ProgressStatus::WaitUnblockedMove),
                    Some(event.spec_with_type(ExchangeBlockerEventType::MoveBeforeUnblockedToUnblocked)),
                ),
                ExchangeBlockerMoment::Unblocked => (self, None),
            },
        }
    }
}

/// The exchange blocker.
#[derive(Debug)]
pub struct ExchangeBlocker {
    pub exchange_account_ids: Vec<ExchangeAccountId>,
    pub blockers: VecMap<BlockerId, Blocker>,
    pub last_timer_id: u64,
}

impl View for ExchangeBlocker {
    type V = BlockerView;

    open spec fn view(&self) -> BlockerView {
        BlockerView {
            exchange_account_ids: self.exchange_account_ids@,
            blockers: self.blockers.entries@,
            last_timer_id: self.last_timer_id,
        }
    }
}

/// The moment at which a timer set at `now` for `duration` fires.
pub fn end_time(now: u64, duration: u64) -> (r: u64)
    ensures
        r == spec_end_time(now, duration),
{
    if duration > u64::MAX - now {
        u64::MAX
    } else {
        now + duration
    }
}

impl ExchangeBlocker {
    /// A blocker for the given accounts, none of them blocked.
    pub fn new(exchange_account_ids: Vec<ExchangeAccountId>) -> (r: Self)
        ensures
            r@ == (BlockerView { exchange_account_ids: exchange_account_ids@, blockers: Seq::empty(), last_timer_id: 0 }),
    {
        ExchangeBlocker { exchange_account_ids, blockers: VecMap::new(), last_timer_id: 0 }
    }

    /// Whether the account is one of those that the blocker was made for.
    pub fn knows(&self, exchange_account_id: &ExchangeAccountId) -> (r: bool)
        ensures
            r == self@.spec_knows(exchange_account_id@),
    {
        let mut i: usize = 0;
        while i < self.exchange_account_ids.len()
            invariant
                i <= self.exchange_account_ids@.len(),
                forall|j: int| 0 <= j < i ==> (#[trigger] self.exchange_account_ids@[j])@ != exchange_account_id@,
            decreases self.exchange_account_ids@.len() - i,
        {
            if self.exchange_account_ids[i].same(exchange_account_id) {
                assert(self@.exchange_account_ids[i as int]@ == exchange_account_id@);
                return true;
            }
            i = i + 1;
        }
        false
    }

    /// Whether the account is blocked for any reason.
    pub fn is_blocked(&self, exchange_account_id: &ExchangeAccountId) -> (r: bool)
        ensures
            r == spec_any_blocker(self@.blockers, exchange_account_id@),
    {
        let mut i: usize = 0;
        while i < self.blockers.entries.len()
            invariant
                i <= self.blockers.entries@.len(),
                forall|j: int|
                    0 <= j < i ==> (#[trigger] self.blockers.entries@[j]).0.exchange_account_id@
                        != exchange_account_id@,
            decreases self.blockers.entries@.len() - i,
        {
            if self.blockers.entries[i].0.exchange_account_id.same(exchange_account_id) {
                return true;
            }
            i = i + 1;
        }
        false
    }

    /// Whether the account is blocked for the reason.
    pub fn is_blocked_by_reason(&self, exchange_account_id: &ExchangeAccountId, reason: BlockReason) -> (r: bool)
        ensures
            r == present(self@.blockers, (exchange_account_id@, reason@)),
    {
        let blocker_id = BlockerId::new(exchange_account_id.clone(), reason);
        self.blockers.contains_key(&blocker_id)
    }

    /// Whether the account is blocked for a reason other than the given one.
    pub fn is_blocked_except_reason(&self, exchange_account_id: &ExchangeAccountId, reason: BlockReason) -> (r: bool)
        ensures
            r == spec_any_other_blocker(self@.blockers, exchange_account_id@, reason@),
    {
        let mut i: usize = 0;
        while i < self.blockers.entries.len()
            invariant
                i <= self.blockers.entries@.len(),
                forall|j: int|
                    0 <= j < i ==> !((#[trigger] self.blockers.entries@[j]).0.exchange_account_id@
                        == exchange_account_id@ && self.blockers.entries@[j].0.reason@ != reason@),
            decreases self.blockers.entries@.len() - i,
        {
            if self.blockers.entries[i].0.exchange_account_id.same(exchange_account_id)
                && !self.blockers.entries[i].0.reason.same(&reason) {
                return true;
            }
            i = i + 1;
        }
        false
    }

    /// The reasons for which the account is blocked, in the order in which
    /// the blocks were made.
    pub fn blocked_reasons(&self, exchange_account_id: &ExchangeAccountId) -> (r: Vec<BlockReason>)
        ensures
            r@ == spec_reasons(self@.blockers, exchange_account_id@),
    {
        let mut reasons: Vec<BlockReason> = Vec::new();
        let mut i: usize = 0;
        while i < self.blockers.entries.len()
            invariant
                i <= self.blockers.entries@.len(),
                reasons@ == spec_reasons(self.blockers.entries@.take(i as int), exchange_account_id@),
            decreases self.blockers.entries@.len() - i,
        {
            proof {
                let next = self.blockers.entries@.take(i + 1);
                assert(next.drop_last() == self.blockers.entries@.take(i as int));
                assert(next.last() == self.blockers.entries@[i as int]);
            }
            if self.blockers.entries[i].0.exchange_account_id.same(exchange_account_id) {
                reasons.push(self.blockers.entries[i].0.reason);
            }
            i = i + 1;
        }
        proof {
            assert(self.blockers.entries@.take(i as int) == self.blockers.entries@);
        }
        reasons
    }

    /// Blocks an account for a reason at the moment `now`, in milliseconds
    /// of the caller's clock. The account need not be one of those that the
    /// blocker was made for.
    pub fn block(&mut self, exchange_account_id: &ExchangeAccountId, reason: BlockReason, block_type: BlockType, now: u64) -> (r:
        BlockOutcome)
        ensures
            (final(self)@, r) == old(self)@.spec_block(
                BlockerId { exchange_account_id: *exchange_account_id, reason },
                block_type,
                now,
            ),
    {
        let blocker_id = BlockerId::new(exchange_account_id.clone(), reason);
        let timer_id: u64 = if self.last_timer_id == u64::MAX {
            0
        } else {
            self.last_timer_id + 1
        };
        let i = self.blockers.position(&blocker_id);
        proof {
            lemma_first_index(self.blockers.entries@, blocker_id.id());
        }
        if i >= self.blockers.entries.len() {
            let (blocker, start_timer) = create_blocker(block_type, &blocker_id, now, timer_id);
            let event = ExchangeBlockerInternalEvent {
                blocker_id: blocker_id.clone(),
                event_type: ExchangeBlockerEventType::MoveToBlocked,
            };
            self.blockers.entries.push((blocker_id, blocker));
            if start_timer.is_some() {
                self.last_timer_id = timer_id;
            }
            BlockOutcome { abort_timer: None, start_timer, event: Some(event) }
        } else {
            let blocker = self.blockers.entries[i].1;
            match timeout_reset_if_exists(&blocker, &blocker_id, block_type, now, timer_id) {
                None => BlockOutcome { abort_timer: None, start_timer: None, event: None },
                Some(reset) => {
                    self.blockers.entries[i].1 = reset.blocker;
                    if reset.start_timer.is_some() {
                        self.last_timer_id = timer_id;
                    }
                    BlockOutcome { abort_timer: reset.abort_timer, start_timer: reset.start_timer, event: None }
                },
            }
        }
    }

    /// Asks for the account to be unblocked for the reason. Returns the
    /// event to put on the queue, if the account is blocked for the reason.
    pub fn unblock(&mut self, exchange_account_id: &ExchangeAccountId, reason: BlockReason) -> (r: Option<
        ExchangeBlockerInternalEvent,
    >)
        ensures
            (final(self)@, r) == old(self)@.spec_unblock(BlockerId { exchange_account_id: *exchange_account_id, reason }),
            !present(old(self)@.blockers, (exchange_account_id@, reason@)) ==> final(self)@ == old(self)@ && r is None,
    {
        let blocker_id = BlockerId::new(exchange_account_id.clone(), reason);
        let i = self.blockers.position(&blocker_id);
        proof {
            lemma_first_index(self.blockers.entries@, blocker_id.id());
        }
        if i >= self.blockers.entries.len() {
            return None;
        }
        self.blockers.entries[i].1.progress_state.is_unblock_requested = true;
        Some(ExchangeBlockerInternalEvent { blocker_id, event_type: ExchangeBlockerEventType::UnblockRequested })
    }

    /// A timer has fired for a blocker. Returns the event to put on the
    /// queue, if the timer is the one that runs for the blocker.
    pub fn timer_fired(&mut self, blocker_id: &BlockerId, timer_id: u64) -> (r: Option<ExchangeBlockerInternalEvent>)
        ensures
            (final(self)@, r) == old(self)@.spec_timer_fired(*blocker_id, timer_id),
    {
        let i = self.blockers.position(blocker_id);
        proof {
            lemma_first_index(self.blockers.entries@, blocker_id.id());
        }
        if i >= self.blockers.entries.len() {
            return None;
        }
        match self.blockers.entries[i].1.timeout {
            Timeout::InProgress { end_time, timer_id: running } => {
                if running != timer_id {
                    return None;
                }
                self.blockers.entries[i].1.timeout = Timeout::ReadyUnblock;
                proof {
                    lemma_first_index(self.blockers.entries@, blocker_id.id());
                    crate::vec_map::lemma_first_index_same_keys(
                        old(self).blockers.entries@,
                        self.blockers.entries@,
                        blocker_id.id(),
                    );
                }
                self.unblock(&blocker_id.exchange_account_id, blocker_id.reason)
            },
            Timeout::ReadyUnblock => None,
        }
    }

    /// Takes the blocker out. Returns whether there was one.
    pub fn remove_blocker(&mut self, blocker_id: &BlockerId) -> (r: bool)
        ensures
            r == present(old(self)@.blockers, blocker_id.id()),
            final(self)@ == (BlockerView { blockers: spec_remove(old(self)@.blockers, blocker_id.id()), ..old(self)@ }),
    {
        self.blockers.remove(blocker_id).is_some()
    }

    /// The processor's step for an event from the queue.
    pub fn move_next_blocker_state_if_can(&mut self, event: &ExchangeBlockerInternalEvent) -> (r: Step)
        ensures
            (final(self)@, r) == old(self)@.spec_move_next(*event),
    {
        let i = self.blockers.position(&event.blocker_id);
        proof {
            lemma_first_index(self.blockers.entries@, event.blocker_id.id());
        }
        if i >= self.blockers.entries.len() {
            return Step::NothingToDo;
        }
        let status = self.blockers.entries[i].1.progress_state.status;
        match (status, event.event_type) {
            (ProgressStatus::WaitBlockedMove, ExchangeBlockerEventType::MoveToBlocked) => Step::RunHandlers(
                event.pub_event(ExchangeBlockerMoment::Blocked),
            ),
            (ProgressStatus::ProgressBlocked, ExchangeBlockerEventType::UnblockRequested) => {
                self.blockers.entries[i].1.progress_state.status = ProgressStatus::WaitBeforeUnblockedMove;
                Step::Enqueue(event.with_type(ExchangeBlockerEventType::MoveBlockedToBeforeUnblocked))
            },
            (
                ProgressStatus::WaitBeforeUnblockedMove,
                ExchangeBlockerEventType::MoveBlockedToBeforeUnblocked,
            ) => Step::RunHandlers(event.pub_event(ExchangeBlockerMoment::BeforeUnblocked)),
            (ProgressStatus::WaitUnblockedMove, ExchangeBlockerEventType::MoveBeforeUnblockedToUnblocked) => {
                let _ = self.remove_blocker(&event.blocker_id);
                Step::Unblocked(event.pub_event(ExchangeBlockerMoment::Unblocked))
            },
            _ => Step::NothingToDo,
        }
    }

    /// The handlers of a moment have finished for the blocker of an event.
    /// Returns the event to put on the queue, if there is one.
    pub fn handlers_finished(&mut self, event: &ExchangeBlockerInternalEvent, moment: ExchangeBlockerMoment) -> (r:
        Option<ExchangeBlockerInternalEvent>)
        ensures
            (final(self)@, r) == old(self)@.spec_handlers_finished(*event, moment),
    {
        let i = self.blockers.position(&event.blocker_id);
        proof {
            lemma_first_index(self.blockers.entries@, event.blocker_id.id());
        }
        if i >= self.blockers.entries.len() {
            return None;
        }
        match moment {
            ExchangeBlockerMoment::Blocked => {
                if self.blockers.entries[i].1.progress_state.is_unblock_requested {
                    self.blockers.entries[i].1.progress_state.status = ProgressStatus::WaitBeforeUnblockedMove;
                    Some(event.with_type(ExchangeBlockerEventType::MoveBlockedToBeforeUnblocked))
                } else {
                    self.blockers.entries[i].1.progress_state.status = ProgressStatus::ProgressBlocked;
                    None
                }
            },
            ExchangeBlockerMoment::BeforeUnblocked => {
                self.blockers.entries[i].1.progress_state.status = ProgressStatus::WaitUnblockedMove;
                Some(event.with_type(ExchangeBlockerEventType::MoveBeforeUnblockedToUnblocked))
            },
            ExchangeBlockerMoment::Unblocked => None,
        }
    }
}

} // verus!
