//! What holds of the exchange blocker whatever the order of events.
//!
//! The laws run the blocker with a processor that takes the events from the
//! queue one by one. They state which moments the handlers are run for: a
//! handler is run once for each moment that the processor hands out. The
//! first laws let the handlers of a moment finish before the next event is
//! taken; the last ones are about a request to unblock, or a timer, that
//! arrives while handlers run, and is taken before they have finished or
//! after.

use crate::exchange_blocker::{spec_end_time, spec_next_timer_id, BlockType, Blocker, BlockerId, BlockerView, Blockers, ExchangeBlockerEvent, ExchangeBlockerEventType, ExchangeBlockerInternalEvent, ExchangeBlockerMoment, ProgressState, ProgressStatus, Step, Timeout};
use crate::vec_map::{lemma_insert_pushed, lemma_remove_pushed, lookup, present, Key};
use vstd::prelude::*;

verus! {

impl BlockerView {
    /// The processor: takes up to `steps` events from the front of the queue,
    /// one by one. Where an event asks for handlers to be run, they are run
    /// and have finished before the next event is taken, and what they leave
    /// to be queued goes to the end of the queue. The result is the state in
    /// which the processor stops, and what the handlers were told, in order.
    pub open spec fn spec_process(self, queue: Seq<ExchangeBlockerInternalEvent>, steps: nat) -> (
        BlockerView,
        Seq<ExchangeBlockerEvent>,
    )
        decreases steps,
    {
        if steps == 0 || queue.len() == 0 {
            (self, Seq::empty())
        } else {
            let event = queue.first();
            let rest = queue.drop_first();
            let (next, step) = self.spec_move_next(event);
            match step {
                Step::NothingToDo => next.spec_process(rest, (steps - 1) as nat),
                Step::Enqueue(queued) => next.spec_process(rest.push(queued), (steps - 1) as nat),
                Step::RunHandlers(told) => {
                    let (after, queued) = next.spec_handlers_finished(event, told.moment);
                    let (last, more) = after.spec_process(
                        match queued {
                            Some(queued) => rest.push(queued),
                            None => rest,
                        },
                        (steps - 1) as nat,
                    );
                    (last, seq![told] + more)
                },
                Step::Unblocked(told) => {
                    let (last, more) = next.spec_process(rest, (steps - 1) as nat);
                    (last, seq![told] + more)
                },
            }
        }
    }
}

/// What the handlers are told of a blocker at a moment.
pub open spec fn told(blocker_id: BlockerId, moment: ExchangeBlockerMoment) -> ExchangeBlockerEvent {
    ExchangeBlockerEvent { exchange_account_id: blocker_id.exchange_account_id, reason: blocker_id.reason, moment }
}

/// An event of a kind for a blocker.
pub open spec fn event_of(blocker_id: BlockerId, event_type: ExchangeBlockerEventType) -> ExchangeBlockerInternalEvent {
    ExchangeBlockerInternalEvent { blocker_id, event_type }
}

/// From a blocker that waits for the move to before-unblocked, with that
/// move first in the queue and nothing behind it that concerns the blocker
/// but a request to unblock, the processor runs the handlers of
/// before-unblocked and of unblocked, once each, and the blocker is gone.
proof fn lemma_unblocking_runs(
    state: BlockerView,
    before: Blockers,
    blocker_id: BlockerId,
    blocker: Blocker,
    stale: bool,
    steps: nat,
)
    requires
        !present(before, blocker_id.id()),
        state.blockers == before.push((blocker_id, blocker)),
        blocker.progress_state.status == ProgressStatus::WaitBeforeUnblockedMove,
        steps >= 3,
    ensures
        ({
            let first = event_of(blocker_id, ExchangeBlockerEventType::MoveBlockedToBeforeUnblocked);
            let queue = if stale {
                seq![event_of(blocker_id, ExchangeBlockerEventType::UnblockRequested), first]
            } else {
                seq![first]
            };
            state.spec_process(queue, steps) == (
                BlockerView { blockers: before, ..state },
                seq![
                    told(blocker_id, ExchangeBlockerMoment::BeforeUnblocked),
                    told(blocker_id, ExchangeBlockerMoment::Unblocked),
                ],
            )
        }),
{
    reveal_with_fuel(BlockerView::spec_process, 5);
    let first = event_of(blocker_id, ExchangeBlockerEventType::MoveBlockedToBeforeUnblocked);
    let second = event_of(blocker_id, ExchangeBlockerEventType::MoveBeforeUnblockedToUnblocked);
    let unblock = event_of(blocker_id, ExchangeBlockerEventType::UnblockRequested);
    lemma_insert_pushed(before, blocker_id, blocker, blocker);
    let waiting = Blocker {
        progress_state: ProgressState { status: ProgressStatus::WaitUnblockedMove, ..blocker.progress_state },
        ..blocker
    };
    lemma_insert_pushed(before, blocker_id, blocker, waiting);
    lemma_insert_pushed(before, blocker_id, waiting, waiting);
    lemma_remove_pushed(before, blocker_id, waiting);
    let after = BlockerView { blockers: before.push((blocker_id, waiting)), ..state };
    let gone = BlockerView { blockers: before, ..state };
    assert(state.spec_move_next(first) == (state, Step::RunHandlers(told(blocker_id, ExchangeBlockerMoment::BeforeUnblocked))));
    assert(state.spec_handlers_finished(first, ExchangeBlockerMoment::BeforeUnblocked) == (after, Some(second)));
    assert(after.spec_move_next(second) == (gone, Step::Unblocked(told(blocker_id, ExchangeBlockerMoment::Unblocked))));
    assert(state.spec_move_next(unblock) == (state, Step::NothingToDo));
    let tail = seq![second];
    assert(tail.first() == second);
    assert(tail.drop_first() =~= Seq::<ExchangeBlockerInternalEvent>::empty());
    assert(Seq::<ExchangeBlockerInternalEvent>::empty().push(second) =~= tail);
    assert(seq![first].first() == first);
    assert(seq![first].drop_first() =~= Seq::<ExchangeBlockerInternalEvent>::empty());
    assert(seq![unblock, first].first() == unblock);
    assert(seq![unblock, first].drop_first() =~= seq![first]);
    let ends = gone.spec_process(Seq::empty(), (steps - 2) as nat);
    assert(ends == (gone, Seq::<ExchangeBlockerEvent>::empty()));
    let last = after.spec_process(tail, (steps - 1) as nat);
    assert(seq![told(blocker_id, ExchangeBlockerMoment::Unblocked)] + Seq::<ExchangeBlockerEvent>::empty() =~= seq![
        told(blocker_id, ExchangeBlockerMoment::Unblocked),
    ]);
    assert(seq![told(blocker_id, ExchangeBlockerMoment::BeforeUnblocked)] + seq![
        told(blocker_id, ExchangeBlockerMoment::Unblocked),
    ] =~= seq![
        told(blocker_id, ExchangeBlockerMoment::BeforeUnblocked),
        told(blocker_id, ExchangeBlockerMoment::Unblocked),
    ]);
}

/// From a blocker that is blocked, with a request to unblock first in the
/// queue, the processor runs the handlers of before-unblocked and of
/// unblocked, once each, and the blocker is gone.
proof fn lemma_unblock_request_runs(
    state: BlockerView,
    before: Blockers,
    blocker_id: BlockerId,
    blocker: Blocker,
    steps: nat,
)
    requires
        !present(before, blocker_id.id()),
        state.blockers == before.push((blocker_id, blocker)),
        blocker.progress_state.status == ProgressStatus::ProgressBlocked,
        steps >= 4,
    ensures
        state.spec_process(seq![event_of(blocker_id, ExchangeBlockerEventType::UnblockRequested)], steps) == (
            BlockerView { blockers: before, ..state },
            seq![
                told(blocker_id, ExchangeBlockerMoment::BeforeUnblocked),
                told(blocker_id, ExchangeBlockerMoment::Unblocked),
            ],
        ),
{
    reveal_with_fuel(BlockerView::spec_process, 2);
    let unblock = event_of(blocker_id, ExchangeBlockerEventType::UnblockRequested);
    let first = event_of(blocker_id, ExchangeBlockerEventType::MoveBlockedToBeforeUnblocked);
    let moving = Blocker {
        progress_state: ProgressState { status: ProgressStatus::WaitBeforeUnblockedMove, ..blocker.progress_state },
        ..blocker
    };
    lemma_insert_pushed(before, blocker_id, blocker, moving);
    let next = BlockerView { blockers: before.push((blocker_id, moving)), ..state };
    assert(state.spec_move_next(unblock) == (next, Step::Enqueue(first)));
    assert(seq![unblock].first() == unblock);
    assert(seq![unblock].drop_first().push(first) =~= seq![first]);
    lemma_unblocking_runs(next, before, blocker_id, moving, false, (steps - 1) as nat);
}

/// An account that is blocked for a reason and unblocked at once has the
/// handlers run for each of the three moments, once each and in their
/// order, and is then blocked for that reason no more: the state is what it
/// was before.
pub proof fn law_block_then_unblock_runs_each_moment_once(
    state: BlockerView,
    blocker_id: BlockerId,
    now: u64,
    steps: nat,
)
    requires
        !present(state.blockers, blocker_id.id()),
        steps >= 4,
    ensures
        ({
            let (blocked, outcome) = state.spec_block(blocker_id, BlockType::Manual, now);
            let (asked, request) = blocked.spec_unblock(blocker_id);
            &&& outcome.event == Some(event_of(blocker_id, ExchangeBlockerEventType::MoveToBlocked))
            &&& request == Some(event_of(blocker_id, ExchangeBlockerEventType::UnblockRequested))
            &&& asked.spec_process(seq![outcome.event.unwrap(), request.unwrap()], steps) == (
                state,
                seq![
                    told(blocker_id, ExchangeBlockerMoment::Blocked),
                    told(blocker_id, ExchangeBlockerMoment::BeforeUnblocked),
                    told(blocker_id, ExchangeBlockerMoment::Unblocked),
                ],
            )
        }),
{
    reveal_with_fuel(BlockerView::spec_process, 2);
    let (blocked, outcome) = state.spec_block(blocker_id, BlockType::Manual, now);
    let (asked, request) = blocked.spec_unblock(blocker_id);
    let created = Blocker::spec_new(Timeout::ReadyUnblock);
    let requested = Blocker {
        progress_state: ProgressState { is_unblock_requested: true, ..created.progress_state },
        ..created
    };
    let moving = Blocker {
        progress_state: ProgressState { status: ProgressStatus::WaitBeforeUnblockedMove, ..requested.progress_state },
        ..requested
    };
    lemma_insert_pushed(state.blockers, blocker_id, created, requested);
    lemma_insert_pushed(state.blockers, blocker_id, requested, moving);
    assert(asked.blockers == state.blockers.push((blocker_id, requested)));
    let block = event_of(blocker_id, ExchangeBlockerEventType::MoveToBlocked);
    let unblock = event_of(blocker_id, ExchangeBlockerEventType::UnblockRequested);
    let first = event_of(blocker_id, ExchangeBlockerEventType::MoveBlockedToBeforeUnblocked);
    let next = BlockerView { blockers: state.blockers.push((blocker_id, moving)), ..asked };
    assert(asked.spec_move_next(block) == (asked, Step::RunHandlers(told(blocker_id, ExchangeBlockerMoment::Blocked))));
    assert(asked.spec_handlers_finished(block, ExchangeBlockerMoment::Blocked) == (next, Some(first)));
    assert(seq![block, unblock].first() == block);
    assert(seq![block, unblock].drop_first().push(first) =~= seq![unblock, first]);
    lemma_unblocking_runs(next, state.blockers, blocker_id, moving, true, (steps - 1) as nat);
    assert(BlockerView { blockers: state.blockers, ..next } == state);
    assert(seq![told(blocker_id, ExchangeBlockerMoment::Blocked)] + seq![
        told(blocker_id, ExchangeBlockerMoment::BeforeUnblocked),
        told(blocker_id, ExchangeBlockerMoment::Unblocked),
    ] =~= seq![
        told(blocker_id, ExchangeBlockerMoment::Blocked),
        told(blocker_id, ExchangeBlockerMoment::BeforeUnblocked),
        told(blocker_id, ExchangeBlockerMoment::Unblocked),
    ]);
}

/// An account that is blocked for a reason has the handlers of the blocked
/// moment run once; when it is unblocked later, the handlers of the two
/// other moments are run, once each and in their order, and the account is
/// blocked for that reason no more.
pub proof fn law_block_and_later_unblock_run_each_moment_once(
    state: BlockerView,
    blocker_id: BlockerId,
    block_type: BlockType,
    now: u64,
    steps: nat,
)
    requires
        !present(state.blockers, blocker_id.id()),
        steps >= 4,
    ensures
        ({
            let (blocked, outcome) = state.spec_block(blocker_id, block_type, now);
            let (settled, first) = blocked.spec_process(seq![outcome.event.unwrap()], steps);
            let (asked, request) = settled.spec_unblock(blocker_id);
            &&& outcome.event == Some(event_of(blocker_id, ExchangeBlockerEventType::MoveToBlocked))
            &&& first == seq![told(blocker_id, ExchangeBlockerMoment::Blocked)]
            &&& present(settled.blockers, blocker_id.id())
            &&& request == Some(event_of(blocker_id, ExchangeBlockerEventType::UnblockRequested))
            &&& asked.spec_process(seq![request.unwrap()], steps) == (
                BlockerView { blockers: state.blockers, ..blocked },
                seq![
                    told(blocker_id, ExchangeBlockerMoment::BeforeUnblocked),
                    told(blocker_id, ExchangeBlockerMoment::Unblocked),
                ],
            )
        }),
{
    reveal_with_fuel(BlockerView::spec_process, 3);
    let (blocked, outcome) = state.spec_block(blocker_id, block_type, now);
    let created = blocked.blockers.last().1;
    assert(blocked.blockers == state.blockers.push((blocker_id, created)));
    let block = event_of(blocker_id, ExchangeBlockerEventType::MoveToBlocked);
    let done = Blocker {
        progress_state: ProgressState { status: ProgressStatus::ProgressBlocked, ..created.progress_state },
        ..created
    };
    lemma_insert_pushed(state.blockers, blocker_id, created, done);
    let settled = BlockerView { blockers: state.blockers.push((blocker_id, done)), ..blocked };
    assert(blocked.spec_move_next(block) == (blocked, Step::RunHandlers(told(blocker_id, ExchangeBlockerMoment::Blocked))));
    assert(blocked.spec_handlers_finished(block, ExchangeBlockerMoment::Blocked) == (settled, None::<ExchangeBlockerInternalEvent>));
    assert(seq![block].first() == block);
    assert(seq![block].drop_first() =~= Seq::<ExchangeBlockerInternalEvent>::empty());
    assert(seq![told(blocker_id, ExchangeBlockerMoment::Blocked)] + Seq::<ExchangeBlockerEvent>::empty() =~= seq![
        told(blocker_id, ExchangeBlockerMoment::Blocked),
    ]);
    assert(blocked.spec_process(seq![block], steps) == (settled, seq![told(blocker_id, ExchangeBlockerMoment::Blocked)]));
    let requested = Blocker {
        progress_state: ProgressState { is_unblock_requested: true, ..done.progress_state },
        ..done
    };
    lemma_insert_pushed(state.blockers, blocker_id, done, requested);
    let asked = BlockerView { blockers: state.blockers.push((blocker_id, requested)), ..blocked };
    assert(settled.spec_unblock(blocker_id).0 == asked);
    lemma_unblock_request_runs(asked, state.blockers, blocker_id, requested, steps);
}

/// Unblocking an account for a reason for which it is not blocked does
/// nothing and leaves nothing to be queued.
pub proof fn law_unblock_of_unblocked_does_nothing(state: BlockerView, blocker_id: BlockerId)
    requires
        !present(state.blockers, blocker_id.id()),
    ensures
        state.spec_unblock(blocker_id) == (state, None::<ExchangeBlockerInternalEvent>),
{
}

/// A timed block asks for a timer that fires when the time of the block is
/// up. When that timer fires, the account is asked to unblock, the handlers
/// of the two moments that are left are run, once each, and the account is
/// blocked for that reason no more.
pub proof fn law_timed_block_expires(state: BlockerView, blocker_id: BlockerId, duration: u64, now: u64, steps: nat)
    requires
        !present(state.blockers, blocker_id.id()),
        steps >= 4,
    ensures
        ({
            let (blocked, outcome) = state.spec_block(blocker_id, BlockType::Timed(duration), now);
            let (settled, first) = blocked.spec_process(seq![outcome.event.unwrap()], steps);
            &&& outcome.start_timer matches Some(timer)
            &&& timer.blocker_id == blocker_id
            &&& timer.end_time == spec_end_time(now, duration)
            &&& settled.spec_timer_fired(blocker_id, timer.timer_id).1 == Some(
                event_of(blocker_id, ExchangeBlockerEventType::UnblockRequested),
            )
            &&& settled.spec_timer_fired(blocker_id, timer.timer_id).0.spec_process(
                seq![event_of(blocker_id, ExchangeBlockerEventType::UnblockRequested)],
                steps,
            ) == (
                BlockerView { blockers: state.blockers, ..blocked },
                seq![
                    told(blocker_id, ExchangeBlockerMoment::BeforeUnblocked),
                    told(blocker_id, ExchangeBlockerMoment::Unblocked),
                ],
            )
        }),
{
    reveal_with_fuel(BlockerView::spec_process, 3);
    let (blocked, outcome) = state.spec_block(blocker_id, BlockType::Timed(duration), now);
    let timer = outcome.start_timer.unwrap();
    let created = blocked.blockers.last().1;
    assert(blocked.blockers == state.blockers.push((blocker_id, created)));
    let block = event_of(blocker_id, ExchangeBlockerEventType::MoveToBlocked);
    let done = Blocker {
        progress_state: ProgressState { status: ProgressStatus::ProgressBlocked, ..created.progress_state },
        ..created
    };
    lemma_insert_pushed(state.blockers, blocker_id, created, done);
    let settled = BlockerView { blockers: state.blockers.push((blocker_id, done)), ..blocked };
    assert(blocked.spec_move_next(block) == (blocked, Step::RunHandlers(told(blocker_id, ExchangeBlockerMoment::Blocked))));
    assert(blocked.spec_handlers_finished(block, ExchangeBlockerMoment::Blocked) == (settled, None::<ExchangeBlockerInternalEvent>));
    assert(seq![block].first() == block);
    assert(seq![block].drop_first() =~= Seq::<ExchangeBlockerInternalEvent>::empty());
    assert(seq![told(blocker_id, ExchangeBlockerMoment::Blocked)] + Seq::<ExchangeBlockerEvent>::empty() =~= seq![
        told(blocker_id, ExchangeBlockerMoment::Blocked),
    ]);
    assert(blocked.spec_process(seq![block], steps).0 == settled);
    let ready = Blocker { timeout: Timeout::ReadyUnblock, ..done };
    lemma_insert_pushed(state.blockers, blocker_id, done, ready);
    let requested = Blocker {
        progress_state: ProgressState { is_unblock_requested: true, ..ready.progress_state },
        ..ready
    };
    lemma_insert_pushed(state.blockers, blocker_id, ready, requested);
    let asked = BlockerView { blockers: state.blockers.push((blocker_id, requested)), ..blocked };
    assert(settled.spec_timer_fired(blocker_id, timer.timer_id).0 == asked);
    lemma_unblock_request_runs(asked, state.blockers, blocker_id, requested, steps);
}

/// A timed block renewed with a time that ends later replaces the timer:
/// the timer that runs is aborted, and a new one is asked for that fires
/// when the new time is up. Should the old timer fire all the same, nothing
/// happens.
pub proof fn law_reblock_to_longer_replaces_timer(
    state: BlockerView,
    blocker_id: BlockerId,
    first_duration: u64,
    first_now: u64,
    second_duration: u64,
    second_now: u64,
)
    requires
        !present(state.blockers, blocker_id.id()),
        spec_end_time(second_now, second_duration) > spec_end_time(first_now, first_duration),
    ensures
        ({
            let (blocked, first) = state.spec_block(blocker_id, BlockType::Timed(first_duration), first_now);
            let (renewed, second) = blocked.spec_block(blocker_id, BlockType::Timed(second_duration), second_now);
            &&& first.start_timer matches Some(old_timer)
            &&& second.start_timer matches Some(new_timer)
            &&& second.abort_timer == Some(old_timer.timer_id)
            &&& second.event is None
            &&& new_timer.timer_id != old_timer.timer_id
            &&& new_timer.end_time == spec_end_time(second_now, second_duration)
            &&& lookup(renewed.blockers, blocker_id.id()) matches Some(blocker)
            &&& blocker.timeout == (Timeout::InProgress {
                end_time: spec_end_time(second_now, second_duration),
                timer_id: new_timer.timer_id,
            })
            &&& renewed.spec_timer_fired(blocker_id, old_timer.timer_id) == (
                renewed,
                None::<ExchangeBlockerInternalEvent>,
            )
            &&& renewed.spec_timer_fired(blocker_id, new_timer.timer_id).1 == Some(
                event_of(blocker_id, ExchangeBlockerEventType::UnblockRequested),
            )
        }),
{
    let (blocked, first) = state.spec_block(blocker_id, BlockType::Timed(first_duration), first_now);
    let old_id = spec_next_timer_id(state.last_timer_id);
    let new_id = spec_next_timer_id(old_id);
    let created = Blocker::spec_new(
        Timeout::InProgress { end_time: spec_end_time(first_now, first_duration), timer_id: old_id },
    );
    let replaced = Blocker {
        timeout: Timeout::InProgress { end_time: spec_end_time(second_now, second_duration), timer_id: new_id },
        ..created.spec_rolled_back()
    };
    lemma_insert_pushed(state.blockers, blocker_id, created, replaced);
    lemma_insert_pushed(state.blockers, blocker_id, replaced, replaced);
    let ready = Blocker { timeout: Timeout::ReadyUnblock, ..replaced };
    lemma_insert_pushed(state.blockers, blocker_id, replaced, ready);
    lemma_insert_pushed(state.blockers, blocker_id, ready, ready);
}

/// A timed block renewed with a time that ends no later than the timer that
/// runs changes nothing and asks for nothing.
pub proof fn law_reblock_to_shorter_does_nothing(
    state: BlockerView,
    blocker_id: BlockerId,
    first_duration: u64,
    first_now: u64,
    second_duration: u64,
    second_now: u64,
)
    requires
        !present(state.blockers, blocker_id.id()),
        spec_end_time(second_now, second_duration) <= spec_end_time(first_now, first_duration),
    ensures
        ({
            let blocked = state.spec_block(blocker_id, BlockType::Timed(first_duration), first_now).0;
            let (renewed, second) = blocked.spec_block(blocker_id, BlockType::Timed(second_duration), second_now);
            &&& renewed == blocked
            &&& second.abort_timer is None
            &&& second.start_timer is None
            &&& second.event is None
        }),
{
    let old_id = spec_next_timer_id(state.last_timer_id);
    let created = Blocker::spec_new(
        Timeout::InProgress { end_time: spec_end_time(first_now, first_duration), timer_id: old_id },
    );
    lemma_insert_pushed(state.blockers, blocker_id, created, created);
}

/// What follows an unblock that was asked for while the handlers of the
/// blocked moment ran, whether the processor takes the request before the
/// handlers have finished or after: the request itself does nothing, the
/// handlers of before-unblocked and of unblocked are run, once each, and
/// the blocker is gone.
proof fn lemma_interrupted_blocking(
    running: BlockerView,
    before: Blockers,
    blocker_id: BlockerId,
    blocker: Blocker,
    taken_before_handlers_finish: bool,
    steps: nat,
)
    requires
        !present(before, blocker_id.id()),
        running.blockers == before.push((blocker_id, blocker)),
        blocker.progress_state.status == ProgressStatus::WaitBlockedMove,
        blocker.progress_state.is_unblock_requested,
        steps >= 4,
    ensures
        ({
            let start = event_of(blocker_id, ExchangeBlockerEventType::MoveToBlocked);
            let unblock = event_of(blocker_id, ExchangeBlockerEventType::UnblockRequested);
            let (finished, queued) = running.spec_handlers_finished(start, ExchangeBlockerMoment::Blocked);
            &&& running.spec_move_next(unblock) == (running, Step::NothingToDo)
            &&& queued == Some(event_of(blocker_id, ExchangeBlockerEventType::MoveBlockedToBeforeUnblocked))
            &&& finished.spec_process(
                if taken_before_handlers_finish {
                    seq![queued.unwrap()]
                } else {
                    seq![unblock, queued.unwrap()]
                },
                steps,
            ) == (
                BlockerView { blockers: before, ..running },
                seq![
                    told(blocker_id, ExchangeBlockerMoment::BeforeUnblocked),
                    told(blocker_id, ExchangeBlockerMoment::Unblocked),
                ],
            )
        }),
{
    let start = event_of(blocker_id, ExchangeBlockerEventType::MoveToBlocked);
    let unblock = event_of(blocker_id, ExchangeBlockerEventType::UnblockRequested);
    let first = event_of(blocker_id, ExchangeBlockerEventType::MoveBlockedToBeforeUnblocked);
    let moving = Blocker {
        progress_state: ProgressState { status: ProgressStatus::WaitBeforeUnblockedMove, ..blocker.progress_state },
        ..blocker
    };
    lemma_insert_pushed(before, blocker_id, blocker, blocker);
    lemma_insert_pushed(before, blocker_id, blocker, moving);
    let next = BlockerView { blockers: before.push((blocker_id, moving)), ..running };
    assert(running.spec_move_next(unblock) == (running, Step::NothingToDo));
    assert(running.spec_handlers_finished(start, ExchangeBlockerMoment::Blocked) == (next, Some(first)));
    lemma_unblocking_runs(next, before, blocker_id, moving, !taken_before_handlers_finish, steps);
}

/// An unblock that arrives while the handlers of the blocked moment run
/// does not disturb the order of the moments. Whether the processor takes
/// the request before the handlers have finished or after, the request
/// itself does nothing; when the handlers have finished, the handlers of
/// before-unblocked and of unblocked are run, once each, and the account is
/// blocked for that reason no more.
pub proof fn law_unblock_while_blocked_handlers_run(
    state: BlockerView,
    blocker_id: BlockerId,
    block_type: BlockType,
    now: u64,
    taken_before_handlers_finish: bool,
    steps: nat,
)
    requires
        !present(state.blockers, blocker_id.id()),
        steps >= 4,
    ensures
        ({
            let (blocked, outcome) = state.spec_block(blocker_id, block_type, now);
            let start = event_of(blocker_id, ExchangeBlockerEventType::MoveToBlocked);
            let unblock = event_of(blocker_id, ExchangeBlockerEventType::UnblockRequested);
            let (running, step) = blocked.spec_move_next(start);
            let (asked, request) = running.spec_unblock(blocker_id);
            let (finished, queued) = asked.spec_handlers_finished(start, ExchangeBlockerMoment::Blocked);
            &&& outcome.event == Some(start)
            &&& step == Step::RunHandlers(told(blocker_id, ExchangeBlockerMoment::Blocked))
            &&& request == Some(unblock)
            &&& asked.spec_move_next(unblock) == (asked, Step::NothingToDo)
            &&& queued == Some(event_of(blocker_id, ExchangeBlockerEventType::MoveBlockedToBeforeUnblocked))
            &&& finished.spec_process(
                if taken_before_handlers_finish {
                    seq![queued.unwrap()]
                } else {
                    seq![unblock, queued.unwrap()]
                },
                steps,
            ) == (
                BlockerView { blockers: state.blockers, ..blocked },
                seq![
                    told(blocker_id, ExchangeBlockerMoment::BeforeUnblocked),
                    told(blocker_id, ExchangeBlockerMoment::Unblocked),
                ],
            )
        }),
{
    let (blocked, outcome) = state.spec_block(blocker_id, block_type, now);
    let created = blocked.blockers.last().1;
    assert(blocked.blockers == state.blockers.push((blocker_id, created)));
    let start = event_of(blocker_id, ExchangeBlockerEventType::MoveToBlocked);
    lemma_insert_pushed(state.blockers, blocker_id, created, created);
    assert(blocked.spec_move_next(start) == (blocked, Step::RunHandlers(told(blocker_id, ExchangeBlockerMoment::Blocked))));
    let requested = Blocker {
        progress_state: ProgressState { is_unblock_requested: true, ..created.progress_state },
        ..created
    };
    lemma_insert_pushed(state.blockers, blocker_id, created, requested);
    let asked = BlockerView { blockers: state.blockers.push((blocker_id, requested)), ..blocked };
    assert(blocked.spec_unblock(blocker_id).0 == asked);
    lemma_interrupted_blocking(asked, state.blockers, blocker_id, requested, taken_before_handlers_finish, steps);
}

/// A timer that fires while the handlers of the blocked moment run does
/// not disturb the order of the moments either: the request to unblock that
/// it makes does nothing by itself, whether it is taken before the handlers
/// have finished or after; when they have finished, the handlers of
/// before-unblocked and of unblocked are run, once each, and the account is
/// blocked for that reason no more.
pub proof fn law_timer_fires_while_blocked_handlers_run(
    state: BlockerView,
    blocker_id: BlockerId,
    duration: u64,
    now: u64,
    taken_before_handlers_finish: bool,
    steps: nat,
)
    requires
        !present(state.blockers, blocker_id.id()),
        steps >= 4,
    ensures
        ({
            let (blocked, outcome) = state.spec_block(blocker_id, BlockType::Timed(duration), now);
            let start = event_of(blocker_id, ExchangeBlockerEventType::MoveToBlocked);
            let unblock = event_of(blocker_id, ExchangeBlockerEventType::UnblockRequested);
            let (running, step) = blocked.spec_move_next(start);
            let (asked, request) = running.spec_timer_fired(blocker_id, outcome.start_timer.unwrap().timer_id);
            let (finished, queued) = asked.spec_handlers_finished(start, ExchangeBlockerMoment::Blocked);
            &&& outcome.start_timer is Some
            &&& step == Step::RunHandlers(told(blocker_id, ExchangeBlockerMoment::Blocked))
            &&& request == Some(unblock)
            &&& asked.spec_move_next(unblock) == (asked, Step::NothingToDo)
            &&& queued == Some(event_of(blocker_id, ExchangeBlockerEventType::MoveBlockedToBeforeUnblocked))
            &&& finished.spec_process(
                if taken_before_handlers_finish {
                    seq![queued.unwrap()]
                } else {
                    seq![unblock, queued.unwrap()]
                },
                steps,
            ) == (
                BlockerView { blockers: state.blockers, ..blocked },
                seq![
                    told(blocker_id, ExchangeBlockerMoment::BeforeUnblocked),
                    told(blocker_id, ExchangeBlockerMoment::Unblocked),
                ],
            )
        }),
{
    let (blocked, outcome) = state.spec_block(blocker_id, BlockType::Timed(duration), now);
    let timer = outcome.start_timer.unwrap();
    let created = blocked.blockers.last().1;
    assert(blocked.blockers == state.blockers.push((blocker_id, created)));
    let start = event_of(blocker_id, ExchangeBlockerEventType::MoveToBlocked);
    lemma_insert_pushed(state.blockers, blocker_id, created, created);
    assert(blocked.spec_move_next(start) == (blocked, Step::RunHandlers(told(blocker_id, ExchangeBlockerMoment::Blocked))));
    let ready = Blocker { timeout: Timeout::ReadyUnblock, ..created };
    lemma_insert_pushed(state.blockers, blocker_id, created, ready);
    let requested = Blocker {
        progress_state: ProgressState { is_unblock_requested: true, ..ready.progress_state },
        ..ready
    };
    lemma_insert_pushed(state.blockers, blocker_id, ready, requested);
    let asked = BlockerView { blockers: state.blockers.push((blocker_id, requested)), ..blocked };
    assert(blocked.spec_timer_fired(blocker_id, timer.timer_id).0 == asked);
    lemma_interrupted_blocking(asked, state.blockers, blocker_id, requested, taken_before_handlers_finish, steps);
}

/// An unblock that is asked for once more while the handlers of
/// before-unblocked run changes nothing of what follows. Whether the
/// processor takes the request before these handlers have finished or
/// after, the request does nothing; when they have finished, the handlers
/// of unblocked are run once, and the blocker is gone.
pub proof fn law_unblock_while_before_unblocked_handlers_run(
    running: BlockerView,
    before: Blockers,
    blocker_id: BlockerId,
    blocker: Blocker,
    taken_before_handlers_finish: bool,
    steps: nat,
)
    requires
        !present(before, blocker_id.id()),
        running.blockers == before.push((blocker_id, blocker)),
        blocker.progress_state.status == ProgressStatus::WaitBeforeUnblockedMove,
        steps >= 3,
    ensures
        ({
            let first = event_of(blocker_id, ExchangeBlockerEventType::MoveBlockedToBeforeUnblocked);
            let unblock = event_of(blocker_id, ExchangeBlockerEventType::UnblockRequested);
            let (asked, request) = running.spec_unblock(blocker_id);
            let (finished, queued) = asked.spec_handlers_finished(first, ExchangeBlockerMoment::BeforeUnblocked);
            &&& running.spec_move_next(first) == (
                running,
                Step::RunHandlers(told(blocker_id, ExchangeBlockerMoment::BeforeUnblocked)),
            )
            &&& request == Some(unblock)
            &&& asked.spec_move_next(unblock) == (asked, Step::NothingToDo)
            &&& queued == Some(event_of(blocker_id, ExchangeBlockerEventType::MoveBeforeUnblockedToUnblocked))
            &&& finished.spec_process(
                if taken_before_handlers_finish {
                    seq![queued.unwrap()]
                } else {
                    seq![unblock, queued.unwrap()]
                },
                steps,
            ) == (
                BlockerView { blockers: before, ..running },
                seq![told(blocker_id, ExchangeBlockerMoment::Unblocked)],
            )
        }),
{
    reveal_with_fuel(BlockerView::spec_process, 4);
    let first = event_of(blocker_id, ExchangeBlockerEventType::MoveBlockedToBeforeUnblocked);
    let second = event_of(blocker_id, ExchangeBlockerEventType::MoveBeforeUnblockedToUnblocked);
    let unblock = event_of(blocker_id, ExchangeBlockerEventType::UnblockRequested);
    lemma_insert_pushed(before, blocker_id, blocker, blocker);
    let requested = Blocker {
        progress_state: ProgressState { is_unblock_requested: true, ..blocker.progress_state },
        ..blocker
    };
    lemma_insert_pushed(before, blocker_id, blocker, requested);
    let asked = BlockerView { blockers: before.push((blocker_id, requested)), ..running };
    assert(running.spec_unblock(blocker_id) == (asked, Some(unblock)));
    lemma_insert_pushed(before, blocker_id, requested, requested);
    let waiting = Blocker {
        progress_state: ProgressState { status: ProgressStatus::WaitUnblockedMove, ..requested.progress_state },
        ..requested
    };
    lemma_insert_pushed(before, blocker_id, requested, waiting);
    lemma_insert_pushed(before, blocker_id, waiting, waiting);
    lemma_remove_pushed(before, blocker_id, waiting);
    let finished = BlockerView { blockers: before.push((blocker_id, waiting)), ..running };
    let gone = BlockerView { blockers: before, ..running };
    assert(asked.spec_move_next(unblock) == (asked, Step::NothingToDo));
    assert(asked.spec_handlers_finished(first, ExchangeBlockerMoment::BeforeUnblocked) == (finished, Some(second)));
    assert(finished.spec_move_next(unblock) == (finished, Step::NothingToDo));
    assert(finished.spec_move_next(second) == (gone, Step::Unblocked(told(blocker_id, ExchangeBlockerMoment::Unblocked))));
    assert(seq![second].first() == second);
    assert(seq![second].drop_first() =~= Seq::<ExchangeBlockerInternalEvent>::empty());
    assert(seq![unblock, second].first() == unblock);
    assert(seq![unblock, second].drop_first() =~= seq![second]);
    assert(gone.spec_process(Seq::empty(), (steps - 2) as nat) == (gone, Seq::<ExchangeBlockerEvent>::empty()));
    assert(gone.spec_process(Seq::empty(), (steps - 1) as nat) == (gone, Seq::<ExchangeBlockerEvent>::empty()));
    assert(seq![told(blocker_id, ExchangeBlockerMoment::Unblocked)] + Seq::<ExchangeBlockerEvent>::empty() =~= seq![
        told(blocker_id, ExchangeBlockerMoment::Unblocked),
    ]);
}

} // verus!
