use mmb_core::common::ExchangeAccountId;
use mmb_core::exchange_blocker::{
    BlockReason, BlockType, BlockerId, ExchangeBlocker, ExchangeBlockerEventType, ExchangeBlockerInternalEvent,
    ExchangeBlockerMoment, ProgressStatus, Step, Timeout, TimerRequest,
};
use std::collections::VecDeque;

fn exchange_account_id() -> ExchangeAccountId {
    ExchangeAccountId::new("ExchangeId", 0)
}

/// The blocker with the queue, the timers and the handlers that its caller
/// owns. The handlers finish before the next event is taken.
struct Runner {
    blocker: ExchangeBlocker,
    queue: VecDeque<ExchangeBlockerInternalEvent>,
    timers: Vec<TimerRequest>,
    told: Vec<(String, ExchangeBlockerMoment)>,
    now: u64,
    unblocked_at: Vec<(String, u64)>,
}

impl Runner {
    fn new() -> Runner {
        Runner {
            blocker: ExchangeBlocker::new(vec![exchange_account_id()]),
            queue: VecDeque::new(),
            timers: Vec::new(),
            told: Vec::new(),
            now: 0,
            unblocked_at: Vec::new(),
        }
    }

    fn block(&mut self, reason: BlockReason, block_type: BlockType) {
        assert!(self.blocker.knows(&exchange_account_id()));
        let outcome = self.blocker.block(&exchange_account_id(), reason, block_type, self.now);
        if let Some(timer_id) = outcome.abort_timer {
            self.timers.retain(|timer| timer.timer_id != timer_id);
        }
        if let Some(timer) = outcome.start_timer {
            self.timers.push(timer);
        }
        if let Some(event) = outcome.event {
            self.queue.push_back(event);
        }
    }

    fn unblock(&mut self, reason: BlockReason) {
        if let Some(event) = self.blocker.unblock(&exchange_account_id(), reason) {
            self.queue.push_back(event);
        }
    }

    fn process(&mut self) {
        while let Some(event) = self.queue.pop_front() {
            match self.blocker.move_next_blocker_state_if_can(&event) {
                Step::NothingToDo => {}
                Step::Enqueue(next) => self.queue.push_back(next),
                Step::RunHandlers(told) => {
                    self.told.push((told.reason.reason.to_string(), told.moment));
                    if let Some(next) = self.blocker.handlers_finished(&event, told.moment) {
                        self.queue.push_back(next);
                    }
                }
                Step::Unblocked(told) => {
                    self.unblocked_at.push((told.reason.reason.to_string(), self.now));
                    self.told.push((told.reason.reason.to_string(), told.moment));
                }
            }
        }
    }

    fn advance_to(&mut self, moment: u64) {
        loop {
            let due = self
                .timers
                .iter()
                .enumerate()
                .filter(|(_, timer)| timer.end_time <= moment)
                .min_by_key(|(_, timer)| timer.end_time)
                .map(|(index, _)| index);
            let Some(index) = due else { break };
            let timer = self.timers.remove(index);
            self.now = timer.end_time;
            if let Some(event) = self.blocker.timer_fired(&timer.blocker_id, timer.timer_id) {
                self.queue.push_back(event);
            }
            self.process();
        }
        self.now = moment;
    }

    fn count(&self, moment: ExchangeBlockerMoment) -> usize {
        self.told.iter().filter(|(_, told)| *told == moment).count()
    }

    fn is_blocked(&self) -> bool {
        self.blocker.is_blocked(&exchange_account_id())
    }
}

fn assert_blocking_state(
    runner: &Runner,
    reason1: BlockReason,
    reason2: BlockReason,
    expected_is_blocked_by_reason1: bool,
    expected_is_blocked_by_reason2: bool,
    expected_is_exchange_blocked: bool,
) {
    assert_eq!(
        runner.blocker.is_blocked_by_reason(&exchange_account_id(), reason1),
        expected_is_blocked_by_reason1
    );
    assert_eq!(
        runner.blocker.is_blocked_by_reason(&exchange_account_id(), reason2),
        expected_is_blocked_by_reason2
    );
    assert_eq!(runner.is_blocked(), expected_is_exchange_blocked);
}

fn assert_is_blocking_except_reason(
    runner: &Runner,
    reason1: BlockReason,
    reason2: BlockReason,
    expected_is_blocked_by_reason1: bool,
    expected_is_blocked_by_reason2: bool,
) {
    assert_eq!(
        runner.blocker.is_blocked_except_reason(&exchange_account_id(), reason1),
        expected_is_blocked_by_reason1
    );
    assert_eq!(
        runner.blocker.is_blocked_except_reason(&exchange_account_id(), reason2),
        expected_is_blocked_by_reason2
    );
}

#[test]
fn block_unblock_manual() {
    let mut runner = Runner::new();
    let reason = BlockReason::new("test_reason");

    runner.block(reason, BlockType::Manual);
    runner.process();
    assert_eq!(runner.is_blocked(), true);
    assert_eq!(runner.count(ExchangeBlockerMoment::Blocked), 1);

    runner.unblock(reason);
    runner.process();
    assert_eq!(runner.is_blocked(), false);
    assert_eq!(
        runner.told,
        vec![
            ("test_reason".to_string(), ExchangeBlockerMoment::Blocked),
            ("test_reason".to_string(), ExchangeBlockerMoment::BeforeUnblocked),
            ("test_reason".to_string(), ExchangeBlockerMoment::Unblocked),
        ]
    );
}

#[test]
fn block_duration() {
    let mut runner = Runner::new();
    let reason = BlockReason::new("timer_test_reason");
    runner.block(reason, BlockType::Timed(50));
    assert_eq!(runner.is_blocked(), true);
    assert_eq!(runner.timers.len(), 1);
    assert_eq!(runner.timers[0].end_time, 50);
    runner.process();
    runner.advance_to(49);
    assert_eq!(runner.is_blocked(), true);
    runner.advance_to(80);
    assert_eq!(runner.is_blocked(), false);
    assert_eq!(runner.unblocked_at, vec![("timer_test_reason".to_string(), 50)]);
}

#[test]
fn reblock_before_time_is_up() {
    let mut runner = Runner::new();
    let reason = BlockReason::new("timer_test_reason");
    runner.block(reason, BlockType::Timed(50));
    assert_eq!(runner.is_blocked(), true);
    runner.process();
    let first_timer = runner.timers[0].timer_id;

    runner.advance_to(20);
    runner.block(reason, BlockType::Timed(50));
    assert_eq!(runner.is_blocked(), true);
    assert_eq!(runner.timers.len(), 1);
    assert_eq!(runner.timers[0].end_time, 70);
    assert!(runner.timers[0].timer_id != first_timer);

    // Should the aborted timer fire all the same, nothing happens.
    let blocker_id = BlockerId::new(exchange_account_id(), reason);
    assert!(runner.blocker.timer_fired(&blocker_id, first_timer).is_none());

    runner.advance_to(69);
    assert_eq!(runner.is_blocked(), true);
    runner.advance_to(100);
    assert_eq!(runner.is_blocked(), false);
    assert_eq!(runner.unblocked_at, vec![("timer_test_reason".to_string(), 70)]);
    assert_eq!(runner.count(ExchangeBlockerMoment::Blocked), 1);
}

#[test]
fn reblock_with_a_shorter_time_keeps_the_timer() {
    let mut runner = Runner::new();
    let reason = BlockReason::new("timer_test_reason");
    runner.block(reason, BlockType::Timed(50));
    runner.process();
    let first_timer = runner.timers[0].timer_id;
    runner.advance_to(20);
    runner.block(reason, BlockType::Timed(30));
    assert_eq!(runner.timers.len(), 1);
    assert_eq!(runner.timers[0].timer_id, first_timer);
    runner.block(reason, BlockType::Timed(10));
    assert_eq!(runner.timers[0].end_time, 50);
    // A manual block over a running timer is refused.
    runner.block(reason, BlockType::Manual);
    assert_eq!(runner.timers.len(), 1);
    runner.advance_to(50);
    assert_eq!(runner.is_blocked(), false);
}

#[test]
fn timed_block_of_a_manually_blocked_reason_starts_a_timer() {
    let mut runner = Runner::new();
    let reason = BlockReason::new("reason");
    runner.block(reason, BlockType::Manual);
    runner.process();
    runner.block(reason, BlockType::Timed(10));
    runner.process();
    assert_eq!(runner.is_blocked(), true);
    let blocker = runner
        .blocker
        .blockers
        .get(&BlockerId::new(exchange_account_id(), reason))
        .expect("the blocker");
    assert_eq!(blocker.progress_state.status, ProgressStatus::ProgressBlocked);
    assert_eq!(blocker.progress_state.is_unblock_requested, false);
    assert!(matches!(blocker.timeout, Timeout::InProgress { end_time: 10, .. }));
    runner.advance_to(10);
    assert_eq!(runner.is_blocked(), false);
    assert_eq!(runner.count(ExchangeBlockerMoment::Blocked), 1);
    assert_eq!(runner.count(ExchangeBlockerMoment::BeforeUnblocked), 1);
    assert_eq!(runner.count(ExchangeBlockerMoment::Unblocked), 1);
}

#[test]
fn renewed_block_rolls_the_progress_back() {
    let mut blocker = ExchangeBlocker::new(vec![exchange_account_id()]);
    let reason = BlockReason::new("reason");
    let blocker_id = BlockerId::new(exchange_account_id(), reason);
    let block = blocker.block(&exchange_account_id(), reason, BlockType::Manual, 0).event.expect("an event");
    assert!(matches!(blocker.move_next_blocker_state_if_can(&block), Step::RunHandlers(_)));
    assert!(blocker.handlers_finished(&block, ExchangeBlockerMoment::Blocked).is_none());
    let unblock = blocker.unblock(&exchange_account_id(), reason).expect("an event");
    let moving = match blocker.move_next_blocker_state_if_can(&unblock) {
        Step::Enqueue(event) => event,
        _ => panic!("the move to before-unblocked is to be queued"),
    };
    assert_eq!(
        blocker.blockers.get(&blocker_id).expect("the blocker").progress_state.status,
        ProgressStatus::WaitBeforeUnblockedMove
    );

    let renewed = blocker.block(&exchange_account_id(), reason, BlockType::Manual, 1);
    assert!(renewed.event.is_none() && renewed.start_timer.is_none() && renewed.abort_timer.is_none());
    let state = blocker.blockers.get(&blocker_id).expect("the blocker").progress_state;
    assert_eq!(state.status, ProgressStatus::ProgressBlocked);
    assert_eq!(state.is_unblock_requested, false);

    // The move that was queued before no longer fits.
    assert!(matches!(blocker.move_next_blocker_state_if_can(&moving), Step::NothingToDo));
    assert_eq!(blocker.is_blocked(&exchange_account_id()), true);
    assert_eq!(ProgressStatus::WaitBlockedMove.rolled_back(), ProgressStatus::WaitBlockedMove);
    assert_eq!(ProgressStatus::WaitUnblockedMove.rolled_back(), ProgressStatus::ProgressBlocked);
}

#[test]
fn end_time_stops_at_the_largest_moment() {
    let mut runner = Runner::new();
    runner.now = u64::MAX - 5;
    runner.block(BlockReason::new("reason"), BlockType::Timed(50));
    assert_eq!(runner.timers[0].end_time, u64::MAX);
}

#[test]
fn block_with_multiple() {
    let mut runner = Runner::new();
    let reason1 = BlockReason::new("reason1");
    let reason2 = BlockReason::new("reason2");

    assert_eq!(runner.is_blocked(), false);

    runner.block(reason1, BlockType::Manual);
    assert_blocking_state(&runner, reason1, reason2, true, false, true);

    runner.block(reason2, BlockType::Manual);
    assert_blocking_state(&runner, reason1, reason2, true, true, true);
    assert_eq!(runner.blocker.blocked_reasons(&exchange_account_id()).len(), 2);

    runner.unblock(reason1);
    runner.process();
    assert_blocking_state(&runner, reason1, reason2, false, true, true);

    runner.unblock(reason2);
    runner.process();
    assert_blocking_state(&runner, reason1, reason2, false, false, false);
    assert!(runner.blocker.blocked_reasons(&exchange_account_id()).is_empty());
}

#[test]
fn block_with_handler() {
    let mut runner = Runner::new();
    let reason = BlockReason::new("reason");

    runner.block(reason, BlockType::Manual);
    runner.unblock(reason);
    runner.process();

    assert_eq!(runner.is_blocked(), false);
    assert_eq!(runner.count(ExchangeBlockerMoment::Blocked), 1);
    assert_eq!(runner.count(ExchangeBlockerMoment::BeforeUnblocked), 1);
    assert_eq!(runner.count(ExchangeBlockerMoment::Unblocked), 1);
}

#[test]
fn block_with_first_long_handler() {
    // The request to unblock is taken from the queue while the handlers of
    // the blocked moment still run.
    let mut blocker = ExchangeBlocker::new(vec![exchange_account_id()]);
    let reason = BlockReason::new("reason");
    let block = blocker.block(&exchange_account_id(), reason, BlockType::Manual, 0).event.expect("an event");
    let unblock = blocker.unblock(&exchange_account_id(), reason).expect("an event");

    assert!(matches!(blocker.move_next_blocker_state_if_can(&block), Step::RunHandlers(_)));
    assert!(matches!(blocker.move_next_blocker_state_if_can(&unblock), Step::NothingToDo));
    let next = blocker.handlers_finished(&block, ExchangeBlockerMoment::Blocked).expect("an event");
    assert_eq!(next.event_type, ExchangeBlockerEventType::MoveBlockedToBeforeUnblocked);
    match blocker.move_next_blocker_state_if_can(&next) {
        Step::RunHandlers(told) => assert_eq!(told.moment, ExchangeBlockerMoment::BeforeUnblocked),
        _ => panic!("the handlers of before-unblocked are to be run"),
    }
    let last = blocker.handlers_finished(&next, ExchangeBlockerMoment::BeforeUnblocked).expect("an event");
    assert_eq!(last.event_type, ExchangeBlockerEventType::MoveBeforeUnblockedToUnblocked);
    match blocker.move_next_blocker_state_if_can(&last) {
        Step::Unblocked(told) => {
            assert_eq!(told.moment, ExchangeBlockerMoment::Unblocked);
            assert_eq!(told.reason.reason, "reason");
            assert_eq!(told.exchange_account_id.exchange_id, "ExchangeId");
        }
        _ => panic!("the blocker is to be removed"),
    }
    assert!(blocker.handlers_finished(&last, ExchangeBlockerMoment::Unblocked).is_none());
    assert_eq!(blocker.is_blocked(&exchange_account_id()), false);
}

#[test]
fn block_with_handler_after_stop() {
    // A processor that was stopped takes no events: the account stays
    // blocked and no handler is run.
    let mut runner = Runner::new();
    let reason = BlockReason::new("reason");
    runner.block(reason, BlockType::Manual);
    runner.unblock(reason);
    assert_eq!(runner.is_blocked(), true);
    assert_eq!(runner.count(ExchangeBlockerMoment::Blocked), 0);
    assert_eq!(runner.queue.len(), 2);
}

#[test]
fn block_many_times() {
    let mut runner = Runner::new();
    let reason = BlockReason::new("reason");
    for _ in 0..200 {
        runner.block(reason, BlockType::Manual);
        runner.unblock(reason);
        runner.process();
        assert_eq!(runner.is_blocked(), false);
    }
    assert_eq!(runner.count(ExchangeBlockerMoment::Blocked), 200);
    assert_eq!(runner.count(ExchangeBlockerMoment::BeforeUnblocked), 200);
    assert_eq!(runner.count(ExchangeBlockerMoment::Unblocked), 200);
}

#[test]
fn repeated_block_and_unblock_before_processing() {
    let mut runner = Runner::new();
    let reason = BlockReason::new("reason");
    for _ in 0..20 {
        runner.block(reason, BlockType::Manual);
        runner.unblock(reason);
    }
    runner.process();
    assert_eq!(runner.is_blocked(), false);
    assert_eq!(runner.count(ExchangeBlockerMoment::Blocked), 1);
    assert_eq!(runner.count(ExchangeBlockerMoment::BeforeUnblocked), 1);
    assert_eq!(runner.count(ExchangeBlockerMoment::Unblocked), 1);
}

#[test]
fn is_blocked_except_reason_full_cycle() {
    let mut runner = Runner::new();
    let reason1 = BlockReason::new("reason1");
    let reason2 = BlockReason::new("reason2");

    assert_is_blocking_except_reason(&runner, reason1, reason2, false, false);

    runner.block(reason2, BlockType::Manual);
    assert_is_blocking_except_reason(&runner, reason1, reason2, true, false);

    runner.block(reason2, BlockType::Manual);
    assert_is_blocking_except_reason(&runner, reason1, reason2, true, false);

    runner.block(reason1, BlockType::Manual);
    assert_is_blocking_except_reason(&runner, reason1, reason2, true, true);

    runner.unblock(reason2);
    runner.process();
    assert_is_blocking_except_reason(&runner, reason1, reason2, false, true);

    runner.unblock(reason1);
    runner.process();
    assert_is_blocking_except_reason(&runner, reason1, reason2, false, false);
}

#[test]
fn wait_unblock_if_not_blocked() {
    let mut runner = Runner::new();
    assert_eq!(runner.is_blocked(), false);
    assert!(runner.blocker.blocked_reasons(&exchange_account_id()).is_empty());
    // Unblocking what is not blocked leaves nothing on the queue.
    runner.unblock(BlockReason::new("reason"));
    assert!(runner.queue.is_empty());
    assert_eq!(runner.blocker.blockers.len(), 0);
}

#[test]
fn wait_unblock_when_reblock_1_of_2_reasons() {
    let mut runner = Runner::new();
    let reason1 = BlockReason::new("reason1");
    let reason2 = BlockReason::new("reason2");

    runner.block(reason1, BlockType::Manual);
    runner.block(reason2, BlockType::Manual);
    runner.process();

    runner.unblock(reason1);
    runner.process();
    runner.block(reason1, BlockType::Manual);
    runner.process();

    runner.unblock(reason2);
    runner.process();
    assert_eq!(runner.is_blocked(), true);

    runner.unblock(reason1);
    runner.process();
    assert_eq!(runner.is_blocked(), false);
    assert_eq!(runner.count(ExchangeBlockerMoment::Blocked), 3);
    assert_eq!(runner.count(ExchangeBlockerMoment::Unblocked), 3);
}

#[test]
fn unknown_account_is_not_known() {
    let blocker = ExchangeBlocker::new(vec![exchange_account_id()]);
    assert!(blocker.knows(&exchange_account_id()));
    assert!(!blocker.knows(&ExchangeAccountId::new("ExchangeId", 1)));
    assert!(!blocker.knows(&ExchangeAccountId::new("Other", 0)));
    assert!(!blocker.is_blocked(&ExchangeAccountId::new("Other", 0)));
}

#[test]
fn events_for_a_blocker_that_is_gone_are_ignored() {
    let mut blocker = ExchangeBlocker::new(vec![exchange_account_id()]);
    let blocker_id = BlockerId::new(exchange_account_id(), BlockReason::new("reason"));
    let event = ExchangeBlockerInternalEvent {
        blocker_id: blocker_id.clone(),
        event_type: ExchangeBlockerEventType::MoveToBlocked,
    };
    assert!(matches!(blocker.move_next_blocker_state_if_can(&event), Step::NothingToDo));
    assert!(blocker.handlers_finished(&event, ExchangeBlockerMoment::Blocked).is_none());
    assert!(blocker.timer_fired(&blocker_id, 1).is_none());
    let other = event.with_type(ExchangeBlockerEventType::UnblockRequested);
    assert_eq!(other.event_type, ExchangeBlockerEventType::UnblockRequested);
    assert_eq!(other.blocker_id.reason.reason, "reason");
    let told = event.pub_event(ExchangeBlockerMoment::Blocked);
    assert_eq!(told.moment, ExchangeBlockerMoment::Blocked);
}
