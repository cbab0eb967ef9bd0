//! The indexer: its configuration, its height cursor, and the polling state
//! machine that moves the cursor.
//!
//! The machine does no work of its own. [`BitcoinIndexer::run`] takes what
//! happened (an [`Event`]) and says what is to be done next (an [`Action`]);
//! the caller does it and comes back with the outcome.

use crate::address::Network;
use crate::error::{IndexerError, IndexerErrorView};
use crate::text::{i64_to_decimal, signed_decimal};
use vstd::prelude::*;
use vstd::string::StringExecFns;

verus! {

/// The largest number of heights that one tick processes.
pub const MAX_BATCH: i32 = 200;

/// Where the poller stands within a tick.
#[derive(Clone, Copy, Debug, PartialEq, Eq, Structural)]
pub enum Phase {
    /// Before the first tick.
    Idle,
    /// The chain tip was asked for.
    FetchingTip,
    /// The heights `next` to `last` remain of the batch, and `next` is
    /// being processed.
    Processing { next: i32, last: i32 },
    /// The tick is over; the poller sleeps until the next one.
    Sleeping,
}

/// What happened since the last action was handed out.
#[derive(Clone, Copy, Debug, PartialEq, Eq, Structural)]
pub enum Event {
    /// The poller was started, or the sleep between two ticks is over.
    Wake,
    /// The chain-data provider reported this tip height.
    Tip(i32),
    /// The block at the height asked for was transformed and delivered.
    Delivered,
    /// The action failed: the tip could not be read, or the block could not
    /// be resolved, transformed or delivered.
    Failed,
}

/// What is to be done next.
#[derive(Clone, Copy, Debug, PartialEq, Eq, Structural)]
pub enum Action {
    /// Ask the chain-data provider for the tip height.
    FetchTip,
    /// Resolve, transform and deliver the block at this height.
    Process(i32),
    /// Sleep for the poll interval, then wake the poller.
    Sleep,
}

/// The indexer's configuration and its cursor.
#[derive(Debug)]
pub struct BitcoinIndexer {
    network: Network,
    webhook_url: String,
    last_processed_height: i32,
    start_height: i32,
    phase: Phase,
}

/// Model of a [`BitcoinIndexer`].
pub struct IndexerView {
    pub network: Network,
    pub webhook_url: Seq<char>,
    /// The cursor: the last height whose batch was delivered in full.
    pub last_processed_height: int,
    pub start_height: int,
    pub phase: Phase,
}

/// The number of heights that a tick processes with the cursor at `cursor`
/// and the chain tip at `tip`.
pub open spec fn batch_size(cursor: int, tip: int) -> int {
    if tip <= cursor {
        0
    } else if tip - cursor <= MAX_BATCH {
        tip - cursor
    } else {
        MAX_BATCH as int
    }
}

impl IndexerView {
    /// The invariant of the poller: the cursor is not below the height
    /// before the starting height, and a batch in progress lies right above
    /// the cursor and is no longer than `MAX_BATCH`.
    pub open spec fn wf(self) -> bool {
        &&& 0 <= self.start_height <= i32::MAX
        &&& self.start_height - 1 <= self.last_processed_height <= i32::MAX
        &&& self.phase matches Phase::Processing { next, last } ==> {
            &&& self.last_processed_height < next <= last
            &&& last - self.last_processed_height <= MAX_BATCH
        }
    }

    /// The same indexer in another phase.
    pub open spec fn in_phase(self, phase: Phase) -> IndexerView {
        IndexerView { phase, ..self }
    }

    /// The action that the current phase waits for.
    pub open spec fn awaited(self) -> Action {
        match self.phase {
            Phase::Idle => Action::Sleep,
            Phase::FetchingTip => Action::FetchTip,
            Phase::Processing { next, last } => Action::Process(next),
            Phase::Sleeping => Action::Sleep,
        }
    }

    /// One step of the poller: the state after `event`, and the action to
    /// take.
    ///
    /// A tick starts with `Wake`, which asks for the tip. A tip at or below
    /// the cursor ends the tick. A higher tip starts a batch of
    /// `batch_size` heights right above the cursor, processed one by one in
    /// increasing order. When the last one is delivered the cursor moves to
    /// it. A failure ends the tick and leaves the cursor where it was. An
    /// event that the phase does not wait for changes nothing and repeats
    /// the awaited action.
    pub open spec fn step(self, event: Event) -> (IndexerView, Action) {
        match (self.phase, event) {
            (Phase::Idle, Event::Wake) | (Phase::Sleeping, Event::Wake) => (
                self.in_phase(Phase::FetchingTip),
                Action::FetchTip,
            ),
            (Phase::FetchingTip, Event::Tip(tip)) => {
                let count = batch_size(self.last_processed_height, tip as int);
                if count == 0 {
                    (self.in_phase(Phase::Sleeping), Action::Sleep)
                } else {
                    let next = (self.last_processed_height + 1) as i32;
                    let last = (self.last_processed_height + count) as i32;
                    (self.in_phase(Phase::Processing { next, last }), Action::Process(next))
                }
            },
            (Phase::Processing { next, last }, Event::Delivered) => {
                if next == last {
                    (
                        IndexerView {
                            last_processed_height: last as int,
                            phase: Phase::Sleeping,
                            ..self
                        },
                        Action::Sleep,
                    )
                } else {
                    let following = (next + 1) as i32;
                    (
                        self.in_phase(Phase::Processing { next: following, last }),
                        Action::Process(following),
                    )
                }
            },
            (Phase::FetchingTip, Event::Failed) | (Phase::Processing { .. }, Event::Failed) => (
                self.in_phase(Phase::Sleeping),
                Action::Sleep,
            ),
            _ => (self, self.awaited()),
        }
    }
}

/// The message for a starting height outside the chain.
pub open spec fn invalid_start_message(start_height: int, chain_height: int) -> Seq<char> {
    "Start block "@ + signed_decimal(start_height) + " is invalid. Chain height is "@
        + signed_decimal(chain_height)
}

impl View for BitcoinIndexer {
    type V = IndexerView;

    closed spec fn view(&self) -> IndexerView {
        IndexerView {
            network: self.network,
            webhook_url: self.webhook_url@,
            last_processed_height: self.last_processed_height as int,
            start_height: self.start_height as int,
            phase: self.phase,
        }
    }
}

impl BitcoinIndexer {
    #[verifier::type_invariant]
    spec fn well_formed(&self) -> bool {
        self@.wf()
    }

    /// An indexer that starts at `start_height`, on a chain whose tip is at
    /// `chain_height`. The starting height must lie on the chain, from 0 to
    /// the tip. The cursor begins just below the starting height.
    pub fn new(network: Network, webhook_url: &str, start_height: i32, chain_height: i32) -> (result:
        Result<BitcoinIndexer, IndexerError>)
        ensures
            result is Ok <==> 0 <= start_height <= chain_height,
            result matches Ok(indexer) ==> indexer@.wf() && indexer@ == (IndexerView {
                network,
                webhook_url: webhook_url@,
                last_processed_height: start_height - 1,
                start_height: start_height as int,
                phase: Phase::Idle,
            }),
            result matches Err(e) ==> e@ == IndexerErrorView::InvalidStartBlock(
                invalid_start_message(start_height as int, chain_height as int),
            ),
    {
        if start_height < 0 || start_height > chain_height {
            let mut msg = String::from_str("Start block ");
            msg.append(i64_to_decimal(start_height as i64).as_str());
            msg.append(" is invalid. Chain height is ");
            msg.append(i64_to_decimal(chain_height as i64).as_str());
            return Err(IndexerError::InvalidStartBlock(msg));
        }
        Ok(
            BitcoinIndexer {
                network,
                webhook_url: String::from_str(webhook_url),
                last_processed_height: start_height - 1,
                start_height,
                phase: Phase::Idle,
            },
        )
    }

    /// Begins the batch of a tick, with the chain tip at `current_height`:
    /// the heights above the cursor up to the tip, but `MAX_BATCH` of them at
    /// most. With no height above the cursor the tick is over.
    fn process_new_blocks(&mut self, current_height: i32) -> (action: Action)
        requires
            old(self)@.phase == Phase::FetchingTip,
        ensures
            (final(self)@, action) == old(self)@.step(Event::Tip(current_height)),
    {
        proof {
            use_type_invariant(&*self);
        }
        if current_height <= self.last_processed_height {
            self.phase = Phase::Sleeping;
            return Action::Sleep;
        }
        let distance: i64 = current_height as i64 - self.last_processed_height as i64;
        let blocks_to_process: i32 = if distance <= MAX_BATCH as i64 {
            distance as i32
        } else {
            MAX_BATCH
        };
        let next: i32 = self.last_processed_height + 1;
        let last: i32 = self.last_processed_height + blocks_to_process;
        self.phase = Phase::Processing { next, last };
        Action::Process(next)
    }

    /// One step of the poller: takes what happened, changes phase and
    /// cursor, and returns what is to be done next.
    pub fn run(&mut self, event: Event) -> (action: Action)
        ensures
            old(self)@.wf(),
            final(self)@.wf(),
            (final(self)@, action) == old(self)@.step(event),
    {
        proof {
            use_type_invariant(&*self);
        }
        match (self.phase, event) {
            (Phase::Idle, Event::Wake) | (Phase::Sleeping, Event::Wake) => {
                self.phase = Phase::FetchingTip;
                Action::FetchTip
            },
            (Phase::FetchingTip, Event::Tip(tip)) => self.process_new_blocks(tip),
            (Phase::Processing { next, last }, Event::Delivered) => {
                if next == last {
                    self.phase = Phase::Sleeping;
                    self.last_processed_height = last;
                    Action::Sleep
                } else {
                    let following: i32 = next + 1;
                    self.phase = Phase::Processing { next: following, last };
                    Action::Process(following)
                }
            },
            (Phase::FetchingTip, Event::Failed) | (Phase::Processing { .. }, Event::Failed) => {
                self.phase = Phase::Sleeping;
                Action::Sleep
            },
            _ => self.awaited(),
        }
    }

    /// The network whose address encoding is used.
    pub fn network(&self) -> (network: Network)
        ensures
            network == self@.network,
    {
        self.network
    }

    /// The endpoint of the notification sink.
    pub fn webhook_url(&self) -> (url: &str)
        ensures
            url@ == self@.webhook_url,
    {
        self.webhook_url.as_str()
    }

    /// The cursor: the last height whose batch was delivered in full, or
    /// the height before the starting height when none was.
    pub fn last_processed_height(&self) -> (height: i32)
        ensures
            height == self@.last_processed_height,
    {
        self.last_processed_height
    }

    /// The height at which indexing began.
    pub fn start_height(&self) -> (height: i32)
        ensures
            height == self@.start_height,
    {
        self.start_height
    }

    /// Where the poller stands within a tick.
    pub fn phase(&self) -> (phase: Phase)
        ensures
            phase == self@.phase,
    {
        self.phase
    }

    /// The action that the current phase waits for.
    pub fn awaited(&self) -> (action: Action)
        ensures
            action == self@.awaited(),
    {
        match self.phase {
            Phase::Idle => Action::Sleep,
            Phase::FetchingTip => Action::FetchTip,
            Phase::Processing { next, last } => Action::Process(next),
            Phase::Sleeping => Action::Sleep,
        }
    }
}

/// The state after `count` deliveries in a row.
pub open spec fn after_deliveries(state: IndexerView, count: nat) -> IndexerView
    decreases count,
{
    if count == 0 {
        state
    } else {
        after_deliveries(state, (count - 1) as nat).step(Event::Delivered).0
    }
}

/// No step moves the cursor back, and every step keeps the invariant, the
/// starting height and the configuration.
pub proof fn lemma_cursor_never_decreases(state: IndexerView, event: Event)
    requires
        state.wf(),
    ensures
        state.step(event).0.wf(),
        state.step(event).0.last_processed_height >= state.last_processed_height,
        state.step(event).0.start_height == state.start_height,
        state.step(event).0.network == state.network,
        state.step(event).0.webhook_url == state.webhook_url,
{
}

/// While a batch is under way its heights are asked for one by one in
/// increasing order, starting right above the cursor, and the cursor stays
/// where it was: after `delivered` deliveries, fewer than the batch holds,
/// the poller is processing the height `delivered + 1` above the cursor.
pub proof fn lemma_batch_in_height_order(state: IndexerView, tip: i32, delivered: nat)
    requires
        state.wf(),
        state.phase == Phase::FetchingTip,
        delivered < batch_size(state.last_processed_height, tip as int),
    ensures
        ({
            let cursor = state.last_processed_height;
            let now = after_deliveries(state.step(Event::Tip(tip)).0, delivered);
            &&& now.wf()
            &&& now == state.in_phase(
                Phase::Processing {
                    next: (cursor + 1 + delivered) as i32,
                    last: (cursor + batch_size(cursor, tip as int)) as i32,
                },
            )
            &&& now.awaited() == Action::Process((cursor + 1 + delivered) as i32)
        }),
        delivered == 0 ==> state.step(Event::Tip(tip)).1 == Action::Process(
            (state.last_processed_height + 1) as i32,
        ),
        delivered > 0 ==> after_deliveries(
            state.step(Event::Tip(tip)).0,
            (delivered - 1) as nat,
        ).step(Event::Delivered).1 == Action::Process(
            (state.last_processed_height + 1 + delivered) as i32,
        ),
    decreases delivered,
{
    if delivered > 0 {
        lemma_batch_in_height_order(state, tip, (delivered - 1) as nat);
    }
}

/// A tick whose batch is delivered in full moves the cursor forward by the
/// number of heights in the batch, and then sleeps. With the tip at or
/// below the cursor the batch is empty and the cursor stays.
pub proof fn lemma_full_delivery_advances_cursor(state: IndexerView, tip: i32)
    requires
        state.wf(),
        state.phase == Phase::FetchingTip,
    ensures
        ({
            let count = batch_size(state.last_processed_height, tip as int);
            let end = after_deliveries(state.step(Event::Tip(tip)).0, count as nat);
            &&& 0 <= count <= MAX_BATCH
            &&& end.wf()
            &&& end == (IndexerView {
                last_processed_height: state.last_processed_height + count,
                phase: Phase::Sleeping,
                ..state
            })
        }),
{
    let count = batch_size(state.last_processed_height, tip as int);
    if count > 0 {
        lemma_batch_in_height_order(state, tip, (count - 1) as nat);
    }
}

/// A failure anywhere in a tick leaves the cursor where it was before the
/// tick, and ends the tick: whether the tip could not be read, or a height
/// of the batch failed after any number of deliveries.
pub proof fn lemma_failure_keeps_cursor(state: IndexerView, tip: i32, delivered: nat)
    requires
        state.wf(),
        state.phase == Phase::FetchingTip,
        delivered < batch_size(state.last_processed_height, tip as int),
    ensures
        state.step(Event::Failed).0 == state.in_phase(Phase::Sleeping),
        after_deliveries(state.step(Event::Tip(tip)).0, delivered).step(Event::Failed).0
            == state.in_phase(Phase::Sleeping),
        after_deliveries(state.step(Event::Tip(tip)).0, delivered).step(Event::Failed).1
            == Action::Sleep,
{
    lemma_batch_in_height_order(state, tip, delivered);
}

/// Where the tip is more than `MAX_BATCH` above the cursor, the batch holds
/// exactly `MAX_BATCH` heights: those right above the cursor.
pub proof fn lemma_long_gap_fills_batch(state: IndexerView, tip: i32)
    requires
        state.wf(),
        state.phase == Phase::FetchingTip,
        tip - state.last_processed_height > MAX_BATCH,
    ensures
        batch_size(state.last_processed_height, tip as int) == MAX_BATCH,
        state.step(Event::Tip(tip)).0.phase == (Phase::Processing {
            next: (state.last_processed_height + 1) as i32,
            last: (state.last_processed_height + MAX_BATCH) as i32,
        }),
        after_deliveries(state.step(Event::Tip(tip)).0, MAX_BATCH as nat).last_processed_height
            == state.last_processed_height + MAX_BATCH,
{
    lemma_full_delivery_advances_cursor(state, tip);
}

} // verus!
