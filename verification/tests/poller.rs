use utxo_indexer::address::Network;
use utxo_indexer::error::IndexerError;
use utxo_indexer::indexer::{Action, BitcoinIndexer, Event, Phase, MAX_BATCH};

fn started(start_height: i32, chain_height: i32) -> BitcoinIndexer {
    BitcoinIndexer::new(Network::Regtest, "http://sink/hook", start_height, chain_height).unwrap()
}

/// Runs one tick against a chain with its tip at `tip`; the processing of
/// the heights in `failing` fails. Returns the heights that were asked for.
fn tick(indexer: &mut BitcoinIndexer, tip: Option<i32>, failing: &[i32]) -> Vec<i32> {
    let mut asked = Vec::new();
    let mut action = indexer.run(Event::Wake);
    loop {
        let event = match action {
            Action::FetchTip => match tip {
                Some(height) => Event::Tip(height),
                None => Event::Failed,
            },
            Action::Process(height) => {
                asked.push(height);
                if failing.contains(&height) {
                    Event::Failed
                } else {
                    Event::Delivered
                }
            }
            Action::Sleep => return asked,
        };
        action = indexer.run(event);
    }
}

#[test]
fn new_indexer_starts_below_its_starting_height() {
    let indexer = started(0, 10);
    assert_eq!(indexer.last_processed_height(), -1);
    assert_eq!(indexer.start_height(), 0);
    assert_eq!(indexer.phase(), Phase::Idle);
    assert_eq!(indexer.network(), Network::Regtest);
    assert_eq!(indexer.webhook_url(), "http://sink/hook");
    let indexer = started(7, 7);
    assert_eq!(indexer.last_processed_height(), 6);
    assert_eq!(indexer.start_height(), 7);
    let indexer = started(i32::MAX, i32::MAX);
    assert_eq!(indexer.last_processed_height(), i32::MAX - 1);
}

#[test]
fn start_above_tip_is_refused() {
    let tip = 100;
    match BitcoinIndexer::new(Network::Regtest, "http://sink/hook", tip + 1, tip) {
        Err(IndexerError::InvalidStartBlock(msg)) => {
            assert_eq!(msg, "Start block 101 is invalid. Chain height is 100")
        }
        other => panic!("expected an invalid start block, got {:?}", other),
    }
}

#[test]
fn negative_start_is_refused() {
    match BitcoinIndexer::new(Network::Bitcoin, "http://sink/hook", -1, 5) {
        Err(IndexerError::InvalidStartBlock(msg)) => {
            assert_eq!(msg, "Start block -1 is invalid. Chain height is 5")
        }
        other => panic!("expected an invalid start block, got {:?}", other),
    }
    match BitcoinIndexer::new(Network::Bitcoin, "http://sink/hook", i32::MIN, -3) {
        Err(IndexerError::InvalidStartBlock(msg)) => {
            assert_eq!(msg, "Start block -2147483648 is invalid. Chain height is -3")
        }
        other => panic!("expected an invalid start block, got {:?}", other),
    }
    assert!(BitcoinIndexer::new(Network::Bitcoin, "http://sink/hook", 0, -1).is_err());
}

#[test]
fn tick_processes_heights_in_order_and_advances() {
    let mut indexer = started(0, 3);
    let asked = tick(&mut indexer, Some(3), &[]);
    assert_eq!(asked, vec![0, 1, 2, 3]);
    assert_eq!(indexer.last_processed_height(), 3);
    assert_eq!(indexer.phase(), Phase::Sleeping);
}

#[test]
fn tick_with_nothing_new_changes_nothing() {
    let mut indexer = started(4, 10);
    assert_eq!(tick(&mut indexer, Some(3), &[]), Vec::<i32>::new());
    assert_eq!(indexer.last_processed_height(), 3);
    assert_eq!(tick(&mut indexer, Some(-5), &[]), Vec::<i32>::new());
    assert_eq!(indexer.last_processed_height(), 3);
    assert_eq!(indexer.phase(), Phase::Sleeping);
}

#[test]
fn long_gap_is_processed_in_batches_of_max_batch() {
    assert_eq!(MAX_BATCH, 200);
    let mut indexer = started(0, 1000);
    let asked = tick(&mut indexer, Some(1000), &[]);
    assert_eq!(asked, (0..200).collect::<Vec<i32>>());
    assert_eq!(indexer.last_processed_height(), 199);
    let asked = tick(&mut indexer, Some(400), &[]);
    assert_eq!(asked, (200..400).collect::<Vec<i32>>());
    assert_eq!(indexer.last_processed_height(), 399);
    let asked = tick(&mut indexer, Some(400), &[]);
    assert_eq!(asked, vec![400]);
    assert_eq!(indexer.last_processed_height(), 400);
}

/// The number of heights in the batch that a tick begins with the cursor
/// at 9 and the tip at `tip`.
fn batch_at_cursor_nine(tip: i32) -> i32 {
    let mut indexer = started(10, 1000);
    assert_eq!(indexer.run(Event::Wake), Action::FetchTip);
    match indexer.run(Event::Tip(tip)) {
        Action::Process(first) => {
            assert_eq!(first, 10);
            match indexer.phase() {
                Phase::Processing { next, last } => {
                    assert_eq!(next, 10);
                    last - next + 1
                }
                other => panic!("expected a batch, got {:?}", other),
            }
        }
        Action::Sleep => {
            assert_eq!(indexer.phase(), Phase::Sleeping);
            0
        }
        Action::FetchTip => panic!("the tip was given"),
    }
}

#[test]
fn batch_size_follows_the_distance_to_the_tip() {
    assert_eq!(batch_at_cursor_nine(9), 0);
    assert_eq!(batch_at_cursor_nine(8), 0);
    assert_eq!(batch_at_cursor_nine(10), 1);
    assert_eq!(batch_at_cursor_nine(209), 200);
    assert_eq!(batch_at_cursor_nine(208), 199);
    assert_eq!(batch_at_cursor_nine(210), 200);
    assert_eq!(batch_at_cursor_nine(i32::MAX), 200);
    assert_eq!(batch_at_cursor_nine(i32::MIN), 0);
    let mut fresh = started(0, 0);
    fresh.run(Event::Wake);
    assert_eq!(fresh.run(Event::Tip(i32::MAX)), Action::Process(0));
    assert_eq!(fresh.phase(), Phase::Processing { next: 0, last: 199 });
}

#[test]
fn failed_delivery_keeps_the_cursor_and_is_retried() {
    let height = 42;
    let mut indexer = started(height, 50);
    let asked = tick(&mut indexer, Some(50), &[height]);
    assert_eq!(asked, vec![height]);
    assert_eq!(indexer.last_processed_height(), height - 1);
    assert_eq!(indexer.phase(), Phase::Sleeping);
    let asked = tick(&mut indexer, Some(50), &[]);
    assert_eq!(asked, (height..=50).collect::<Vec<i32>>());
    assert_eq!(indexer.last_processed_height(), 50);
}

#[test]
fn failure_in_the_middle_of_a_batch_discards_the_batch() {
    let mut indexer = started(0, 9);
    let asked = tick(&mut indexer, Some(9), &[5]);
    assert_eq!(asked, vec![0, 1, 2, 3, 4, 5]);
    assert_eq!(indexer.last_processed_height(), -1);
    let asked = tick(&mut indexer, Some(9), &[9]);
    assert_eq!(asked, (0..=9).collect::<Vec<i32>>());
    assert_eq!(indexer.last_processed_height(), -1);
    let asked = tick(&mut indexer, Some(9), &[]);
    assert_eq!(asked, (0..=9).collect::<Vec<i32>>());
    assert_eq!(indexer.last_processed_height(), 9);
}

#[test]
fn failure_to_read_the_tip_ends_the_tick() {
    let mut indexer = started(3, 9);
    assert_eq!(tick(&mut indexer, None, &[]), Vec::<i32>::new());
    assert_eq!(indexer.last_processed_height(), 2);
    assert_eq!(indexer.phase(), Phase::Sleeping);
}

#[test]
fn cursor_never_moves_back() {
    let mut indexer = started(5, 100);
    let tips = [Some(20), Some(3), None, Some(20), Some(700), Some(0), Some(701)];
    let failing = [25, 300];
    let mut before = indexer.last_processed_height();
    for tip in tips {
        tick(&mut indexer, tip, &failing);
        assert!(indexer.last_processed_height() >= before);
        before = indexer.last_processed_height();
    }
    assert_eq!(before, 20);
}

#[test]
fn steps_of_one_tick() {
    let mut indexer = started(0, 1);
    assert_eq!(indexer.awaited(), Action::Sleep);
    assert_eq!(indexer.run(Event::Wake), Action::FetchTip);
    assert_eq!(indexer.phase(), Phase::FetchingTip);
    assert_eq!(indexer.run(Event::Tip(1)), Action::Process(0));
    assert_eq!(indexer.phase(), Phase::Processing { next: 0, last: 1 });
    assert_eq!(indexer.last_processed_height(), -1);
    assert_eq!(indexer.run(Event::Delivered), Action::Process(1));
    assert_eq!(indexer.phase(), Phase::Processing { next: 1, last: 1 });
    assert_eq!(indexer.last_processed_height(), -1);
    assert_eq!(indexer.run(Event::Delivered), Action::Sleep);
    assert_eq!(indexer.phase(), Phase::Sleeping);
    assert_eq!(indexer.last_processed_height(), 1);
    assert_eq!(indexer.run(Event::Wake), Action::FetchTip);
}

#[test]
fn unawaited_events_change_nothing() {
    let mut indexer = started(0, 5);
    assert_eq!(indexer.run(Event::Delivered), Action::Sleep);
    assert_eq!(indexer.run(Event::Tip(5)), Action::Sleep);
    assert_eq!(indexer.run(Event::Failed), Action::Sleep);
    assert_eq!(indexer.phase(), Phase::Idle);
    assert_eq!(indexer.run(Event::Wake), Action::FetchTip);
    assert_eq!(indexer.run(Event::Wake), Action::FetchTip);
    assert_eq!(indexer.run(Event::Delivered), Action::FetchTip);
    assert_eq!(indexer.phase(), Phase::FetchingTip);
    assert_eq!(indexer.run(Event::Tip(5)), Action::Process(0));
    assert_eq!(indexer.run(Event::Tip(9)), Action::Process(0));
    assert_eq!(indexer.run(Event::Wake), Action::Process(0));
    assert_eq!(indexer.phase(), Phase::Processing { next: 0, last: 5 });
    assert_eq!(indexer.last_processed_height(), -1);
}

#[test]
fn batch_at_the_top_of_the_height_range() {
    let mut indexer = started(i32::MAX - 1, i32::MAX);
    let asked = tick(&mut indexer, Some(i32::MAX), &[]);
    assert_eq!(asked, vec![i32::MAX - 1, i32::MAX]);
    assert_eq!(indexer.last_processed_height(), i32::MAX);
    assert_eq!(tick(&mut indexer, Some(i32::MAX), &[]), Vec::<i32>::new());
}
