use gatling::fetcher::{BlockFetcher, BlockOutcome, FetchAction, FetchError, MAX_CONCURRENT};

/// Drives a fetch against a fake node that answers `answer(height)`, completing
/// outstanding queries in the order `pick` chooses. Returns the result and the
/// largest number of queries that were ever outstanding.
fn drive(
    heights: Vec<u64>,
    cap: usize,
    answer: impl Fn(u64) -> BlockOutcome<u64>,
    pick: impl Fn(&[u64], usize) -> usize,
) -> (Result<Vec<u64>, FetchError>, usize) {
    let mut fetcher = BlockFetcher::new(heights, cap);
    let mut outstanding: Vec<u64> = Vec::new();
    let mut peak = 0;
    let mut step = 0;
    loop {
        match fetcher.next_action() {
            FetchAction::Issue(h) => {
                outstanding.push(h);
                peak = peak.max(outstanding.len());
                assert_eq!(outstanding.len(), fetcher.in_flight_count());
            }
            FetchAction::AwaitCompletion => {
                let i = pick(&outstanding, step);
                step += 1;
                let h = outstanding.remove(i);
                assert!(fetcher.is_in_flight(h));
                match fetcher.complete(h, answer(h)) {
                    Ok(f) => fetcher = f,
                    Err(e) => return (Err(e), peak),
                }
            }
            FetchAction::Finished => return (Ok(fetcher.finish()), peak),
        }
    }
}

fn newest_first(v: &[u64], _: usize) -> usize {
    v.len() - 1
}

fn scattered(v: &[u64], step: usize) -> usize {
    (step * 7) % v.len()
}

#[test]
fn never_more_than_cap_in_flight() {
    for n in [0u64, 1, 49, 50, 51, 120, 333] {
        let (r, peak) = drive((0..n).collect(), MAX_CONCURRENT, BlockOutcome::Finalized, scattered);
        assert_eq!(r.unwrap().len(), n as usize);
        assert!(peak <= MAX_CONCURRENT);
        assert_eq!(peak, (n as usize).min(MAX_CONCURRENT));
    }
    let (_, peak) = drive((0..10).collect(), 3, BlockOutcome::Finalized, newest_first);
    assert_eq!(peak, 3);
}

#[test]
fn one_record_per_height() {
    let (r, _) = drive((100..150).collect(), MAX_CONCURRENT, BlockOutcome::Finalized, scattered);
    let mut blocks = r.unwrap();
    assert_eq!(blocks.len(), 50);
    blocks.sort();
    assert_eq!(blocks, (100..150).collect::<Vec<u64>>());
}

#[test]
fn results_come_in_completion_order() {
    let (r, _) = drive((1..=4).collect(), 4, BlockOutcome::Finalized, newest_first);
    assert_eq!(r.unwrap(), vec![4, 3, 2, 1]);
}

#[test]
fn repeated_heights_are_each_fetched() {
    let (r, _) = drive(vec![5, 5, 6], 2, BlockOutcome::Finalized, newest_first);
    let mut blocks = r.unwrap();
    blocks.sort();
    assert_eq!(blocks, vec![5, 5, 6]);
}

#[test]
fn pending_block_fails_whole_fetch() {
    let answer = |h: u64| if h == 137 { BlockOutcome::Pending } else { BlockOutcome::Finalized(h) };
    let (r, _) = drive((100..150).collect(), MAX_CONCURRENT, answer, scattered);
    assert_eq!(r, Err(FetchError::PendingBlockEncountered { height: 137 }));
}

#[test]
fn failed_query_fails_whole_fetch() {
    let answer = |h: u64| {
        if h == 3 {
            BlockOutcome::Failed("connection reset".to_string())
        } else {
            BlockOutcome::Finalized(h)
        }
    };
    let (r, _) = drive((0..80).collect(), 10, answer, scattered);
    assert_eq!(
        r,
        Err(FetchError::UnderlyingQueryFailed { height: 3, cause: "connection reset".to_string() })
    );
}

#[test]
fn empty_range_finishes_at_once() {
    let mut fetcher: BlockFetcher<u64> = BlockFetcher::new(Vec::new(), MAX_CONCURRENT);
    assert_eq!(fetcher.next_action(), FetchAction::Finished);
    assert!(fetcher.finish().is_empty());
}

#[test]
fn waits_when_cap_is_reached() {
    let mut fetcher: BlockFetcher<u64> = BlockFetcher::new(vec![10, 11, 12], 2);
    assert_eq!(fetcher.next_action(), FetchAction::Issue(10));
    assert_eq!(fetcher.next_action(), FetchAction::Issue(11));
    assert_eq!(fetcher.next_action(), FetchAction::AwaitCompletion);
    let mut fetcher = fetcher.complete(11, BlockOutcome::Finalized(11)).unwrap();
    assert!(!fetcher.is_in_flight(11));
    assert_eq!(fetcher.next_action(), FetchAction::Issue(12));
}
