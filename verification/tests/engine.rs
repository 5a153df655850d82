use clipshare::{
    process_msg, FlushCycle, ShortCode, StorageEvent, StorageOp, ViewMsg, ViewStore, Views,
    WorkerAction,
};

fn drain(store: &mut ViewStore) -> Vec<(String, u64)> {
    match process_msg(store, ViewMsg::Commit) {
        Some(snapshot) => snapshot
            .into_iter()
            .map(|(code, count)| (code.into_inner(), count))
            .collect(),
        None => panic!("a commit message must hand back a snapshot"),
    }
}

#[test]
fn accumulation_sums_per_key() {
    let mut store = ViewStore::new();
    let k = ShortCode::from_raw("abc123");
    let j = ShortCode::from_raw("zz9");
    store.add(&k, 3);
    store.add(&j, 1);
    store.add(&k, 2);
    let snapshot = drain(&mut store);
    assert_eq!(
        snapshot,
        vec![("abc123".to_string(), 5), ("zz9".to_string(), 1)]
    );
}

#[test]
fn zero_count_adds_nothing() {
    let mut store = ViewStore::new();
    store.add(&ShortCode::from_raw("abc123"), 0);
    assert!(store.is_empty());
    assert_eq!(store.len(), 0);
}

#[test]
fn drain_leaves_store_empty_and_returns_all() {
    let mut store = ViewStore::new();
    store.add(&ShortCode::from_raw("abc123"), 4);
    assert!(!store.is_empty());
    let snapshot = drain(&mut store);
    assert_eq!(snapshot, vec![("abc123".to_string(), 4)]);
    assert!(store.is_empty());

    // An add that lands after the drain is in the refilled store, not lost.
    store.add(&ShortCode::from_raw("abc123"), 1);
    let snapshot = drain(&mut store);
    assert_eq!(snapshot, vec![("abc123".to_string(), 1)]);
}

#[test]
fn ingress_never_blocks_without_a_worker() {
    // Nothing ever reads the worker end here, standing in for a storage
    // layer that is stalled for good: every enqueue must still return.
    let (views, _worker) = Views::new();
    for _ in 0..1000 {
        assert!(views.view(ShortCode::from_raw("abc123"), 1));
    }
}

#[test]
fn recorded_views_reach_the_worker() {
    let (views, worker) = Views::new();
    let mut store = ViewStore::new();

    assert!(views.view(ShortCode::from_raw("abc123"), 2));
    assert!(views.view(ShortCode::from_raw("zz9"), 1));

    assert!(matches!(
        worker.listen_once(&mut store),
        WorkerAction::Continue
    ));
    assert!(matches!(
        worker.listen_once(&mut store),
        WorkerAction::Continue
    ));

    let snapshot = drain(&mut store);
    assert_eq!(
        snapshot,
        vec![("abc123".to_string(), 2), ("zz9".to_string(), 1)]
    );
}

#[test]
fn idle_window_orders_flush() {
    // No message arrives at all, so one idle window passes: the worker must
    // order a flush to itself, and the order must arrive as a commit that
    // opens a (here empty) flush cycle.
    let (_views, worker) = Views::new();
    let mut store = ViewStore::new();

    assert!(matches!(
        worker.listen_once(&mut store),
        WorkerAction::SelfFlush
    ));
    match worker.listen_once(&mut store) {
        WorkerAction::StartFlush(snapshot) => assert!(snapshot.is_empty()),
        other => panic!("the self-ordered commit must start a flush, got {:?}", other),
    }
}

#[test]
fn end_to_end_scenario() {
    let (views, worker) = Views::new();
    let mut store = ViewStore::new();

    for _ in 0..3 {
        assert!(views.view(ShortCode::from_raw("abc123"), 1));
    }
    assert!(views.view(ShortCode::from_raw("zz9"), 1));
    for _ in 0..4 {
        assert!(matches!(
            worker.listen_once(&mut store),
            WorkerAction::Continue
        ));
    }

    let snapshot = match process_msg(&mut store, ViewMsg::Commit) {
        Some(snapshot) => snapshot,
        None => panic!("a commit message must hand back a snapshot"),
    };
    assert!(store.is_empty());

    let mut cycle = FlushCycle::start(snapshot);
    let mut log: Vec<String> = Vec::new();
    loop {
        match cycle.next_op() {
            StorageOp::Begin => {
                log.push("BEGIN".to_string());
                cycle.apply(StorageEvent::BeginOk);
            }
            StorageOp::Increase(code, count) => {
                log.push(format!("INCREASE {} {}", code.as_str(), count));
                cycle.apply(StorageEvent::IncreaseOk);
            }
            StorageOp::Commit => {
                log.push("COMMIT".to_string());
                cycle.apply(StorageEvent::CommitOk);
            }
            StorageOp::Finished => break,
        }
    }
    assert_eq!(
        log,
        vec![
            "BEGIN".to_string(),
            "INCREASE abc123 3".to_string(),
            "INCREASE zz9 1".to_string(),
            "COMMIT".to_string(),
        ]
    );
    assert!(cycle.was_committed());
    assert_eq!(cycle.key_failure_count(), 0);
}

#[test]
fn partial_failure_scenario() {
    let mut store = ViewStore::new();
    store.add(&ShortCode::from_raw("missing"), 2);
    store.add(&ShortCode::from_raw("ok"), 5);
    let snapshot = store.drain_all();

    let mut cycle = FlushCycle::start(snapshot);
    let mut persisted: Vec<(String, u64)> = Vec::new();
    loop {
        match cycle.next_op() {
            StorageOp::Begin => cycle.apply(StorageEvent::BeginOk),
            StorageOp::Increase(code, count) => {
                if code.as_str() == "missing" {
                    cycle.apply(StorageEvent::IncreaseFailed);
                } else {
                    persisted.push((code.into_inner(), count));
                    cycle.apply(StorageEvent::IncreaseOk);
                }
            }
            StorageOp::Commit => cycle.apply(StorageEvent::CommitOk),
            StorageOp::Finished => break,
        }
    }
    assert_eq!(persisted, vec![("ok".to_string(), 5)]);
    assert!(cycle.was_committed());
    assert_eq!(cycle.key_failure_count(), 1);
}

#[test]
fn begin_failure_loses_the_cycle_but_ends_it() {
    let mut store = ViewStore::new();
    store.add(&ShortCode::from_raw("abc123"), 1);
    let mut cycle = FlushCycle::start(store.drain_all());

    assert!(matches!(cycle.next_op(), StorageOp::Begin));
    cycle.apply(StorageEvent::BeginFailed);
    assert!(cycle.is_done());
    assert!(!cycle.was_committed());
    assert!(matches!(cycle.next_op(), StorageOp::Finished));
}

#[test]
fn commit_failure_ends_uncommitted() {
    let mut store = ViewStore::new();
    store.add(&ShortCode::from_raw("abc123"), 1);
    let mut cycle = FlushCycle::start(store.drain_all());

    cycle.apply(StorageEvent::BeginOk);
    assert!(matches!(cycle.next_op(), StorageOp::Increase(_, 1)));
    cycle.apply(StorageEvent::IncreaseOk);
    cycle.apply(StorageEvent::CommitFailed);
    assert!(cycle.is_done());
    assert!(!cycle.was_committed());
}
