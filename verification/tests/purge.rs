use mail_services::housekeeper::event::PurgeType;
use mail_services::housekeeper::purge::{
    lock_of, op_of, BackendOp, LockOutcome, PurgeCommand, PurgePhase, PurgeReply, PurgeTask,
    KV_LOCK_HOUSEKEEPER, LOCK_TTL,
};

#[test]
fn lock_keys_are_a_tag_and_the_store_index() {
    assert_eq!(lock_of(&PurgeType::Data(9), 0), ("data", Some(vec![0, 0, 0, 0, 0])));
    assert_eq!(
        lock_of(&PurgeType::Blobs { store: 1, blob_store: 2 }, 0x0102_0304),
        ("blob", Some(vec![1, 1, 2, 3, 4]))
    );
    assert_eq!(
        lock_of(&PurgeType::Lookup { store: 1, prefix: None }, u32::MAX),
        ("in-memory", Some(vec![2, 255, 255, 255, 255]))
    );
    assert_eq!(
        lock_of(&PurgeType::Lookup { store: 1, prefix: Some(vec![7]) }, 3),
        ("in-memory-prefix", None)
    );
    assert_eq!(lock_of(&PurgeType::Account(None), 3), ("account", None));
    assert_eq!(lock_of(&PurgeType::Account(Some(1)), 3), ("account", None));
    assert_eq!(lock_of(&PurgeType::Data(9), 258).1, Some(258u32.to_be_bytes().iter().fold(vec![0u8], |mut k, b| { k.push(*b); k })));
    assert_eq!(LOCK_TTL, 3600);
}

#[test]
fn each_purge_has_its_backend_operation() {
    assert_eq!(op_of(&PurgeType::Data(4)), BackendOp::PurgeStore { store: 4 });
    assert_eq!(
        op_of(&PurgeType::Blobs { store: 4, blob_store: 5 }),
        BackendOp::PurgeBlobs { store: 4, blob_store: 5 }
    );
    assert_eq!(
        op_of(&PurgeType::Lookup { store: 6, prefix: None }),
        BackendOp::PurgeInMemory { store: 6 }
    );
    assert_eq!(
        op_of(&PurgeType::Lookup { store: 6, prefix: Some(vec![1, 2, 3]) }),
        BackendOp::DeletePrefix { store: 6, prefix: vec![1, 2, 3] }
    );
    assert_eq!(op_of(&PurgeType::Account(Some(8))), BackendOp::PurgeAccount { account_id: 8 });
    assert_eq!(op_of(&PurgeType::Account(None)), BackendOp::PurgeAccounts);
}

#[test]
fn replicas_race_the_data_purge() {
    let try_lock = PurgeCommand::TryLock {
        namespace: KV_LOCK_HOUSEKEEPER,
        key: vec![0, 0, 0, 0, 0],
        ttl: 3600,
    };

    // Replica A gets the lock.
    let mut a = PurgeTask::new(PurgeType::Data(1), 0);
    assert_eq!(a.label(), "data");
    assert_eq!(a.next(PurgeReply::Begin, 100), vec![try_lock.clone()]);
    assert_eq!(
        a.next(PurgeReply::Lock(LockOutcome::Acquired), 110),
        vec![
            PurgeCommand::ReportStarted { store_idx: 0 },
            PurgeCommand::Run(BackendOp::PurgeStore { store: 1 }),
        ]
    );
    assert_eq!(a.phase, PurgePhase::Running { since: 110 });
    assert_eq!(
        a.next(PurgeReply::Ran { failed: false }, 350),
        vec![
            PurgeCommand::ReportFinished { store_idx: 0, elapsed: 240 },
            PurgeCommand::RemoveLock { namespace: KV_LOCK_HOUSEKEEPER, key: vec![0, 0, 0, 0, 0] },
        ]
    );
    assert!(!a.is_done());
    assert_eq!(a.next(PurgeReply::Unlocked { failed: false }, 360), vec![]);
    assert!(a.is_done());

    // Replica B does not.
    let mut b = PurgeTask::new(PurgeType::Data(1), 0);
    assert_eq!(b.next(PurgeReply::Begin, 101), vec![try_lock]);
    assert_eq!(b.next(PurgeReply::Lock(LockOutcome::Held), 111), vec![PurgeCommand::ReportInProgress]);
    assert!(b.is_done());
    assert_eq!(b.next(PurgeReply::Ran { failed: false }, 120), vec![]);
}

#[test]
fn a_failing_lock_store_skips_the_purge() {
    let mut task = PurgeTask::new(PurgeType::Blobs { store: 1, blob_store: 2 }, 7);
    task.next(PurgeReply::Begin, 0);
    assert_eq!(
        task.next(PurgeReply::Lock(LockOutcome::Failed), 1),
        vec![PurgeCommand::ReportLockFailed]
    );
    assert!(task.is_done());
}

#[test]
fn account_purges_take_no_lock() {
    let mut task = PurgeTask::new(PurgeType::Account(Some(12)), 0);
    assert_eq!(
        task.next(PurgeReply::Begin, 5),
        vec![
            PurgeCommand::ReportStarted { store_idx: 0 },
            PurgeCommand::Run(BackendOp::PurgeAccount { account_id: 12 }),
        ]
    );
    assert_eq!(
        task.next(PurgeReply::Ran { failed: false }, 9),
        vec![PurgeCommand::ReportFinished { store_idx: 0, elapsed: 4 }]
    );
    assert!(task.is_done());
}

#[test]
fn backend_errors_are_reported_and_the_lock_is_released() {
    let mut task = PurgeTask::new(PurgeType::Lookup { store: 3, prefix: None }, 2);
    task.next(PurgeReply::Begin, 0);
    task.next(PurgeReply::Lock(LockOutcome::Acquired), 0);
    assert_eq!(
        task.next(PurgeReply::Ran { failed: true }, 10),
        vec![
            PurgeCommand::ReportFailed,
            PurgeCommand::ReportFinished { store_idx: 2, elapsed: 10 },
            PurgeCommand::RemoveLock { namespace: KV_LOCK_HOUSEKEEPER, key: vec![2, 0, 0, 0, 2] },
        ]
    );
    assert_eq!(
        task.next(PurgeReply::Unlocked { failed: true }, 11),
        vec![PurgeCommand::ReportUnlockFailed]
    );
    assert!(task.is_done());
}

#[test]
fn replies_out_of_turn_change_nothing() {
    let mut task = PurgeTask::new(PurgeType::Data(1), 0);
    assert_eq!(task.next(PurgeReply::Ran { failed: false }, 0), vec![]);
    assert_eq!(task.next(PurgeReply::Lock(LockOutcome::Acquired), 0), vec![]);
    assert_eq!(task.phase, PurgePhase::Ready);
    task.next(PurgeReply::Begin, 0);
    assert_eq!(task.next(PurgeReply::Begin, 0), vec![]);
    assert_eq!(task.phase, PurgePhase::Locking);
}

#[test]
fn elapsed_time_is_zero_if_the_clock_went_back() {
    let mut task = PurgeTask::new(PurgeType::Account(None), 0);
    task.next(PurgeReply::Begin, 50);
    assert_eq!(
        task.next(PurgeReply::Ran { failed: false }, 40),
        vec![PurgeCommand::ReportFinished { store_idx: 0, elapsed: 0 }]
    );
}
