//! The steps of one purge: take the lock where the purge has one, report
//! the start, run the operation on the backend, report the end, release the
//! lock.
//!
//! A purge task decides; its driver acts. The driver calls `PurgeTask::next`
//! with `Begin`, carries out the commands that come back, and answers each
//! `TryLock`, `Run` and `RemoveLock` with the matching reply, until the task
//! is done.
use vstd::prelude::*;
use super::event::{PurgeType, PurgeTypeView};

verus! {

/// The namespace of the housekeeper's locks in the shared key-value store.
pub const KV_LOCK_HOUSEKEEPER: u8 = 24;

/// How long a lock is held at most, in seconds. A holder that crashed loses
/// the lock after this time.
pub const LOCK_TTL: u64 = 3600;

/// The four bytes of `v`, most significant first.
pub open spec fn be_bytes(v: u32) -> Seq<u8> {
    seq![
        (v / 0x100_0000) as u8,
        ((v / 0x1_0000) % 0x100) as u8,
        ((v / 0x100) % 0x100) as u8,
        (v % 0x100) as u8,
    ]
}

/// The name under which a purge is reported.
pub open spec fn lock_label(purge: PurgeTypeView) -> Seq<char> {
    match purge {
        PurgeTypeView::Data(_) => "data"@,
        PurgeTypeView::Blobs { .. } => "blob"@,
        PurgeTypeView::Lookup { prefix: None, .. } => "in-memory"@,
        PurgeTypeView::Lookup { prefix: Some(_), .. } => "in-memory-prefix"@,
        PurgeTypeView::Account(_) => "account"@,
    }
}

/// The key of the lock that a purge takes: one byte for what is purged, then
/// the index of the store. A purge of a key prefix or of accounts takes no
/// lock.
pub open spec fn lock_key(purge: PurgeTypeView, store_idx: u32) -> Option<Seq<u8>> {
    match purge {
        PurgeTypeView::Data(_) => Some(seq![0u8] + be_bytes(store_idx)),
        PurgeTypeView::Blobs { .. } => Some(seq![1u8] + be_bytes(store_idx)),
        PurgeTypeView::Lookup { prefix: None, .. } => Some(seq![2u8] + be_bytes(store_idx)),
        PurgeTypeView::Lookup { prefix: Some(_), .. } => None,
        PurgeTypeView::Account(_) => None,
    }
}

/// The view of an optional byte string.
pub open spec fn bytes_view(bytes: Option<Vec<u8>>) -> Option<Seq<u8>> {
    match bytes {
        Some(b) => Some(b@),
        None => None,
    }
}

fn key_bytes(tag: u8, store_idx: u32) -> (key: Vec<u8>)
    ensures
        key@ == seq![tag] + be_bytes(store_idx),
{
    let mut key: Vec<u8> = Vec::new();
    key.push(tag);
    key.push((store_idx / 0x100_0000) as u8);
    key.push(((store_idx / 0x1_0000) % 0x100) as u8);
    key.push(((store_idx / 0x100) % 0x100) as u8);
    key.push((store_idx % 0x100) as u8);
    assert(key@ =~= seq![tag] + be_bytes(store_idx));
    key
}

/// The label and the lock key of a purge.
pub fn lock_of(purge: &PurgeType, store_idx: u32) -> (lock: (&'static str, Option<Vec<u8>>))
    ensures
        lock.0@ == lock_label(purge@),
        bytes_view(lock.1) == lock_key(purge@, store_idx),
{
    match purge {
        PurgeType::Data(_) => ("data", Some(key_bytes(0, store_idx))),
        PurgeType::Blobs { .. } => ("blob", Some(key_bytes(1, store_idx))),
        PurgeType::Lookup { prefix: None, .. } => ("in-memory", Some(key_bytes(2, store_idx))),
        PurgeType::Lookup { .. } => ("in-memory-prefix", None),
        PurgeType::Account(_) => ("account", None),
    }
}

/// The operation that a purge runs on the backend.
#[derive(Debug, Clone, PartialEq, Eq)]
pub enum BackendOp {
    /// Purge a data store.
    PurgeStore { store: u32 },
    /// Purge the blobs of a blob store through a data store.
    PurgeBlobs { store: u32, blob_store: u32 },
    /// Purge an in-memory store.
    PurgeInMemory { store: u32 },
    /// Delete the keys of an in-memory store that start with the prefix.
    DeletePrefix { store: u32, prefix: Vec<u8> },
    /// Purge one account.
    PurgeAccount { account_id: u32 },
    /// Purge every account that has expired.
    PurgeAccounts,
}

/// A `BackendOp` as a mathematical value.
pub enum BackendOpView {
    PurgeStore { store: u32 },
    PurgeBlobs { store: u32, blob_store: u32 },
    PurgeInMemory { store: u32 },
    DeletePrefix { store: u32, prefix: Seq<u8> },
    PurgeAccount { account_id: u32 },
    PurgeAccounts,
}

impl View for BackendOp {
    type V = BackendOpView;

    open spec fn view(&self) -> BackendOpView {
        match self {
            BackendOp::PurgeStore { store } => BackendOpView::PurgeStore { store: *store },
            BackendOp::PurgeBlobs { store, blob_store } => BackendOpView::PurgeBlobs {
                store: *store,
                blob_store: *blob_store,
            },
            BackendOp::PurgeInMemory { store } => BackendOpView::PurgeInMemory { store: *store },
            BackendOp::DeletePrefix { store, prefix } => BackendOpView::DeletePrefix {
                store: *store,
                prefix: prefix@,
            },
            BackendOp::PurgeAccount { account_id } => BackendOpView::PurgeAccount {
                account_id: *account_id,
            },
            BackendOp::PurgeAccounts => BackendOpView::PurgeAccounts,
        }
    }
}

/// The backend operation of each purge.
pub open spec fn backend_op(purge: PurgeTypeView) -> BackendOpView {
    match purge {
        PurgeTypeView::Data(store) => BackendOpView::PurgeStore { store },
        PurgeTypeView::Blobs { store, blob_store } => BackendOpView::PurgeBlobs {
            store,
            blob_store,
        },
        PurgeTypeView::Lookup { store, prefix: None } => BackendOpView::PurgeInMemory { store },
        PurgeTypeView::Lookup { store, prefix: Some(p) } => BackendOpView::DeletePrefix {
            store,
            prefix: p,
        },
        PurgeTypeView::Account(Some(account_id)) => BackendOpView::PurgeAccount { account_id },
        PurgeTypeView::Account(None) => BackendOpView::PurgeAccounts,
    }
}

fn copy_bytes(bytes: &Vec<u8>) -> (copy: Vec<u8>)
    ensures
        copy@ == bytes@,
{
    let mut copy: Vec<u8> = Vec::new();
    let mut i: usize = 0;
    while i < bytes.len()
        invariant
            i <= bytes@.len(),
            copy@ == bytes@.take(i as int),
        decreases bytes@.len() - i,
    {
        copy.push(bytes[i]);
        assert(bytes@.take(i as int + 1) =~= bytes@.take(i as int).push(bytes@[i as int]));
        i += 1;
    }
    assert(bytes@.take(i as int) =~= bytes@);
    copy
}

/// The backend operation of a purge.
pub fn op_of(purge: &PurgeType) -> (op: BackendOp)
    ensures
        op@ == backend_op(purge@),
{
    match purge {
        PurgeType::Data(store) => BackendOp::PurgeStore { store: *store },
        PurgeType::Blobs { store, blob_store } => BackendOp::PurgeBlobs {
            store: *store,
            blob_store: *blob_store,
        },
        PurgeType::Lookup { store, prefix: None } => BackendOp::PurgeInMemory { store: *store },
        PurgeType::Lookup { store, prefix: Some(p) } => BackendOp::DeletePrefix {
            store: *store,
            prefix: copy_bytes(p),
        },
        PurgeType::Account(Some(account_id)) => BackendOp::PurgeAccount {
            account_id: *account_id,
        },
        PurgeType::Account(None) => BackendOp::PurgeAccounts,
    }
}

/// What came of an attempt to take the lock.
#[derive(Debug, Clone, Copy, PartialEq, Eq, Structural)]
pub enum LockOutcome {
    /// The lock is ours.
    Acquired,
    /// Another holder has it: the purge runs elsewhere.
    Held,
    /// The store failed.
    Failed,
}

/// What the driver tells a purge task.
#[derive(Debug, Clone, Copy, PartialEq, Eq, Structural)]
pub enum PurgeReply {
    /// Start the task.
    Begin,
    /// The answer to `TryLock`.
    Lock(LockOutcome),
    /// The answer to `Run`: the operation returned, with or without an
    /// error.
    Ran { failed: bool },
    /// The answer to `RemoveLock`.
    Unlocked { failed: bool },
}

/// How far a purge task has come.
#[derive(Debug, Clone, Copy, PartialEq, Eq, Structural)]
pub enum PurgePhase {
    /// Not started.
    Ready,
    /// Waiting for the answer to `TryLock`.
    Locking,
    /// Waiting for the answer to `Run`. Started at the given instant.
    Running { since: u64 },
    /// Waiting for the answer to `RemoveLock`.
    Unlocking,
    /// Nothing is left to do.
    Done,
}

/// What a purge task asks its driver to do.
#[derive(Debug, Clone, PartialEq, Eq)]
pub enum PurgeCommand {
    /// Try to take the lock, then reply with `Lock`.
    TryLock { namespace: u8, key: Vec<u8>, ttl: u64 },
    /// Report that the purge runs elsewhere.
    ReportInProgress,
    /// Report that the lock could not be asked for.
    ReportLockFailed,
    /// Report that the purge starts.
    ReportStarted { store_idx: u32 },
    /// Run the operation, then reply with `Ran`.
    Run(BackendOp),
    /// Report that the operation failed.
    ReportFailed,
    /// Report that the purge has ended, and how long it took.
    ReportFinished { store_idx: u32, elapsed: u64 },
    /// Release the lock, then reply with `Unlocked`.
    RemoveLock { namespace: u8, key: Vec<u8> },
    /// Report that the lock could not be released.
    ReportUnlockFailed,
}

/// A `PurgeCommand` as a mathematical value.
pub enum PurgeCommandView {
    TryLock { namespace: u8, key: Seq<u8>, ttl: u64 },
    ReportInProgress,
    ReportLockFailed,
    ReportStarted { store_idx: u32 },
    Run(BackendOpView),
    ReportFailed,
    ReportFinished { store_idx: u32, elapsed: u64 },
    RemoveLock { namespace: u8, key: Seq<u8> },
    ReportUnlockFailed,
}

impl View for PurgeCommand {
    type V = PurgeCommandView;

    open spec fn view(&self) -> PurgeCommandView {
        match self {
            PurgeCommand::TryLock { namespace, key, ttl } => PurgeCommandView::TryLock {
                namespace: *namespace,
                key: key@,
                ttl: *ttl,
            },
            PurgeCommand::ReportInProgress => PurgeCommandView::ReportInProgress,
            PurgeCommand::ReportLockFailed => PurgeCommandView::ReportLockFailed,
            PurgeCommand::ReportStarted { store_idx } => PurgeCommandView::ReportStarted {
                store_idx: *store_idx,
            },
            PurgeCommand::Run(op) => PurgeCommandView::Run(op@),
            PurgeCommand::ReportFailed => PurgeCommandView::ReportFailed,
            PurgeCommand::ReportFinished { store_idx, elapsed } => PurgeCommandView::ReportFinished {
                store_idx: *store_idx,
                elapsed: *elapsed,
            },
            PurgeCommand::RemoveLock { namespace, key } => PurgeCommandView::RemoveLock {
                namespace: *namespace,
                key: key@,
            },
            PurgeCommand::ReportUnlockFailed => PurgeCommandView::ReportUnlockFailed,
        }
    }
}

/// The commands of a list, as mathematical values in the same order.
pub open spec fn purge_command_views(commands: Seq<PurgeCommand>) -> Seq<PurgeCommandView> {
    commands.map_values(|c: PurgeCommand| c@)
}

/// The commands that start the operation at `now`.
pub open spec fn run_commands(purge: PurgeTypeView, store_idx: u32) -> Seq<PurgeCommandView> {
    seq![
        PurgeCommandView::ReportStarted { store_idx },
        PurgeCommandView::Run(backend_op(purge)),
    ]
}

/// Time passed from `since` to `now`, zero if the clock went back.
pub open spec fn elapsed(since: u64, now: u64) -> u64 {
    if now > since {
        (now - since) as u64
    } else {
        0
    }
}

/// The next phase of a purge and the commands, for a reply that comes at
/// `now`. A reply that the task does not wait for changes nothing.
pub open spec fn purge_step(
    purge: PurgeTypeView,
    store_idx: u32,
    phase: PurgePhase,
    reply: PurgeReply,
    now: u64,
) -> (PurgePhase, Seq<PurgeCommandView>) {
    match (phase, reply) {
        (PurgePhase::Ready, PurgeReply::Begin) => match lock_key(purge, store_idx) {
            Some(key) => (
                PurgePhase::Locking,
                seq![
                    PurgeCommandView::TryLock { namespace: KV_LOCK_HOUSEKEEPER, key, ttl: LOCK_TTL },
                ],
            ),
            None => (PurgePhase::Running { since: now }, run_commands(purge, store_idx)),
        },
        (PurgePhase::Locking, PurgeReply::Lock(LockOutcome::Acquired)) => (
            PurgePhase::Running { since: now },
            run_commands(purge, store_idx),
        ),
        (PurgePhase::Locking, PurgeReply::Lock(LockOutcome::Held)) => (
            PurgePhase::Done,
            seq![PurgeCommandView::ReportInProgress],
        ),
        (PurgePhase::Locking, PurgeReply::Lock(LockOutcome::Failed)) => (
            PurgePhase::Done,
            seq![PurgeCommandView::ReportLockFailed],
        ),
        (PurgePhase::Running { since }, PurgeReply::Ran { failed }) => {
            let reports = (if failed {
                seq![PurgeCommandView::ReportFailed]
            } else {
                Seq::<PurgeCommandView>::empty()
            }) + seq![PurgeCommandView::ReportFinished { store_idx, elapsed: elapsed(since, now) }];
            match lock_key(purge, store_idx) {
                Some(key) => (
                    PurgePhase::Unlocking,
                    reports + seq![
                        PurgeCommandView::RemoveLock { namespace: KV_LOCK_HOUSEKEEPER, key },
                    ],
                ),
                None => (PurgePhase::Done, reports),
            }
        },
        (PurgePhase::Unlocking, PurgeReply::Unlocked { failed }) => (
            PurgePhase::Done,
            if failed {
                seq![PurgeCommandView::ReportUnlockFailed]
            } else {
                Seq::<PurgeCommandView>::empty()
            },
        ),
        _ => (phase, Seq::<PurgeCommandView>::empty()),
    }
}

/// One purge, from the request to its end.
#[derive(Debug, Clone, PartialEq, Eq)]
pub struct PurgeTask {
    pub purge: PurgeType,
    pub store_idx: u32,
    pub phase: PurgePhase,
}

impl PurgeTask {
    /// A task that has not started.
    pub fn new(purge: PurgeType, store_idx: u32) -> (task: Self)
        ensures
            task.purge == purge,
            task.store_idx == store_idx,
            task.phase == PurgePhase::Ready,
    {
        PurgeTask { purge, store_idx, phase: PurgePhase::Ready }
    }

    /// The name under which the task is reported.
    pub fn label(&self) -> (label: &'static str)
        ensures
            label@ == lock_label(self.purge@),
    {
        lock_of(&self.purge, self.store_idx).0
    }

    /// Whether nothing is left to do.
    pub fn is_done(&self) -> (done: bool)
        ensures
            done == (self.phase == PurgePhase::Done),
    {
        self.phase == PurgePhase::Done
    }

    /// Takes a reply that comes at `now` and decides what to do next.
    pub fn next(&mut self, reply: PurgeReply, now: u64) -> (commands: Vec<PurgeCommand>)
        ensures
            final(self).purge == old(self).purge,
            final(self).store_idx == old(self).store_idx,
            final(self).phase == purge_step(
                old(self).purge@,
                old(self).store_idx,
                old(self).phase,
                reply,
                now,
            ).0,
            purge_command_views(commands@) == purge_step(
                old(self).purge@,
                old(self).store_idx,
                old(self).phase,
                reply,
                now,
            ).1,
    {
        let mut commands: Vec<PurgeCommand> = Vec::new();
        let (_, key) = lock_of(&self.purge, self.store_idx);
        match (self.phase, reply) {
            (PurgePhase::Ready, PurgeReply::Begin) => match key {
                Some(key) => {
                    self.phase = PurgePhase::Locking;
                    commands.push(
                        PurgeCommand::TryLock { namespace: KV_LOCK_HOUSEKEEPER, key, ttl: LOCK_TTL },
                    );
                },
                None => {
                    self.phase = PurgePhase::Running { since: now };
                    commands.push(PurgeCommand::ReportStarted { store_idx: self.store_idx });
                    commands.push(PurgeCommand::Run(op_of(&self.purge)));
                },
            },
            (PurgePhase::Locking, PurgeReply::Lock(LockOutcome::Acquired)) => {
                self.phase = PurgePhase::Running { since: now };
                commands.push(PurgeCommand::ReportStarted { store_idx: self.store_idx });
                commands.push(PurgeCommand::Run(op_of(&self.purge)));
            },
            (PurgePhase::Locking, PurgeReply::Lock(LockOutcome::Held)) => {
                self.phase = PurgePhase::Done;
                commands.push(PurgeCommand::ReportInProgress);
            },
            (PurgePhase::Locking, PurgeReply::Lock(LockOutcome::Failed)) => {
                self.phase = PurgePhase::Done;
                commands.push(PurgeCommand::ReportLockFailed);
            },
            (PurgePhase::Running { since }, PurgeReply::Ran { failed }) => {
                if failed {
                    commands.push(PurgeCommand::ReportFailed);
                }
                commands.push(
                    PurgeCommand::ReportFinished {
                        store_idx: self.store_idx,
                        elapsed: now.saturating_sub(since),
                    },
                );
                match key {
                    Some(key) => {
                        self.phase = PurgePhase::Unlocking;
                        commands.push(
                            PurgeCommand::RemoveLock { namespace: KV_LOCK_HOUSEKEEPER, key },
                        );
                    },
                    None => {
                        self.phase = PurgePhase::Done;
                    },
                }
            },
            (PurgePhase::Unlocking, PurgeReply::Unlocked { failed }) => {
                self.phase = PurgePhase::Done;
                if failed {
                    commands.push(PurgeCommand::ReportUnlockFailed);
                }
            },
            _ => {},
        }
        assert(purge_command_views(commands@) =~= purge_step(
            old(self).purge@,
            old(self).store_idx,
            old(self).phase,
            reply,
            now,
        ).1);
        commands
    }
}

/// A purge releases the lock if and only if it took one and ran: a task
/// that was refused the lock never asks to release it, and a task that ran
/// under a lock always does.
pub proof fn lemma_lock_released_iff_taken(
    purge: PurgeTypeView,
    store_idx: u32,
    phase: PurgePhase,
    reply: PurgeReply,
    now: u64,
)
    ensures
        (exists|i: int|
            0 <= i < purge_step(purge, store_idx, phase, reply, now).1.len() && (
            #[trigger] purge_step(purge, store_idx, phase, reply, now).1[i]) is RemoveLock) <==> (
        phase is Running && reply is Ran && lock_key(purge, store_idx) is Some),
{
    let commands = purge_step(purge, store_idx, phase, reply, now).1;
    if phase is Running && reply is Ran && lock_key(purge, store_idx) is Some {
        assert(commands[commands.len() - 1] is RemoveLock);
    }
}

/// The operation runs in two cases only: at the start, for a purge that
/// takes no lock, and when the lock has been acquired. A purge that was
/// refused the lock, or could not ask for it, never runs.
pub proof fn lemma_runs_only_under_lock(
    purge: PurgeTypeView,
    store_idx: u32,
    phase: PurgePhase,
    reply: PurgeReply,
    now: u64,
)
    ensures
        (exists|i: int|
            0 <= i < purge_step(purge, store_idx, phase, reply, now).1.len() && (
            #[trigger] purge_step(purge, store_idx, phase, reply, now).1[i]) is Run) <==> ((phase
            is Ready && reply is Begin && lock_key(purge, store_idx) is None) || (phase is Locking
            && reply == PurgeReply::Lock(LockOutcome::Acquired))),
{
    let commands = purge_step(purge, store_idx, phase, reply, now).1;
    if (phase is Ready && reply is Begin && lock_key(purge, store_idx) is None) || (phase
        is Locking && reply == PurgeReply::Lock(LockOutcome::Acquired)) {
        assert(commands[1] is Run);
    }
}

/// A task that is done stays done and asks for nothing more.
pub proof fn lemma_done_is_final(purge: PurgeTypeView, store_idx: u32, reply: PurgeReply, now: u64)
    ensures
        purge_step(purge, store_idx, PurgePhase::Done, reply, now) == (
            PurgePhase::Done,
            Seq::<PurgeCommandView>::empty(),
        ),
{
}

} // verus!
