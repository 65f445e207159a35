//! What the scheduler is told, what it reads of the configuration, and what
//! it asks its driver to do.
//!
//! The scheduler never touches a store, a certificate or a clock. The driver
//! hands it events and the current instant, and carries out the commands it
//! gets back. Stores are named by handles that the driver resolves.
use vstd::prelude::*;

verus! {

/// What a purge works on.
#[derive(Debug, Clone, PartialEq, Eq)]
pub enum PurgeType {
    /// A data store, by its handle.
    Data(u32),
    /// The blobs of a blob store that a data store no longer refers to.
    Blobs { store: u32, blob_store: u32 },
    /// An in-memory store: all of it, or the keys that start with `prefix`.
    Lookup { store: u32, prefix: Option<Vec<u8>> },
    /// One account, or every account when none is named.
    Account(Option<u32>),
}

/// A `PurgeType` as a mathematical value.
pub enum PurgeTypeView {
    Data(u32),
    Blobs { store: u32, blob_store: u32 },
    Lookup { store: u32, prefix: Option<Seq<u8>> },
    Account(Option<u32>),
}

impl View for PurgeType {
    type V = PurgeTypeView;

    open spec fn view(&self) -> PurgeTypeView {
        match self {
            PurgeType::Data(store) => PurgeTypeView::Data(*store),
            PurgeType::Blobs { store, blob_store } => PurgeTypeView::Blobs {
                store: *store,
                blob_store: *blob_store,
            },
            PurgeType::Lookup { store, prefix } => PurgeTypeView::Lookup {
                store: *store,
                prefix: match prefix {
                    Some(p) => Some(p@),
                    None => None,
                },
            },
            PurgeType::Account(id) => PurgeTypeView::Account(*id),
        }
    }
}

/// A message to the scheduler.
#[derive(Debug, Clone, PartialEq, Eq)]
pub enum HousekeeperEvent {
    /// The configuration has changed.
    ReloadSettings,
    /// A certificate provider is to be renewed at `renew_at`.
    AcmeReschedule { provider_id: String, renew_at: u64 },
    /// Run this purge now.
    Purge(PurgeType),
    /// Shut down.
    Exit,
}

/// The store that a purge schedule works on.
#[derive(Debug, Clone, Copy, PartialEq, Eq, Structural)]
pub enum PurgeStore {
    Data(u32),
    Blobs { store: u32, blob_store: u32 },
    Lookup(u32),
}

impl PurgeStore {
    /// The purge that a schedule on this store runs.
    pub open spec fn purge_view(self) -> PurgeTypeView {
        match self {
            PurgeStore::Data(store) => PurgeTypeView::Data(store),
            PurgeStore::Blobs { store, blob_store } => PurgeTypeView::Blobs { store, blob_store },
            PurgeStore::Lookup(store) => PurgeTypeView::Lookup { store, prefix: None },
        }
    }

    /// The purge that a schedule on this store runs: an in-memory store is
    /// purged as a whole.
    pub fn to_purge(self) -> (purge: PurgeType)
        ensures
            purge@ == self.purge_view(),
    {
        match self {
            PurgeStore::Data(store) => PurgeType::Data(store),
            PurgeStore::Blobs { store, blob_store } => PurgeType::Blobs { store, blob_store },
            PurgeStore::Lookup(store) => PurgeType::Lookup { store, prefix: None },
        }
    }
}

/// One configured store purge: the store, and how long from now until its
/// schedule next fires, in milliseconds.
#[derive(Debug, Clone, Copy, PartialEq, Eq, Structural)]
pub struct PurgeSchedule {
    pub store: PurgeStore,
    pub time_to_next: u64,
}

/// The part of the configuration that the scheduler reads, as it stands at
/// the instant of the call. Durations are in milliseconds.
#[derive(Debug, Clone, PartialEq, Eq)]
pub struct Settings {
    /// This node purges expired accounts.
    pub purge_accounts: bool,
    /// This node runs the store purge schedules.
    pub purge_stores: bool,
    /// This node pushes metrics.
    pub push_metrics: bool,
    /// This node renews certificates.
    pub renew_acme: bool,
    /// This node computes the account and domain counts.
    pub calculate_metrics: bool,
    /// Time until the account purge schedule next fires.
    pub account_purge_in: u64,
    /// The store purge schedules, each at its stable index.
    pub purge_schedules: Vec<PurgeSchedule>,
    /// The interval of the metrics exporter, when one is configured.
    pub otel_interval: Option<u64>,
    /// The ids of the certificate providers.
    pub acme_providers: Vec<String>,
}

/// What a firing action is reported as.
#[derive(Debug, Clone, Copy, PartialEq, Eq, Structural)]
pub enum RunType {
    Acme,
    PurgeAccount,
    PurgeStore(u32),
    MetricsReport,
    MetricsCalculate,
}

/// What the scheduler asks its driver to do. A driver carries out the
/// commands of one decision in their order.
#[derive(Debug, Clone, PartialEq, Eq)]
pub enum Command {
    /// Report that the housekeeper has started.
    ReportStart,
    /// Report that the housekeeper has stopped.
    ReportStop,
    /// Report that an action fires.
    ReportRun(RunType),
    /// Turn on the error reports of the metrics exporter.
    EnableOtelErrors,
    /// Set up a certificate provider, then send the event that `init_done`
    /// gives, if any. On failure, report the error.
    InitAcme { provider_id: String },
    /// Tell the message queue to reload its settings.
    ReloadQueue,
    /// In a task of its own, set up every certificate provider again and
    /// send the event that `init_done` gives for each that succeeds.
    ReloadAcme,
    /// In a task of its own, run this purge.
    Purge { purge: PurgeType, store_idx: u32 },
    /// In a task of its own, renew the certificates of this provider, then
    /// send the event that `renewal_done` gives.
    RenewAcme { provider_id: String },
    /// In a task of its own, push the metrics.
    PushMetrics,
    /// In a task of its own, measure the memory in use and, if `totals` is
    /// set, count accounts and domains.
    CalculateMetrics { totals: bool },
    /// Leave the loop.
    Exit,
}

/// A `Command` as a mathematical value.
pub enum CommandView {
    ReportStart,
    ReportStop,
    ReportRun(RunType),
    EnableOtelErrors,
    InitAcme { provider_id: Seq<char> },
    ReloadQueue,
    ReloadAcme,
    Purge { purge: PurgeTypeView, store_idx: u32 },
    RenewAcme { provider_id: Seq<char> },
    PushMetrics,
    CalculateMetrics { totals: bool },
    Exit,
}

impl View for Command {
    type V = CommandView;

    open spec fn view(&self) -> CommandView {
        match self {
            Command::ReportStart => CommandView::ReportStart,
            Command::ReportStop => CommandView::ReportStop,
            Command::ReportRun(t) => CommandView::ReportRun(*t),
            Command::EnableOtelErrors => CommandView::EnableOtelErrors,
            Command::InitAcme { provider_id } => CommandView::InitAcme {
                provider_id: provider_id@,
            },
            Command::ReloadQueue => CommandView::ReloadQueue,
            Command::ReloadAcme => CommandView::ReloadAcme,
            Command::Purge { purge, store_idx } => CommandView::Purge {
                purge: purge@,
                store_idx: *store_idx,
            },
            Command::RenewAcme { provider_id } => CommandView::RenewAcme {
                provider_id: provider_id@,
            },
            Command::PushMetrics => CommandView::PushMetrics,
            Command::CalculateMetrics { totals } => CommandView::CalculateMetrics {
                totals: *totals,
            },
            Command::Exit => CommandView::Exit,
        }
    }
}

/// The commands of a list, as mathematical values in the same order.
pub open spec fn command_views(commands: Seq<Command>) -> Seq<CommandView> {
    commands.map_values(|c: Command| c@)
}

} // verus!
