//! The decisions of the scheduler: what to queue and what to ask of the
//! driver at start-up, when an event arrives, and when the timer fires.
//!
//! The driver owns the loop. It waits for the lesser of
//! `Housekeeper::wake_up_time` and the next event, calls `on_tick`,
//! `on_event` or `on_closed`, and carries out the commands that come back.
use vstd::prelude::*;
use vstd::multiset::*;
use super::action::{Action, ActionClass, ActionKind, Entry};
use super::event::{
    Command,
    CommandView,
    HousekeeperEvent,
    PurgeType,
    PurgeTypeView,
    RunType,
    Settings,
    command_views,
};
use super::queue::{
    Queue,
    due_after,
    due_by,
    entries,
    is_earliest,
    not_of_kind,
    sorted_by_due,
    time_until,
    LONG_1D_SLUMBER,
};

verus! {

/// The gauges are computed every five minutes.
pub const CALCULATE_METRICS_EVERY: u64 = 300_000;

/// Accounts and domains are counted once a day.
pub const COUNT_TOTALS_EVERY: u64 = 86_400_000;

/// A renewal that failed is tried again after an hour.
pub const ACME_RETRY: u64 = 3_600_000;

/// The instant `delay` after `now`, held at the last instant that the
/// clock can show.
pub open spec fn later(now: u64, delay: u64) -> u64 {
    if now + delay > u64::MAX {
        u64::MAX
    } else {
        (now + delay) as u64
    }
}

/// The state of the scheduler as a mathematical value.
#[verifier::ext_equal]
pub struct HousekeeperView {
    /// The queued actions.
    pub queue: Multiset<Entry>,
    /// The instant from which accounts and domains are counted again.
    pub next_metric_update: u64,
}

impl HousekeeperView {
    /// The same state with one more queued action.
    pub open spec fn with(self, due: u64, kind: ActionKind) -> HousekeeperView {
        HousekeeperView {
            queue: self.queue.insert(Entry { due, kind }),
            next_metric_update: self.next_metric_update,
        }
    }
}

/// An `HousekeeperEvent` as a mathematical value.
pub enum EventView {
    ReloadSettings,
    AcmeReschedule { provider_id: Seq<char>, renew_at: u64 },
    Purge(PurgeTypeView),
    Exit,
}

impl View for HousekeeperEvent {
    type V = EventView;

    open spec fn view(&self) -> EventView {
        match self {
            HousekeeperEvent::ReloadSettings => EventView::ReloadSettings,
            HousekeeperEvent::AcmeReschedule { provider_id, renew_at } => EventView::AcmeReschedule {
                provider_id: provider_id@,
                renew_at: *renew_at,
            },
            HousekeeperEvent::Purge(purge) => EventView::Purge(purge@),
            HousekeeperEvent::Exit => EventView::Exit,
        }
    }
}

/// Whether an entry of the given kind is among `m`.
pub open spec fn has_kind(m: Multiset<Entry>, kind: ActionKind) -> bool {
    exists|e: Entry| m.contains(e) && e.kind == kind
}

/// How many of the purge schedules can be queued: an index has 32 bits.
pub open spec fn store_count(settings: &Settings) -> nat {
    if settings.purge_schedules@.len() <= 0x1_0000_0000 {
        settings.purge_schedules@.len()
    } else {
        0x1_0000_0000
    }
}

/// The first firing of each purge schedule, in the order of their indices.
pub open spec fn store_entries(settings: &Settings, now: u64) -> Seq<Entry> {
    Seq::new(
        store_count(settings),
        |i: int|
            Entry {
                due: later(now, settings.purge_schedules@[i].time_to_next),
                kind: ActionKind::Store(i as u32),
            },
    )
}

/// Whether metrics are pushed from start-up on: the node has the role and
/// an exporter is configured.
pub open spec fn pushes_metrics(settings: &Settings) -> bool {
    settings.push_metrics && settings.otel_interval is Some
}

/// What start-up puts into the queue, in the order in which it does.
pub open spec fn start_entries(settings: &Settings, now: u64) -> Seq<Entry> {
    (if settings.purge_accounts {
        seq![Entry { due: later(now, settings.account_purge_in), kind: ActionKind::Account }]
    } else {
        Seq::<Entry>::empty()
    }) + (if settings.purge_stores {
        store_entries(settings, now)
    } else {
        Seq::<Entry>::empty()
    }) + (if pushes_metrics(settings) {
        seq![
            Entry { due: later(now, settings.otel_interval->0), kind: ActionKind::OtelMetrics },
        ]
    } else {
        Seq::<Entry>::empty()
    }) + seq![Entry { due: now, kind: ActionKind::CalculateMetrics }]
}

/// The command to set up each certificate provider, in their order.
pub open spec fn init_acme_commands(settings: &Settings) -> Seq<CommandView> {
    Seq::new(
        settings.acme_providers@.len(),
        |i: int| CommandView::InitAcme { provider_id: settings.acme_providers@[i]@ },
    )
}

/// What start-up asks of the driver.
pub open spec fn start_commands(settings: &Settings) -> Seq<CommandView> {
    seq![CommandView::ReportStart] + (if pushes_metrics(settings) {
        seq![CommandView::EnableOtelErrors]
    } else {
        Seq::<CommandView>::empty()
    }) + (if settings.renew_acme {
        init_acme_commands(settings)
    } else {
        Seq::<CommandView>::empty()
    })
}

/// Whether the configuration knows a certificate provider of this id.
pub open spec fn has_provider(settings: &Settings, id: Seq<char>) -> bool {
    exists|i: int|
        0 <= i < settings.acme_providers@.len() && (#[trigger] settings.acme_providers@[i])@ == id
}

/// What the scheduler does when the action `e` fires at `now`: the state
/// afterwards and the commands.
///
/// An account purge, a store purge, the metrics push and the metrics
/// calculation are queued again for their next occurrence. A store purge
/// whose schedule is gone and a metrics push without an exporter are
/// dropped. A certificate renewal is not queued again: the renewal reports
/// its next deadline itself. The renewal of a provider that the
/// configuration no longer knows is reported and not run.
pub open spec fn fire_spec(hk: HousekeeperView, e: Entry, settings: &Settings, now: u64) -> (
    HousekeeperView,
    Seq<CommandView>,
) {
    match e.kind {
        ActionKind::Acme(id) => (
            hk,
            if has_provider(settings, id) {
                seq![
                    CommandView::ReportRun(RunType::Acme),
                    CommandView::RenewAcme { provider_id: id },
                ]
            } else {
                seq![CommandView::ReportRun(RunType::Acme)]
            },
        ),
        ActionKind::Account => (
            hk.with(later(now, settings.account_purge_in), ActionKind::Account),
            seq![
                CommandView::ReportRun(RunType::PurgeAccount),
                CommandView::Purge { purge: PurgeTypeView::Account(None), store_idx: 0 },
            ],
        ),
        ActionKind::Store(idx) => if idx < settings.purge_schedules@.len() {
            let schedule = settings.purge_schedules@[idx as int];
            (
                hk.with(later(now, schedule.time_to_next), ActionKind::Store(idx)),
                seq![
                    CommandView::ReportRun(RunType::PurgeStore(idx)),
                    CommandView::Purge { purge: schedule.store.purge_view(), store_idx: idx },
                ],
            )
        } else {
            (hk, Seq::<CommandView>::empty())
        },
        ActionKind::OtelMetrics => match settings.otel_interval {
            Some(interval) => (
                hk.with(later(now, interval), ActionKind::OtelMetrics),
                seq![CommandView::ReportRun(RunType::MetricsReport), CommandView::PushMetrics],
            ),
            None => (hk, Seq::<CommandView>::empty()),
        },
        ActionKind::CalculateMetrics => {
            let count = now >= hk.next_metric_update;
            (
                HousekeeperView {
                    queue: hk.queue.insert(
                        Entry {
                            due: later(now, CALCULATE_METRICS_EVERY),
                            kind: ActionKind::CalculateMetrics,
                        },
                    ),
                    next_metric_update: if count {
                        later(now, COUNT_TOTALS_EVERY)
                    } else {
                        hk.next_metric_update
                    },
                },
                seq![
                    CommandView::ReportRun(RunType::MetricsCalculate),
                    CommandView::CalculateMetrics { totals: settings.calculate_metrics && count },
                ],
            )
        },
    }
}

/// What the scheduler does when the actions `fired` fire one after the
/// other at `now`: the state afterwards and all the commands, in order.
pub open spec fn fire_all(
    hk: HousekeeperView,
    fired: Seq<Entry>,
    settings: &Settings,
    now: u64,
) -> (HousekeeperView, Seq<CommandView>)
    decreases fired.len(),
{
    if fired.len() == 0 {
        (hk, Seq::<CommandView>::empty())
    } else {
        let (before, commands) = fire_all(hk, fired.drop_last(), settings, now);
        let (after, more) = fire_spec(before, fired.last(), settings, now);
        (after, commands + more)
    }
}

/// What a tick at `now` does to the state `before`: the actions `fired` are
/// those that were due, earliest first; they have left the queue and fired
/// in that order, which gives the state `after` and the `commands`.
pub open spec fn tick_relation(
    before: HousekeeperView,
    fired: Seq<Entry>,
    settings: &Settings,
    now: u64,
    after: HousekeeperView,
    commands: Seq<CommandView>,
) -> bool {
    let rest = HousekeeperView {
        queue: due_after(before.queue, now),
        next_metric_update: before.next_metric_update,
    };
    &&& sorted_by_due(fired)
    &&& fired.to_multiset() == due_by(before.queue, now)
    &&& after == fire_all(rest, fired, settings, now).0
    &&& commands == fire_all(rest, fired, settings, now).1
}

/// What the scheduler does with an event that arrives at `now`: the state
/// afterwards and the commands.
pub open spec fn event_spec(
    hk: HousekeeperView,
    event: EventView,
    settings: &Settings,
    now: u64,
) -> (HousekeeperView, Seq<CommandView>) {
    match event {
        EventView::ReloadSettings => {
            let reload = seq![CommandView::ReloadQueue, CommandView::ReloadAcme];
            if settings.otel_interval is Some && !has_kind(hk.queue, ActionKind::OtelMetrics) {
                (
                    hk.with(later(now, settings.otel_interval->0), ActionKind::OtelMetrics),
                    seq![CommandView::EnableOtelErrors] + reload,
                )
            } else {
                (hk, reload)
            }
        },
        EventView::AcmeReschedule { provider_id, renew_at } => (
            HousekeeperView {
                queue: not_of_kind(hk.queue, ActionKind::Acme(provider_id)).insert(
                    Entry { due: renew_at, kind: ActionKind::Acme(provider_id) },
                ),
                next_metric_update: hk.next_metric_update,
            },
            Seq::<CommandView>::empty(),
        ),
        EventView::Purge(purge) => (hk, seq![CommandView::Purge { purge, store_idx: 0 }]),
        EventView::Exit => (hk, seq![CommandView::ReportStop, CommandView::Exit]),
    }
}

/// Whether the configuration knows a certificate provider of this id.
pub fn known_provider(settings: &Settings, id: &str) -> (known: bool)
    ensures
        known == has_provider(settings, id@),
{
    let mut i: usize = 0;
    while i < settings.acme_providers.len()
        invariant
            i <= settings.acme_providers@.len(),
            forall|k: int| 0 <= k < i ==> (#[trigger] settings.acme_providers@[k])@ != id@,
        decreases settings.acme_providers@.len() - i,
    {
        if crate::text::str_eq(settings.acme_providers[i].as_str(), id) {
            assert(settings.acme_providers@[i as int]@ == id@);
            return true;
        }
        i += 1;
    }
    false
}

/// The event that a renewal task sends when it is done at `now`: the
/// provider is renewed again after the time that the renewal gave, or
/// after `ACME_RETRY` if the renewal failed.
pub fn renewal_done(provider_id: String, renew_in: Option<u64>, now: u64) -> (event:
    HousekeeperEvent)
    ensures
        event@ == (EventView::AcmeReschedule {
            provider_id: provider_id@,
            renew_at: later(
                now,
                match renew_in {
                    Some(delay) => delay,
                    None => ACME_RETRY,
                },
            ),
        }),
{
    let delay = match renew_in {
        Some(delay) => delay,
        None => ACME_RETRY,
    };
    HousekeeperEvent::AcmeReschedule { provider_id, renew_at: now.saturating_add(delay) }
}

/// The event that the set-up of a provider leads to when it is done at
/// `now`: the provider is renewed after the time that the set-up gave. A
/// set-up that failed leads to no event.
pub fn init_done(provider_id: String, renew_in: Option<u64>, now: u64) -> (event: Option<
    HousekeeperEvent,
>)
    ensures
        match renew_in {
            Some(delay) => event is Some && event->0@ == (EventView::AcmeReschedule {
                provider_id: provider_id@,
                renew_at: later(now, delay),
            }),
            None => event is None,
        },
{
    match renew_in {
        Some(delay) => Some(
            HousekeeperEvent::AcmeReschedule { provider_id, renew_at: now.saturating_add(delay) },
        ),
        None => None,
    }
}

proof fn lemma_push_command(commands: Seq<Command>, c: Command)
    ensures
        command_views(commands.push(c)) == command_views(commands).push(c@),
{
    assert(command_views(commands.push(c)) =~= command_views(commands).push(c@));
}

/// The scheduler: the delay queue and the instant of the next count.
pub struct Housekeeper {
    queue: Queue,
    next_metric_update: u64,
}

impl View for Housekeeper {
    type V = HousekeeperView;

    closed spec fn view(&self) -> HousekeeperView {
        HousekeeperView { queue: self.queue@, next_metric_update: self.next_metric_update }
    }
}

impl Housekeeper {
    /// Seeds the queue from the configuration: the account purge and the
    /// store purges where the node has the role, the metrics push where it
    /// has the role and an exporter is configured, and the metrics
    /// calculation, due at once. Asks the driver to set up each certificate
    /// provider where the node renews certificates.
    pub fn start(settings: &Settings, now: u64) -> (started: (Housekeeper, Vec<Command>))
        ensures
            started.0@.queue == start_entries(settings, now).to_multiset(),
            started.0@.next_metric_update == now,
            command_views(started.1@) == start_commands(settings),
    {
        broadcast use vstd::seq_lib::group_to_multiset_ensures;

        let mut queue = Queue::new();
        let mut commands: Vec<Command> = Vec::new();
        let ghost mut queued: Seq<Entry> = Seq::empty();
        assert(queued.to_multiset() =~= Multiset::<Entry>::empty()) by {
            lemma_multiset_empty_len(queued.to_multiset());
        }
        assert(command_views(commands@) =~= Seq::<CommandView>::empty());
        proof {
            lemma_push_command(commands@, Command::ReportStart);
        }
        commands.push(Command::ReportStart);

        if settings.purge_accounts {
            queue.schedule(now.saturating_add(settings.account_purge_in), ActionClass::Account);
            proof {
                queued = queued.push(
                    Entry { due: later(now, settings.account_purge_in), kind: ActionKind::Account },
                );
            }
        }
        let ghost account_part = queued;

        if settings.purge_stores {
            let mut idx: usize = 0;
            while idx < settings.purge_schedules.len() && idx <= 0xffff_ffff
                invariant
                    idx <= store_count(settings),
                    queue@ == queued.to_multiset(),
                    queued =~= account_part + store_entries(settings, now).take(idx as int),
                decreases store_count(settings) - idx,
            {
                let schedule = settings.purge_schedules[idx];
                queue.schedule(
                    now.saturating_add(schedule.time_to_next),
                    ActionClass::Store(idx as u32),
                );
                proof {
                    let e = Entry {
                        due: later(now, schedule.time_to_next),
                        kind: ActionKind::Store(idx as u32),
                    };
                    assert(store_entries(settings, now)[idx as int] == e);
                    vstd::seq_lib::to_multiset_build(queued, e);
                    queued = queued.push(e);
                }
                idx += 1;
            }
            assert(store_entries(settings, now).take(idx as int) =~= store_entries(settings, now));
        }
        let ghost store_part = queued;

        if settings.push_metrics {
            if let Some(interval) = settings.otel_interval {
                proof {
                    lemma_push_command(commands@, Command::EnableOtelErrors);
                }
                commands.push(Command::EnableOtelErrors);
                queue.schedule(now.saturating_add(interval), ActionClass::OtelMetrics);
                proof {
                    queued = queued.push(
                        Entry { due: later(now, interval), kind: ActionKind::OtelMetrics },
                    );
                }
            }
        }

        queue.schedule(now, ActionClass::CalculateMetrics);
        proof {
            queued = queued.push(Entry { due: now, kind: ActionKind::CalculateMetrics });
            assert(queued =~= start_entries(settings, now));
        }

        let ghost before_acme = command_views(commands@);
        if settings.renew_acme {
            let mut i: usize = 0;
            while i < settings.acme_providers.len()
                invariant
                    i <= settings.acme_providers@.len(),
                    command_views(commands@) =~= before_acme + init_acme_commands(settings).take(
                        i as int,
                    ),
                decreases settings.acme_providers@.len() - i,
            {
                let command = Command::InitAcme { provider_id: settings.acme_providers[i].clone() };
                proof {
                    lemma_push_command(commands@, command);
                }
                commands.push(command);
                i += 1;
            }
            assert(init_acme_commands(settings).take(i as int) =~= init_acme_commands(settings));
        }
        assert(command_views(commands@) =~= start_commands(settings));

        (Housekeeper { queue, next_metric_update: now }, commands)
    }

    /// The delay queue.
    pub fn queue(&self) -> (queue: &Queue)
        ensures
            queue@ == self@.queue,
    {
        &self.queue
    }

    /// How long the driver may sleep from `now`: until the earliest queued
    /// action is due, or a day when nothing is queued.
    pub fn wake_up_time(&self, now: u64) -> (wait: u64)
        ensures
            self@.queue.len() == 0 ==> wait == LONG_1D_SLUMBER,
            forall|e: Entry| is_earliest(self@.queue, e) ==> wait == time_until(e.due, now),
            self@.queue.len() > 0 ==> exists|e: Entry| is_earliest(self@.queue, e),
    {
        self.queue.wake_up_time(now)
    }

    /// Decides what a firing action leads to, and queues its next
    /// occurrence where it recurs. The action has left the queue already.
    pub fn fire(&mut self, action: Action, settings: &Settings, now: u64) -> (commands: Vec<
        Command,
    >)
        ensures
            final(self)@ == fire_spec(old(self)@, action@, settings, now).0,
            command_views(commands@) == fire_spec(old(self)@, action@, settings, now).1,
    {
        let mut commands: Vec<Command> = Vec::new();
        assert(command_views(commands@) =~= Seq::<CommandView>::empty());
        match action.event {
            ActionClass::Acme(provider_id) => {
                commands.push(Command::ReportRun(RunType::Acme));
                if known_provider(settings, provider_id.as_str()) {
                    commands.push(Command::RenewAcme { provider_id });
                }
            },
            ActionClass::Account => {
                self.queue.schedule(
                    now.saturating_add(settings.account_purge_in),
                    ActionClass::Account,
                );
                commands.push(Command::ReportRun(RunType::PurgeAccount));
                commands.push(Command::Purge { purge: PurgeType::Account(None), store_idx: 0 });
            },
            ActionClass::Store(idx) => {
                if (idx as usize) < settings.purge_schedules.len() {
                    let schedule = settings.purge_schedules[idx as usize];
                    self.queue.schedule(
                        now.saturating_add(schedule.time_to_next),
                        ActionClass::Store(idx),
                    );
                    commands.push(Command::ReportRun(RunType::PurgeStore(idx)));
                    commands.push(Command::Purge { purge: schedule.store.to_purge(), store_idx: idx });
                }
            },
            ActionClass::OtelMetrics => {
                if let Some(interval) = settings.otel_interval {
                    self.queue.schedule(now.saturating_add(interval), ActionClass::OtelMetrics);
                    commands.push(Command::ReportRun(RunType::MetricsReport));
                    commands.push(Command::PushMetrics);
                }
            },
            ActionClass::CalculateMetrics => {
                self.queue.schedule(
                    now.saturating_add(CALCULATE_METRICS_EVERY),
                    ActionClass::CalculateMetrics,
                );
                let count = now >= self.next_metric_update;
                if count {
                    self.next_metric_update = now.saturating_add(COUNT_TOTALS_EVERY);
                }
                commands.push(Command::ReportRun(RunType::MetricsCalculate));
                commands.push(
                    Command::CalculateMetrics { totals: settings.calculate_metrics && count },
                );
            },
        }
        proof {
            assert(command_views(commands@) =~= fire_spec(
                old(self)@,
                action@,
                settings,
                now,
            ).1);
            assert(self@ =~= fire_spec(old(self)@, action@, settings, now).0);
        }
        commands
    }

    /// Handles the timer: takes every action that is due at `now` out of the
    /// queue and fires them, earliest first. An action that is queued again
    /// while the others fire waits for the next call.
    pub fn on_tick(&mut self, settings: &Settings, now: u64) -> (commands: Vec<Command>)
        ensures
            exists|fired: Seq<Entry>|
                tick_relation(
                    old(self)@,
                    fired,
                    settings,
                    now,
                    final(self)@,
                    command_views(commands@),
                ),
    {
        let due = self.queue.pop_due(now);
        let ghost fired = entries(due@);
        let ghost rest = HousekeeperView {
            queue: due_after(old(self)@.queue, now),
            next_metric_update: old(self)@.next_metric_update,
        };
        let mut commands: Vec<Command> = Vec::new();
        assert(command_views(commands@) =~= Seq::<CommandView>::empty());
        assert(self@ =~= rest);
        let mut i: usize = 0;
        while i < due.len()
            invariant
                i <= due@.len(),
                fired == entries(due@),
                self@ == fire_all(rest, fired.take(i as int), settings, now).0,
                command_views(commands@) == fire_all(rest, fired.take(i as int), settings, now).1,
            decreases due@.len() - i,
        {
            let action = due[i].clone();
            let ghost commands_before = command_views(commands@);
            let mut more = self.fire(action, settings, now);
            proof {
                let taken = fired.take(i as int + 1);
                assert(taken.drop_last() =~= fired.take(i as int));
                assert(taken.last() == action@);
                assert(commands@.len() + more@.len() == (commands@ + more@).len());
                assert(command_views(commands@ + more@) =~= commands_before + command_views(
                    more@,
                ));
            }
            commands.append(&mut more);
            i += 1;
        }
        assert(fired.take(i as int) =~= fired);
        assert(tick_relation(old(self)@, fired, settings, now, self@, command_views(commands@)));
        commands
    }

    /// Handles an event that arrives at `now`.
    ///
    /// A reload queues the metrics push if an exporter is configured and no
    /// push is queued, and passes the reload on. A reschedule replaces the
    /// queued renewal of the provider. A purge request is run at once and
    /// not queued. An exit stops the loop.
    pub fn on_event(&mut self, event: HousekeeperEvent, settings: &Settings, now: u64) -> (commands:
        Vec<Command>)
        ensures
            final(self)@ == event_spec(old(self)@, event@, settings, now).0,
            command_views(commands@) == event_spec(old(self)@, event@, settings, now).1,
    {
        let mut commands: Vec<Command> = Vec::new();
        assert(command_views(commands@) =~= Seq::<CommandView>::empty());
        match event {
            HousekeeperEvent::ReloadSettings => {
                if let Some(interval) = settings.otel_interval {
                    if !self.queue.has_action(&ActionClass::OtelMetrics) {
                        commands.push(Command::EnableOtelErrors);
                        self.queue.schedule(now.saturating_add(interval), ActionClass::OtelMetrics);
                    }
                }
                commands.push(Command::ReloadQueue);
                commands.push(Command::ReloadAcme);
            },
            HousekeeperEvent::AcmeReschedule { provider_id, renew_at } => {
                let action = ActionClass::Acme(provider_id);
                self.queue.remove_action(&action);
                self.queue.schedule(renew_at, action);
            },
            HousekeeperEvent::Purge(purge) => {
                commands.push(Command::Purge { purge, store_idx: 0 });
            },
            HousekeeperEvent::Exit => {
                commands.push(Command::ReportStop);
                commands.push(Command::Exit);
            },
        }
        proof {
            assert(command_views(commands@) =~= event_spec(old(self)@, event@, settings, now).1);
            assert(self@ =~= event_spec(old(self)@, event@, settings, now).0);
        }
        commands
    }

    /// Handles the end of the intake: every sender is gone, so the loop
    /// stops as it does on `Exit`.
    pub fn on_closed(&self) -> (commands: Vec<Command>)
        ensures
            command_views(commands@) == seq![CommandView::ReportStop, CommandView::Exit],
    {
        let mut commands: Vec<Command> = Vec::new();
        commands.push(Command::ReportStop);
        commands.push(Command::Exit);
        assert(command_views(commands@) =~= seq![CommandView::ReportStop, CommandView::Exit]);
        commands
    }
}

} // verus!
