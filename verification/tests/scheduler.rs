use mail_services::housekeeper::action::{Action, ActionClass};
use mail_services::housekeeper::event::{
    Command, HousekeeperEvent, PurgeSchedule, PurgeStore, PurgeType, RunType, Settings,
};
use mail_services::housekeeper::queue::LONG_1D_SLUMBER;
use mail_services::housekeeper::scheduler::{
    init_done, known_provider, renewal_done, Housekeeper, ACME_RETRY, CALCULATE_METRICS_EVERY,
    COUNT_TOTALS_EVERY,
};

fn settings() -> Settings {
    Settings {
        purge_accounts: true,
        purge_stores: true,
        push_metrics: true,
        renew_acme: true,
        calculate_metrics: true,
        account_purge_in: 7_200_000,
        purge_schedules: vec![PurgeSchedule { store: PurgeStore::Data(5), time_to_next: 60_000 }],
        otel_interval: Some(30_000),
        acme_providers: vec!["p".to_string()],
    }
}

fn drain(hk: &mut Housekeeper, settings: &Settings) -> Vec<(u64, Vec<Command>)> {
    // Fires every queued action once, each at its own due instant, without
    // looking at what was queued again meanwhile.
    let mut fired = Vec::new();
    let mut now = 0;
    for _ in 0..16 {
        let wait = hk.wake_up_time(now);
        if wait == LONG_1D_SLUMBER && hk.queue().len() == 0 {
            break;
        }
        now += wait;
        let commands = hk.on_tick(settings, now);
        fired.push((now, commands));
        if fired.len() >= 5 {
            break;
        }
    }
    fired
}

#[test]
fn cold_start_with_all_roles_on() {
    let now = 1_000;
    let settings = settings();
    let (mut hk, commands) = Housekeeper::start(&settings, now);
    assert_eq!(
        commands,
        vec![
            Command::ReportStart,
            Command::EnableOtelErrors,
            Command::InitAcme { provider_id: "p".to_string() },
        ]
    );
    // The driver sets up the provider and reports the deadline.
    let commands = hk.on_event(
        HousekeeperEvent::AcmeReschedule { provider_id: "p".to_string(), renew_at: now + 3_600_000 },
        &settings,
        now,
    );
    assert!(commands.is_empty());

    assert_eq!(hk.queue().len(), 5);
    assert!(hk.queue().has_action(&ActionClass::Account));
    assert!(hk.queue().has_action(&ActionClass::Store(0)));
    assert!(hk.queue().has_action(&ActionClass::OtelMetrics));
    assert!(hk.queue().has_action(&ActionClass::CalculateMetrics));
    assert!(hk.queue().has_action(&ActionClass::Acme("p".to_string())));

    // The first tick fires the metrics calculation at once.
    assert_eq!(hk.wake_up_time(now), 0);
    let commands = hk.on_tick(&settings, now);
    assert_eq!(
        commands,
        vec![
            Command::ReportRun(RunType::MetricsCalculate),
            Command::CalculateMetrics { totals: true },
        ]
    );
    assert_eq!(hk.queue().len(), 5);
    assert_eq!(hk.wake_up_time(now), 30_000);
}

#[test]
fn cold_start_queues_each_action_at_its_instant() {
    let settings = settings();
    let (mut hk, _) = Housekeeper::start(&settings, 0);
    hk.on_event(
        HousekeeperEvent::AcmeReschedule { provider_id: "p".to_string(), renew_at: 3_600_000 },
        &settings,
        0,
    );
    // Nothing recurs under these settings but the metrics calculation.
    let quiet = Settings { purge_schedules: vec![], otel_interval: None, ..settings.clone() };
    assert_eq!(hk.wake_up_time(0), 0);
    assert_eq!(hk.on_tick(&quiet, 0).len(), 2);
    assert_eq!(hk.wake_up_time(0), 30_000);
    // A push without an exporter and a store purge without a schedule are dropped.
    assert_eq!(hk.on_tick(&quiet, 30_000), vec![]);
    assert_eq!(hk.wake_up_time(30_000), 30_000);
    assert_eq!(hk.on_tick(&quiet, 60_000), vec![]);
    assert_eq!(hk.wake_up_time(60_000), 240_000);
    assert_eq!(hk.queue().len(), 3);
    let at_renewal = hk.on_tick(&quiet, 3_600_000);
    assert_eq!(
        at_renewal,
        vec![
            Command::ReportRun(RunType::MetricsCalculate),
            Command::CalculateMetrics { totals: false },
            Command::ReportRun(RunType::Acme),
            Command::RenewAcme { provider_id: "p".to_string() },
        ]
    );
    // The account purge is left, and the metrics calculation again.
    assert_eq!(hk.queue().len(), 2);
    assert_eq!(hk.wake_up_time(3_600_000), 300_000);
    let at_purge = hk.on_tick(&quiet, 7_200_000);
    assert!(at_purge.contains(&Command::Purge { purge: PurgeType::Account(None), store_idx: 0 }));
}

#[test]
fn start_without_roles_queues_only_the_metrics_calculation() {
    let settings = Settings {
        purge_accounts: false,
        purge_stores: false,
        push_metrics: false,
        renew_acme: false,
        calculate_metrics: false,
        ..settings()
    };
    let (hk, commands) = Housekeeper::start(&settings, 77);
    assert_eq!(commands, vec![Command::ReportStart]);
    assert_eq!(hk.queue().len(), 1);
    assert!(hk.queue().has_action(&ActionClass::CalculateMetrics));
    assert_eq!(hk.wake_up_time(77), 0);
}

#[test]
fn reload_settings_adds_otel_once() {
    let mut settings = Settings { otel_interval: None, ..settings() };
    let (mut hk, commands) = Housekeeper::start(&settings, 0);
    assert!(!commands.contains(&Command::EnableOtelErrors));
    assert!(!hk.queue().has_action(&ActionClass::OtelMetrics));
    let before = hk.queue().len();

    settings.otel_interval = Some(45_000);
    let commands = hk.on_event(HousekeeperEvent::ReloadSettings, &settings, 10_000);
    assert_eq!(
        commands,
        vec![Command::EnableOtelErrors, Command::ReloadQueue, Command::ReloadAcme]
    );
    assert!(hk.queue().has_action(&ActionClass::OtelMetrics));
    assert_eq!(hk.queue().len(), before + 1);

    let commands = hk.on_event(HousekeeperEvent::ReloadSettings, &settings, 20_000);
    assert_eq!(commands, vec![Command::ReloadQueue, Command::ReloadAcme]);
    assert_eq!(hk.queue().len(), before + 1);

    // The push is due at the instant of the first reload plus the interval.
    let fired = hk.on_tick(&settings, 54_999);
    assert!(!fired.contains(&Command::PushMetrics));
    let fired = hk.on_tick(&settings, 55_000);
    assert!(fired.contains(&Command::PushMetrics));
}

#[test]
fn failed_renewal_is_tried_again_after_an_hour() {
    let settings = settings();
    let (mut hk, _) = Housekeeper::start(&settings, 0);
    hk.on_event(init_done("p".to_string(), Some(500), 0).unwrap(), &settings, 0);
    assert_eq!(hk.queue().len(), 5);
    let commands = hk.on_tick(&Settings { otel_interval: None, ..settings.clone() }, 500);
    assert_eq!(
        commands[2..],
        [Command::ReportRun(RunType::Acme), Command::RenewAcme { provider_id: "p".to_string() }]
    );
    // The renewal is not queued again by the tick.
    assert!(!hk.queue().has_action(&ActionClass::Acme("p".to_string())));

    // The renewal failed: the task reports the fallback deadline.
    assert_eq!(ACME_RETRY, 3_600_000);
    let event = renewal_done("p".to_string(), None, 600);
    assert_eq!(
        event,
        HousekeeperEvent::AcmeReschedule { provider_id: "p".to_string(), renew_at: 600 + 3_600_000 }
    );
    let commands = hk.on_event(event, &settings, 600);
    assert!(commands.is_empty());
    assert!(hk.queue().has_action(&ActionClass::Acme("p".to_string())));
    let quiet = Settings { purge_schedules: vec![], otel_interval: None, ..settings.clone() };
    assert!(!hk.on_tick(&quiet, 3_600_599).contains(&Command::ReportRun(RunType::Acme)));
    assert!(hk.on_tick(&quiet, 3_600_600).contains(&Command::RenewAcme { provider_id: "p".to_string() }));
}

#[test]
fn renewal_and_set_up_report_their_deadlines() {
    assert_eq!(
        renewal_done("p".to_string(), Some(1_000), 50),
        HousekeeperEvent::AcmeReschedule { provider_id: "p".to_string(), renew_at: 1_050 }
    );
    assert_eq!(
        renewal_done("p".to_string(), Some(u64::MAX), 50),
        HousekeeperEvent::AcmeReschedule { provider_id: "p".to_string(), renew_at: u64::MAX }
    );
    assert_eq!(
        init_done("p".to_string(), Some(7), 3),
        Some(HousekeeperEvent::AcmeReschedule { provider_id: "p".to_string(), renew_at: 10 })
    );
    assert_eq!(init_done("p".to_string(), None, 3), None);
}

#[test]
fn renewal_of_an_unknown_provider_is_not_run() {
    let settings = settings();
    assert!(known_provider(&settings, "p"));
    assert!(!known_provider(&settings, "q"));
    assert!(!known_provider(&settings, ""));
    let (mut hk, _) = Housekeeper::start(&settings, 0);
    let commands = hk.fire(
        Action { due: 5, event: ActionClass::Acme("gone".to_string()) },
        &settings,
        5,
    );
    assert_eq!(commands, vec![Command::ReportRun(RunType::Acme)]);
    let commands = hk.fire(Action { due: 5, event: ActionClass::Acme("p".to_string()) }, &settings, 5);
    assert_eq!(
        commands,
        vec![Command::ReportRun(RunType::Acme), Command::RenewAcme { provider_id: "p".to_string() }]
    );
}

#[test]
fn exit_stops_the_loop() {
    let settings = settings();
    let (mut hk, _) = Housekeeper::start(&settings, 0);
    let before = hk.queue().len();
    let purge = hk.on_event(HousekeeperEvent::Purge(PurgeType::Data(1)), &settings, 5);
    assert_eq!(purge, vec![Command::Purge { purge: PurgeType::Data(1), store_idx: 0 }]);
    let commands = hk.on_event(HousekeeperEvent::Exit, &settings, 10);
    assert_eq!(commands, vec![Command::ReportStop, Command::Exit]);
    assert_eq!(hk.queue().len(), before);
    assert_eq!(hk.on_closed(), vec![Command::ReportStop, Command::Exit]);
}

#[test]
fn purge_requests_are_not_queued() {
    let settings = settings();
    let (mut hk, _) = Housekeeper::start(&settings, 0);
    let before = hk.queue().len();
    let commands = hk.on_event(
        HousekeeperEvent::Purge(PurgeType::Lookup { store: 2, prefix: Some(vec![1, 2]) }),
        &settings,
        3,
    );
    assert_eq!(
        commands,
        vec![Command::Purge {
            purge: PurgeType::Lookup { store: 2, prefix: Some(vec![1, 2]) },
            store_idx: 0
        }]
    );
    assert_eq!(hk.queue().len(), before);
}

#[test]
fn recurring_actions_are_queued_again() {
    let settings = settings();
    let (mut hk, _) = Housekeeper::start(&settings, 0);
    let fired = drain(&mut hk, &settings);
    // 0: metrics calculation, 30 s: push, 60 s: store purge and push again.
    assert_eq!(fired[0].0, 0);
    assert_eq!(fired[1].0, 30_000);
    assert_eq!(
        fired[1].1,
        vec![Command::ReportRun(RunType::MetricsReport), Command::PushMetrics]
    );
    assert_eq!(fired[2].0, 60_000);
    assert!(fired[2].1.contains(&Command::Purge { purge: PurgeType::Data(5), store_idx: 0 }));
    assert!(fired[2].1.contains(&Command::ReportRun(RunType::PurgeStore(0))));
    assert!(fired[2].1.contains(&Command::PushMetrics));
    assert_eq!(hk.queue().len(), 4);
}

#[test]
fn store_schedules_map_to_their_purges() {
    let settings = Settings {
        purge_schedules: vec![
            PurgeSchedule { store: PurgeStore::Data(1), time_to_next: 10 },
            PurgeSchedule { store: PurgeStore::Blobs { store: 2, blob_store: 3 }, time_to_next: 20 },
            PurgeSchedule { store: PurgeStore::Lookup(4), time_to_next: 30 },
        ],
        ..settings()
    };
    let (mut hk, _) = Housekeeper::start(&settings, 0);
    assert_eq!(hk.queue().len(), 6);
    let blobs = hk.fire(Action { due: 20, event: ActionClass::Store(1) }, &settings, 20);
    assert_eq!(
        blobs,
        vec![
            Command::ReportRun(RunType::PurgeStore(1)),
            Command::Purge { purge: PurgeType::Blobs { store: 2, blob_store: 3 }, store_idx: 1 },
        ]
    );
    let lookup = hk.fire(Action { due: 30, event: ActionClass::Store(2) }, &settings, 30);
    assert_eq!(
        lookup[1],
        Command::Purge { purge: PurgeType::Lookup { store: 4, prefix: None }, store_idx: 2 }
    );
    let gone = hk.fire(Action { due: 30, event: ActionClass::Store(9) }, &settings, 30);
    assert!(gone.is_empty());
    assert_eq!(PurgeStore::Lookup(4).to_purge(), PurgeType::Lookup { store: 4, prefix: None });
}

#[test]
fn account_purge_sweeps_all_accounts() {
    let settings = settings();
    let (mut hk, _) = Housekeeper::start(&settings, 0);
    let before = hk.queue().len();
    let commands = hk.fire(Action { due: 0, event: ActionClass::Account }, &settings, 1_000);
    assert_eq!(
        commands,
        vec![
            Command::ReportRun(RunType::PurgeAccount),
            Command::Purge { purge: PurgeType::Account(None), store_idx: 0 },
        ]
    );
    assert_eq!(hk.queue().len(), before + 1);
}

#[test]
fn totals_are_counted_once_a_day() {
    let settings = Settings { purge_accounts: false, purge_stores: false, otel_interval: None, ..settings() };
    let (mut hk, _) = Housekeeper::start(&settings, 0);
    assert_eq!(CALCULATE_METRICS_EVERY, 5 * 60 * 1000);
    assert_eq!(COUNT_TOTALS_EVERY, 24 * 60 * 60 * 1000);
    let first = hk.on_tick(&settings, 0);
    assert_eq!(first[1], Command::CalculateMetrics { totals: true });
    assert_eq!(hk.wake_up_time(0), CALCULATE_METRICS_EVERY);
    let second = hk.on_tick(&settings, CALCULATE_METRICS_EVERY);
    assert_eq!(second[1], Command::CalculateMetrics { totals: false });
    let much_later = hk.on_tick(&settings, COUNT_TOTALS_EVERY + CALCULATE_METRICS_EVERY);
    assert_eq!(much_later[1], Command::CalculateMetrics { totals: true });

    let no_role = Settings { calculate_metrics: false, ..settings.clone() };
    let (mut hk, _) = Housekeeper::start(&no_role, 0);
    let first = hk.on_tick(&no_role, 0);
    assert_eq!(first[1], Command::CalculateMetrics { totals: false });
}

#[test]
fn instants_stop_at_the_end_of_the_clock() {
    let settings = Settings { otel_interval: Some(u64::MAX), ..settings() };
    let (mut hk, _) = Housekeeper::start(&settings, 10);
    let due = hk.on_tick(&settings, u64::MAX);
    assert!(due.contains(&Command::PushMetrics));
}
