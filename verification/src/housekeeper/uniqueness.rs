//! The queue of a running scheduler never holds two actions of one kind.
//!
//! Start-up establishes this, and every event and every tick keeps it.
use vstd::prelude::*;
use vstd::multiset::*;
use super::action::{ActionKind, Entry};
use super::event::{CommandView, Settings};
use super::queue::{due_after, not_of_kind};
use super::scheduler::{
    EventView,
    HousekeeperView,
    event_spec,
    fire_all,
    fire_spec,
    has_kind,
    start_entries,
    store_entries,
    tick_relation,
};

verus! {

/// No entry occurs twice, and no two entries are of one kind.
pub open spec fn one_per_kind(m: Multiset<Entry>) -> bool {
    &&& forall|e: Entry| m.count(e) <= 1
    &&& forall|a: Entry, b: Entry|
        m.contains(a) && m.contains(b) && a.kind == b.kind ==> a == b
}

/// Adding an entry of a kind that is not queued keeps one entry per kind.
proof fn lemma_insert_new_kind(m: Multiset<Entry>, e: Entry)
    requires
        one_per_kind(m),
        forall|o: Entry| m.contains(o) ==> o.kind != e.kind,
    ensures
        one_per_kind(m.insert(e)),
{
    let n = m.insert(e);
    assert(m.count(e) == 0) by {
        if m.count(e) > 0 {
            assert(m.contains(e));
        }
    }
    assert forall|a: Entry, b: Entry|
        n.contains(a) && n.contains(b) && a.kind == b.kind implies a == b by {
        if a != e {
            assert(m.contains(a));
        }
        if b != e {
            assert(m.contains(b));
        }
    }
}

/// The queue that start-up leaves holds one entry per kind.
pub proof fn lemma_start_one_per_kind(settings: &Settings, now: u64)
    ensures
        one_per_kind(start_entries(settings, now).to_multiset()),
{
    broadcast use vstd::seq_lib::group_to_multiset_ensures;

    let s = start_entries(settings, now);
    assert forall|i: int, j: int| 0 <= i < s.len() && 0 <= j < s.len() && i != j implies s[i].kind
        != s[j].kind by {
        let stores = store_entries(settings, now);
        assert(forall|k: int| 0 <= k < stores.len() ==> stores[k].kind == ActionKind::Store(k as u32));
    }
    assert(s.no_duplicates());
    s.lemma_multiset_has_no_duplicates();
    let m = s.to_multiset();
    assert forall|e: Entry| m.count(e) <= 1 by {
        if m.count(e) > 0 {
            assert(m.contains(e));
        }
    }
    assert forall|a: Entry, b: Entry|
        m.contains(a) && m.contains(b) && a.kind == b.kind implies a == b by {
        assert(s.contains(a));
        assert(s.contains(b));
        let i = choose|i: int| 0 <= i < s.len() && s[i] == a;
        let j = choose|j: int| 0 <= j < s.len() && s[j] == b;
        assert(i == j);
    }
}

/// An event keeps one entry per kind.
pub proof fn lemma_event_keeps_one_per_kind(
    hk: HousekeeperView,
    event: EventView,
    settings: &Settings,
    now: u64,
)
    requires
        one_per_kind(hk.queue),
    ensures
        one_per_kind(event_spec(hk, event, settings, now).0.queue),
{
    match event {
        EventView::ReloadSettings => {
            if settings.otel_interval is Some && !has_kind(hk.queue, ActionKind::OtelMetrics) {
                let e = event_spec(hk, event, settings, now).0.queue;
                assert forall|o: Entry| hk.queue.contains(o) implies o.kind
                    != ActionKind::OtelMetrics by {
                    if o.kind == ActionKind::OtelMetrics {
                        assert(hk.queue.contains(o) && o.kind == ActionKind::OtelMetrics);
                    }
                }
                lemma_insert_new_kind(
                    hk.queue,
                    Entry {
                        due: super::scheduler::later(now, settings.otel_interval->0),
                        kind: ActionKind::OtelMetrics,
                    },
                );
            }
        },
        EventView::AcmeReschedule { provider_id, renew_at } => {
            let kind = ActionKind::Acme(provider_id);
            let kept = not_of_kind(hk.queue, kind);
            assert(one_per_kind(kept)) by {
                assert forall|a: Entry, b: Entry|
                    kept.contains(a) && kept.contains(b) && a.kind == b.kind implies a == b by {
                    assert(hk.queue.contains(a));
                    assert(hk.queue.contains(b));
                }
            }
            lemma_insert_new_kind(kept, Entry { due: renew_at, kind });
        },
        EventView::Purge(_) => {},
        EventView::Exit => {},
    }
}

/// Firing an action that has left the queue keeps one entry per kind, also
/// among the entries `aside` that are not in the queue for the moment.
proof fn lemma_fire_keeps_one_per_kind(
    hk: HousekeeperView,
    e: Entry,
    aside: Multiset<Entry>,
    settings: &Settings,
    now: u64,
)
    requires
        one_per_kind(hk.queue.add(aside).insert(e)),
    ensures
        one_per_kind(fire_spec(hk, e, settings, now).0.queue.add(aside)),
{
    let all = hk.queue.add(aside);
    let with_e = all.insert(e);
    assert(one_per_kind(all)) by {
        assert forall|o: Entry| all.count(o) <= 1 by {
            assert(with_e.count(o) <= 1);
        }
        assert forall|a: Entry, b: Entry|
            all.contains(a) && all.contains(b) && a.kind == b.kind implies a == b by {
            assert(with_e.contains(a));
            assert(with_e.contains(b));
        }
    }
    assert forall|o: Entry| all.contains(o) implies o.kind != e.kind by {
        assert(with_e.contains(o));
        assert(with_e.contains(e));
        if o.kind == e.kind {
            assert(o == e);
            assert(with_e.count(e) >= 2);
        }
    }
    let after = fire_spec(hk, e, settings, now).0.queue;
    if after != hk.queue {
        let added = choose|added: Entry| after == hk.queue.insert(added) && added.kind == e.kind;
        assert(exists|added: Entry| after == hk.queue.insert(added) && added.kind == e.kind) by {
            match e.kind {
                ActionKind::Acme(_) => {},
                ActionKind::Account => {
                    let x = Entry {
                        due: super::scheduler::later(now, settings.account_purge_in),
                        kind: ActionKind::Account,
                    };
                    assert(after == hk.queue.insert(x) && x.kind == e.kind);
                },
                ActionKind::Store(idx) => {
                    if idx < settings.purge_schedules@.len() {
                        let x = Entry {
                            due: super::scheduler::later(
                                now,
                                settings.purge_schedules@[idx as int].time_to_next,
                            ),
                            kind: ActionKind::Store(idx),
                        };
                        assert(after == hk.queue.insert(x) && x.kind == e.kind);
                    }
                },
                ActionKind::OtelMetrics => {
                    if let Some(interval) = settings.otel_interval {
                        let x = Entry {
                            due: super::scheduler::later(now, interval),
                            kind: ActionKind::OtelMetrics,
                        };
                        assert(after == hk.queue.insert(x) && x.kind == e.kind);
                    }
                },
                ActionKind::CalculateMetrics => {
                    let x = Entry {
                        due: super::scheduler::later(
                            now,
                            super::scheduler::CALCULATE_METRICS_EVERY,
                        ),
                        kind: ActionKind::CalculateMetrics,
                    };
                    assert(after == hk.queue.insert(x) && x.kind == e.kind);
                },
            }
        }
        lemma_insert_new_kind(all, added);
        assert(after.add(aside) =~= all.insert(added));
    } else {
        assert(after.add(aside) =~= all);
    }
}

/// Firing a run of actions that have left the queue keeps one entry per
/// kind, also among the entries `aside`.
proof fn lemma_fire_all_keeps_one_per_kind(
    hk: HousekeeperView,
    fired: Seq<Entry>,
    aside: Multiset<Entry>,
    settings: &Settings,
    now: u64,
)
    requires
        one_per_kind(hk.queue.add(fired.to_multiset()).add(aside)),
    ensures
        one_per_kind(fire_all(hk, fired, settings, now).0.queue.add(aside)),
    decreases fired.len(),
{
    broadcast use vstd::seq_lib::group_to_multiset_ensures;

    if fired.len() == 0 {
        assert(fired.to_multiset().len() == 0);
        lemma_multiset_empty_len(fired.to_multiset());
        assert(hk.queue.add(fired.to_multiset()).add(aside) =~= hk.queue.add(aside));
    } else {
        let init = fired.drop_last();
        let last = fired.last();
        assert(fired =~= init.push(last));
        assert(fired.to_multiset() =~= init.to_multiset().insert(last));
        assert(hk.queue.add(init.to_multiset()).add(aside.insert(last)) =~= hk.queue.add(
            fired.to_multiset(),
        ).add(aside));
        lemma_fire_all_keeps_one_per_kind(hk, init, aside.insert(last), settings, now);
        let before = fire_all(hk, init, settings, now).0;
        assert(before.queue.add(aside).insert(last) =~= before.queue.add(aside.insert(last)));
        lemma_fire_keeps_one_per_kind(before, last, aside, settings, now);
    }
}

/// A tick keeps one entry per kind.
pub proof fn lemma_tick_keeps_one_per_kind(
    before: HousekeeperView,
    fired: Seq<Entry>,
    settings: &Settings,
    now: u64,
    after: HousekeeperView,
    commands: Seq<CommandView>,
)
    requires
        one_per_kind(before.queue),
        tick_relation(before, fired, settings, now, after, commands),
    ensures
        one_per_kind(after.queue),
{
    let rest = HousekeeperView {
        queue: due_after(before.queue, now),
        next_metric_update: before.next_metric_update,
    };
    let none = Multiset::<Entry>::empty();
    assert(rest.queue.add(fired.to_multiset()).add(none) =~= before.queue);
    lemma_fire_all_keeps_one_per_kind(rest, fired, none, settings, now);
    assert(after.queue.add(none) =~= after.queue);
}

} // verus!
