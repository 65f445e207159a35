use mail_services::housekeeper::action::{Action, ActionClass};
use mail_services::housekeeper::queue::{Queue, LONG_1D_SLUMBER};

fn acme(id: &str) -> ActionClass {
    ActionClass::Acme(id.to_string())
}

fn due_and_kind(action: Option<Action>) -> Option<(u64, ActionClass)> {
    action.map(|a| (a.due, a.event))
}

#[test]
fn wake_up_time_of_empty_queue_is_long_slumber() {
    let queue = Queue::new();
    assert_eq!(queue.wake_up_time(0), LONG_1D_SLUMBER);
    assert_eq!(queue.wake_up_time(u64::MAX), LONG_1D_SLUMBER);
    assert_eq!(LONG_1D_SLUMBER, 24 * 60 * 60 * 1000);
    assert_eq!(Queue::default().len(), 0);
}

#[test]
fn wake_up_time_is_time_until_earliest_and_never_negative() {
    let mut queue = Queue::new();
    queue.schedule(1_500, ActionClass::Account);
    queue.schedule(700, ActionClass::OtelMetrics);
    queue.schedule(9_000, ActionClass::CalculateMetrics);
    assert_eq!(queue.wake_up_time(0), 700);
    assert_eq!(queue.wake_up_time(200), 500);
    assert_eq!(queue.wake_up_time(700), 0);
    assert_eq!(queue.wake_up_time(5_000), 0);
    assert_eq!(queue.len(), 3);
}

#[test]
fn pop_returns_entries_in_due_order() {
    let mut queue = Queue::new();
    queue.schedule(30, ActionClass::Account);
    queue.schedule(10, ActionClass::OtelMetrics);
    queue.schedule(20, ActionClass::Store(1));
    queue.schedule(5, acme("p"));
    queue.schedule(25, ActionClass::CalculateMetrics);
    queue.schedule(15, ActionClass::Store(0));
    queue.schedule(40, acme("q"));
    let mut dues = Vec::new();
    while let Some(action) = queue.pop(100) {
        dues.push(action.due);
    }
    assert_eq!(dues, vec![5, 10, 15, 20, 25, 30, 40]);
    assert_eq!(queue.len(), 0);
}

#[test]
fn pop_returns_nothing_before_the_due_instant() {
    let mut queue = Queue::new();
    assert_eq!(due_and_kind(queue.pop(1_000)), None);
    queue.schedule(50, ActionClass::Account);
    queue.schedule(60, ActionClass::Store(3));
    assert_eq!(due_and_kind(queue.pop(49)), None);
    assert_eq!(queue.len(), 2);
    assert_eq!(due_and_kind(queue.pop(50)), Some((50, ActionClass::Account)));
    assert_eq!(due_and_kind(queue.pop(50)), None);
    assert_eq!(due_and_kind(queue.pop(60)), Some((60, ActionClass::Store(3))));
    assert_eq!(due_and_kind(queue.pop(60)), None);
}

#[test]
fn remove_then_schedule_leaves_exactly_one_entry_of_the_kind() {
    let mut queue = Queue::new();
    queue.schedule(10, acme("p"));
    queue.schedule(20, acme("p"));
    queue.schedule(30, acme("other"));
    queue.schedule(40, ActionClass::Account);
    queue.remove_action(&acme("p"));
    assert!(!queue.has_action(&acme("p")));
    assert_eq!(queue.len(), 2);
    queue.schedule(99, acme("p"));
    assert!(queue.has_action(&acme("p")));
    let due = queue.pop_due(u64::MAX);
    let of_kind: Vec<&Action> = due.iter().filter(|a| a.event == acme("p")).collect();
    assert_eq!(of_kind.len(), 1);
    assert_eq!(of_kind[0].due, 99);
    assert_eq!(due.len(), 3);
}

#[test]
fn schedule_does_not_deduplicate() {
    let mut queue = Queue::new();
    queue.schedule(10, ActionClass::OtelMetrics);
    queue.schedule(20, ActionClass::OtelMetrics);
    assert_eq!(queue.len(), 2);
}

#[test]
fn has_action_compares_the_kind_only() {
    let mut queue = Queue::new();
    queue.schedule(10, ActionClass::Store(2));
    queue.schedule(11, acme("a"));
    assert!(queue.has_action(&ActionClass::Store(2)));
    assert!(!queue.has_action(&ActionClass::Store(3)));
    assert!(queue.has_action(&acme("a")));
    assert!(!queue.has_action(&acme("b")));
    assert!(!queue.has_action(&ActionClass::Account));
}

#[test]
fn remove_action_keeps_the_rest_in_order() {
    let mut queue = Queue::new();
    for (i, due) in [90u64, 10, 80, 20, 70, 30, 60, 40, 50].iter().enumerate() {
        let kind = if i % 2 == 0 { ActionClass::Store(7) } else { ActionClass::Store(100 + i as u32) };
        queue.schedule(*due, kind);
    }
    queue.remove_action(&ActionClass::Store(7));
    let due: Vec<u64> = queue.pop_due(1_000).iter().map(|a| a.due).collect();
    assert_eq!(due, vec![10, 20, 30, 40]);
}

#[test]
fn pop_due_takes_what_is_due_and_leaves_the_rest() {
    let mut queue = Queue::new();
    queue.schedule(300, ActionClass::Account);
    queue.schedule(100, ActionClass::OtelMetrics);
    queue.schedule(200, ActionClass::CalculateMetrics);
    queue.schedule(400, ActionClass::Store(0));
    let due: Vec<(u64, ActionClass)> =
        queue.pop_due(250).into_iter().map(|a| (a.due, a.event)).collect();
    assert_eq!(due, vec![(100, ActionClass::OtelMetrics), (200, ActionClass::CalculateMetrics)]);
    assert_eq!(queue.len(), 2);
    assert_eq!(queue.wake_up_time(250), 50);
    assert!(queue.pop_due(250).is_empty());
}

#[test]
fn actions_are_ordered_by_due_instant_ascending() {
    let early = Action { due: 1, event: ActionClass::Account };
    let late = Action { due: 2, event: ActionClass::Account };
    let other = Action { due: 2, event: ActionClass::OtelMetrics };
    assert!(early < late);
    assert!(late > early);
    assert_eq!(early.partial_cmp(&late), Some(std::cmp::Ordering::Less));
    assert_eq!(late.partial_cmp(&other), Some(std::cmp::Ordering::Equal));
    assert_eq!(other.partial_cmp(&early), Some(std::cmp::Ordering::Greater));
}

#[test]
fn actions_are_equal_when_their_kinds_are() {
    let early = Action { due: 1, event: ActionClass::Account };
    let late = Action { due: 2, event: ActionClass::Account };
    let other = Action { due: 2, event: ActionClass::OtelMetrics };
    assert_eq!(early, late);
    assert_ne!(late, other);
    assert_ne!(
        Action { due: 1, event: ActionClass::Store(1) },
        Action { due: 1, event: ActionClass::Store(2) }
    );
    assert_eq!(
        Action { due: 1, event: ActionClass::Acme("p".to_string()) },
        Action { due: 9, event: ActionClass::Acme("p".to_string()) }
    );
    let copy = late.clone();
    assert_eq!(copy.due, 2);
    assert_eq!(copy.event, ActionClass::Account);
}

#[test]
fn only_renewals_are_not_recurring() {
    assert!(ActionClass::Account.is_recurring());
    assert!(ActionClass::Store(0).is_recurring());
    assert!(ActionClass::OtelMetrics.is_recurring());
    assert!(ActionClass::CalculateMetrics.is_recurring());
    assert!(!acme("p").is_recurring());
}

#[test]
fn many_entries_come_out_sorted() {
    let mut queue = Queue::new();
    let mut state: u64 = 12345;
    let mut expected = Vec::new();
    for i in 0..500u32 {
        state = state.wrapping_mul(6364136223846793005).wrapping_add(1442695040888963407);
        let due = (state >> 33) % 1000;
        queue.schedule(due, ActionClass::Store(i % 50));
        expected.push(due);
    }
    queue.remove_action(&ActionClass::Store(7));
    let mut kept: Vec<u64> = expected
        .iter()
        .enumerate()
        .filter(|(i, _)| i % 50 != 7)
        .map(|(_, due)| *due)
        .collect();
    kept.sort();
    assert_eq!(queue.len(), kept.len());
    let early: Vec<u64> = queue.pop_due(499).iter().map(|a| a.due).collect();
    let split = kept.iter().filter(|due| **due <= 499).count();
    assert_eq!(early, kept[..split].to_vec());
    let mut late = Vec::new();
    while let Some(action) = queue.pop(u64::MAX) {
        late.push(action.due);
    }
    assert_eq!(late, kept[split..].to_vec());
}
