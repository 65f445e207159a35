//! The closed set of maintenance actions that the housekeeper schedules.
use vstd::prelude::*;
use std::cmp::Ordering;
use vstd::std_specs::cmp::PartialEqSpecImpl;
use vstd::std_specs::cmp::PartialOrdSpecImpl;

verus! {

/// The kind of a maintenance action, as a mathematical value.
pub enum ActionKind {
    Account,
    Store(u32),
    Acme(Seq<char>),
    OtelMetrics,
    CalculateMetrics,
}

/// The kind of a maintenance action.
///
/// `Store` carries the index of a purge schedule, `Acme` the id of a
/// certificate provider. Two values are equal when they name the same kind
/// with the same index or id.
#[derive(Debug)]
pub enum ActionClass {
    Account,
    Store(u32),
    Acme(String),
    OtelMetrics,
    CalculateMetrics,
}

impl View for ActionClass {
    type V = ActionKind;

    open spec fn view(&self) -> ActionKind {
        match self {
            ActionClass::Account => ActionKind::Account,
            ActionClass::Store(idx) => ActionKind::Store(*idx),
            ActionClass::Acme(id) => ActionKind::Acme(id@),
            ActionClass::OtelMetrics => ActionKind::OtelMetrics,
            ActionClass::CalculateMetrics => ActionKind::CalculateMetrics,
        }
    }
}

impl ActionKind {
    /// A recurring action is put back into the queue by the scheduler each
    /// time it fires. A certificate renewal is not: the renewal task reports
    /// its own next deadline.
    pub open spec fn is_recurring(self) -> bool {
        !(self is Acme)
    }
}

impl ActionClass {
    /// Whether the scheduler re-arms this action itself when it fires.
    pub fn is_recurring(&self) -> (r: bool)
        ensures
            r == self@.is_recurring(),
    {
        match self {
            ActionClass::Acme(_) => false,
            _ => true,
        }
    }
}

impl Clone for ActionClass {
    fn clone(&self) -> (r: Self)
        ensures
            r@ == self@,
    {
        match self {
            ActionClass::Account => ActionClass::Account,
            ActionClass::Store(idx) => ActionClass::Store(*idx),
            ActionClass::Acme(id) => ActionClass::Acme(id.clone()),
            ActionClass::OtelMetrics => ActionClass::OtelMetrics,
            ActionClass::CalculateMetrics => ActionClass::CalculateMetrics,
        }
    }
}

impl PartialEq for ActionClass {
    fn eq(&self, other: &Self) -> (r: bool) {
        match (self, other) {
            (ActionClass::Account, ActionClass::Account) => true,
            (ActionClass::Store(a), ActionClass::Store(b)) => *a == *b,
            (ActionClass::Acme(a), ActionClass::Acme(b)) => *a == *b,
            (ActionClass::OtelMetrics, ActionClass::OtelMetrics) => true,
            (ActionClass::CalculateMetrics, ActionClass::CalculateMetrics) => true,
            _ => false,
        }
    }
}

impl PartialEqSpecImpl for ActionClass {
    open spec fn obeys_eq_spec() -> bool {
        true
    }

    open spec fn eq_spec(&self, other: &Self) -> bool {
        self@ == other@
    }
}

impl Eq for ActionClass {

}

/// A queue entry as a mathematical value: when it is due, and what to do.
pub struct Entry {
    pub due: u64,
    pub kind: ActionKind,
}

/// A scheduled action: the instant at which it is due, in milliseconds, and
/// its kind.
#[derive(Debug)]
pub struct Action {
    pub due: u64,
    pub event: ActionClass,
}

impl View for Action {
    type V = Entry;

    open spec fn view(&self) -> Entry {
        Entry { due: self.due, kind: self.event@ }
    }
}

/// Two actions are equal when they are of the same kind, whenever they are
/// due.
impl PartialEq for Action {
    fn eq(&self, other: &Self) -> (r: bool) {
        self.event == other.event
    }
}

impl PartialEqSpecImpl for Action {
    open spec fn obeys_eq_spec() -> bool {
        true
    }

    open spec fn eq_spec(&self, other: &Self) -> bool {
        self.event@ == other.event@
    }
}

impl Eq for Action {

}

/// Actions are ordered by due instant, the earliest first: the one that is
/// due earlier is the lesser, and two that are due at the same instant rank
/// equal, whatever their kinds.
impl PartialOrd for Action {
    fn partial_cmp(&self, other: &Self) -> (r: Option<Ordering>) {
        if self.due < other.due {
            Some(Ordering::Less)
        } else if self.due == other.due {
            Some(Ordering::Equal)
        } else {
            Some(Ordering::Greater)
        }
    }
}

impl PartialOrdSpecImpl for Action {
    open spec fn obeys_partial_cmp_spec() -> bool {
        true
    }

    open spec fn partial_cmp_spec(&self, other: &Self) -> Option<Ordering> {
        if self.due < other.due {
            Some(Ordering::Less)
        } else if self.due == other.due {
            Some(Ordering::Equal)
        } else {
            Some(Ordering::Greater)
        }
    }
}

impl Clone for Action {
    fn clone(&self) -> (r: Self)
        ensures
            r@ == self@,
    {
        Action { due: self.due, event: self.event.clone() }
    }
}

} // verus!
