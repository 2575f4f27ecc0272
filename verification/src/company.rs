//! A recipient of reminders and the state of its schedule.

use vstd::prelude::*;
use crate::instant::{instant_of_text, Instant, Timestamp};
use crate::timetable::{EntryView, TimetableEntry};

verus! {

/// The interval, in days, of a recipient for which none was configured.
pub const DEFAULT_INTERVAL: usize = 365;

/// The mathematical value of a [`Company`].
pub struct CompanyView {
    pub name: Seq<char>,
    pub mail: Seq<char>,
    pub alias: Seq<char>,
    pub onw_name: Seq<char>,
    pub interval: nat,
    pub reminder: nat,
    pub next_hit: Instant,
}

/// How the `next` member of a timetable entry was taken.
#[derive(Clone, Copy, Debug, PartialEq, Eq, Structural)]
pub enum NextOutcome {
    /// The entry has no text under `next`; the due instant stays.
    Absent,
    /// The text was read and is the due instant now.
    Loaded,
    /// The text is no timestamp; the due instant stays.
    Malformed,
}

/// How a timetable entry was taken by a recipient.
#[derive(Clone, Copy, Debug, PartialEq, Eq, Structural)]
pub struct Restored {
    pub next: NextOutcome,
    /// Whether the entry had a count under `reminder`, which was taken.
    pub reminder_loaded: bool,
}

/// What a tick found of a recipient.
#[derive(Clone, Copy, Debug, PartialEq, Eq, Structural)]
pub enum Step {
    /// The due instant lies ahead; nothing was done.
    Waiting,
    /// The recipient is due and is to be notified. Where `rescheduled` is
    /// false, no instant lies one interval after the tick and the due
    /// instant was left as it was, so that the recipient stays due.
    Due { rescheduled: bool },
}

impl CompanyView {
    /// A recipient as first constructed, due at `next_hit`.
    pub open spec fn fresh(next_hit: Instant) -> CompanyView {
        CompanyView {
            name: Seq::empty(),
            mail: Seq::empty(),
            alias: Seq::empty(),
            onw_name: Seq::empty(),
            interval: DEFAULT_INTERVAL as nat,
            reminder: 0,
            next_hit,
        }
    }

    /// Whether the recipient is due at `now`: its due instant has come.
    pub open spec fn due(self, now: Instant) -> bool {
        self.next_hit.le(now)
    }

    /// The recipient put off to one interval after `now`, or left as it is
    /// where there is no such instant.
    pub open spec fn rescheduled(self, now: Instant) -> CompanyView {
        match now.plus_days(self.interval as int) {
            Some(next_hit) => CompanyView { next_hit, ..self },
            None => self,
        }
    }

    /// The recipient after a tick at `now`.
    pub open spec fn stepped(self, now: Instant) -> CompanyView {
        if self.due(now) {
            self.rescheduled(now)
        } else {
            self
        }
    }

    /// What a tick at `now` finds of the recipient.
    pub open spec fn step(self, now: Instant) -> Step {
        if self.due(now) {
            Step::Due { rescheduled: now.plus_days(self.interval as int) is Some }
        } else {
            Step::Waiting
        }
    }

    /// The recipient with what a timetable entry holds of it. Each of the
    /// two members is taken by itself: what is absent or unreadable leaves
    /// its field as it was.
    pub open spec fn restored(self, entry: EntryView) -> CompanyView {
        CompanyView {
            next_hit: match entry.next {
                Some(text) => match instant_of_text(text) {
                    Some(at) => at,
                    None => self.next_hit,
                },
                None => self.next_hit,
            },
            reminder: match entry.reminder {
                Some(count) => count as nat,
                None => self.reminder,
            },
            ..self
        }
    }

    /// How a timetable entry is taken.
    pub open spec fn restore_outcome(entry: EntryView) -> Restored {
        Restored {
            next: match entry.next {
                Some(text) => if instant_of_text(text) is Some {
                    NextOutcome::Loaded
                } else {
                    NextOutcome::Malformed
                },
                None => NextOutcome::Absent,
            },
            reminder_loaded: entry.reminder is Some,
        }
    }
}

/// One entity to be reminded.
#[derive(Debug, Clone)]
pub struct Company {
    /// The name by which the timetable knows the recipient.
    pub name: String,
    /// Where reminders are sent.
    pub mail: String,
    /// The address reminders are sent from.
    pub alias: String,
    /// The sender's own name.
    pub onw_name: String,
    /// Days between two reminders.
    pub interval: usize,
    /// How often the recipient has been reminded.
    pub reminder: u64,
    /// The instant at which the recipient is next due.
    pub next_hit: Timestamp,
}

impl View for Company {
    type V = CompanyView;

    open spec fn view(&self) -> CompanyView {
        CompanyView {
            name: self.name@,
            mail: self.mail@,
            alias: self.alias@,
            onw_name: self.onw_name@,
            interval: self.interval as nat,
            reminder: self.reminder as nat,
            next_hit: self.next_hit@,
        }
    }
}

/// The interval of a recipient: its own where one is configured, else the
/// global one where one is configured, else 365 days.
pub open spec fn spec_effective_interval(own: Option<usize>, global: Option<usize>) -> usize {
    match own {
        Some(days) => days,
        None => match global {
            Some(days) => days,
            None => DEFAULT_INTERVAL,
        },
    }
}

/// The interval of a recipient, given what is configured for it and for all.
pub fn effective_interval(own: Option<usize>, global: Option<usize>) -> (r: usize)
    ensures
        r == spec_effective_interval(own, global),
{
    match own {
        Some(days) => days,
        None => match global {
            Some(days) => days,
            None => DEFAULT_INTERVAL,
        },
    }
}

impl Company {
    /// A recipient without name or addresses, reminded every 365 days and
    /// due at the given instant.
    pub fn due_at(next_hit: Timestamp) -> (r: Company)
        ensures
            r@ == CompanyView::fresh(next_hit@),
    {
        Company {
            name: String::new(),
            mail: String::new(),
            alias: String::new(),
            onw_name: String::new(),
            interval: DEFAULT_INTERVAL,
            reminder: 0,
            next_hit,
        }
    }

    /// A recipient without name or addresses, reminded every 365 days and
    /// due at once: at the instant the clock shows.
    pub fn new() -> (r: Company)
        ensures
            r@ == CompanyView::fresh(r@.next_hit),
            r@.next_hit.valid(),
    {
        Company::due_at(Timestamp::now())
    }

    /// Whether the recipient is due at `now`.
    pub fn is_due(&self, now: &Timestamp) -> (r: bool)
        ensures
            r == self@.due(now@),
    {
        self.next_hit.le(now)
    }

    /// Puts the recipient off to one interval after `now`. Where no instant
    /// lies there, the recipient is left as it is and the result is false.
    pub fn reschedule(&mut self, now: &Timestamp) -> (r: bool)
        ensures
            final(self)@ == old(self)@.rescheduled(now@),
            r == (now@.plus_days(old(self)@.interval as int) is Some),
    {
        match now.plus_days(self.interval as u64) {
            Some(next_hit) => {
                self.next_hit = next_hit;
                true
            },
            None => false,
        }
    }

    /// One tick of the scheduler for this recipient: where it is due at
    /// `now`, it is put off by its interval and named for notification.
    pub fn step(&mut self, now: &Timestamp) -> (r: Step)
        ensures
            final(self)@ == old(self)@.stepped(now@),
            r == old(self)@.step(now@),
    {
        if self.is_due(now) {
            let rescheduled = self.reschedule(now);
            Step::Due { rescheduled }
        } else {
            Step::Waiting
        }
    }

    /// Takes over what a timetable entry holds of this recipient.
    pub fn restore(&mut self, entry: &TimetableEntry) -> (r: Restored)
        ensures
            final(self)@ == old(self)@.restored(entry@),
            r == CompanyView::restore_outcome(entry@),
    {
        let next = match &entry.next {
            Some(text) => match Timestamp::parse(text.as_str()) {
                Ok(at) => {
                    self.next_hit = at;
                    NextOutcome::Loaded
                },
                Err(_) => NextOutcome::Malformed,
            },
            None => NextOutcome::Absent,
        };
        let reminder_loaded = match entry.reminder {
            Some(count) => {
                self.reminder = count;
                true
            },
            None => false,
        };
        Restored { next, reminder_loaded }
    }
}

} // verus!
