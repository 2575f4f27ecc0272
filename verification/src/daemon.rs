//! The daemon as a machine: what happened outside comes in as an event, and
//! what is to happen outside next goes out as an action.
//!
//! The order of a run is: read the timetable's file, set up the mail
//! transport, and then for ever read the clock, deliver what the tick names
//! and rest. Reading files, sending mails, the clock and the rest between
//! two ticks are the caller's part; every decision is made here.

use vstd::prelude::*;
use crate::config::{merge_notes, Config, ConfigView, MergeNote};
use crate::instant::{Instant, Timestamp};
use crate::json::json_of_text;
use crate::schedule::{Tick, TickView};
use crate::timetable::entries_of_json;

verus! {

/// Why the timetable's file gave no text.
#[derive(Clone, Copy, Debug, PartialEq, Eq, Structural)]
pub enum LoadFailure {
    /// There is no such file: the daemon runs for the first time.
    NotFound,
    /// The file is there and could not be read.
    Unreadable,
}

/// The mathematical value of a [`LoadReport`].
pub enum LoadReportView {
    Merged(Seq<MergeNote>),
    Malformed,
    Missing(LoadFailure),
}

/// What came of loading the timetable. None of it keeps the daemon from
/// starting.
#[derive(Debug)]
pub enum LoadReport {
    /// The timetable was merged into the registry; one note for each
    /// recipient.
    Merged(Vec<MergeNote>),
    /// The file's text is not JSON; every recipient keeps its defaults.
    Malformed,
    /// The file gave no text; every recipient keeps its defaults.
    Missing(LoadFailure),
}

impl View for LoadReport {
    type V = LoadReportView;

    open spec fn view(&self) -> LoadReportView {
        match self {
            LoadReport::Merged(notes) => LoadReportView::Merged(notes@),
            LoadReport::Malformed => LoadReportView::Malformed,
            LoadReport::Missing(failure) => LoadReportView::Missing(*failure),
        }
    }
}

/// The mathematical value of an [`Event`].
pub enum EventView {
    Started,
    TimetableRead(Seq<char>),
    TimetableMissing(LoadFailure),
    MailerReady,
    MailerFailed,
    Clock(Instant),
    Delivered { failed: nat },
}

/// What happened outside.
#[derive(Debug)]
pub enum Event {
    /// The daemon was started.
    Started,
    /// The timetable's file was read and held this text.
    TimetableRead(String),
    /// The timetable's file gave no text.
    TimetableMissing(LoadFailure),
    /// The mail transport is set up.
    MailerReady,
    /// The mail transport could not be set up.
    MailerFailed,
    /// The clock was read.
    Clock(Timestamp),
    /// The notifications of the last tick were attempted, of which so many
    /// failed, the timetable was written if it was to be, and the rest
    /// between two ticks is over.
    Delivered { failed: usize },
}

impl View for Event {
    type V = EventView;

    open spec fn view(&self) -> EventView {
        match self {
            Event::Started => EventView::Started,
            Event::TimetableRead(text) => EventView::TimetableRead(text@),
            Event::TimetableMissing(failure) => EventView::TimetableMissing(*failure),
            Event::MailerReady => EventView::MailerReady,
            Event::MailerFailed => EventView::MailerFailed,
            Event::Clock(now) => EventView::Clock(now@),
            Event::Delivered { failed } => EventView::Delivered { failed: *failed as nat },
        }
    }
}

/// The mathematical value of an [`Action`].
pub enum ActionView {
    ReadTimetable,
    OpenMailer(LoadReportView),
    Halt,
    ReadClock,
    Deliver(TickView),
}

/// What is to happen outside next.
#[derive(Debug)]
pub enum Action {
    /// Read the timetable's file and tell what it held.
    ReadTimetable,
    /// Set up the mail transport and tell whether it stands. The report
    /// says what came of the timetable.
    OpenMailer(LoadReport),
    /// Stop: without a mail transport the daemon cannot do its work.
    Halt,
    /// Read the clock and tell the instant.
    ReadClock,
    /// Notify the recipients that the tick names, by a mail or, where the
    /// tick asks for a preview, by showing the mail; write the timetable if
    /// the tick hands one back; rest for the time between two ticks and tell
    /// when that is over.
    Deliver(Tick),
}

impl View for Action {
    type V = ActionView;

    open spec fn view(&self) -> ActionView {
        match self {
            Action::ReadTimetable => ActionView::ReadTimetable,
            Action::OpenMailer(report) => ActionView::OpenMailer(report@),
            Action::Halt => ActionView::Halt,
            Action::ReadClock => ActionView::ReadClock,
            Action::Deliver(tick) => ActionView::Deliver(tick@),
        }
    }
}

impl ConfigView {
    /// The daemon's answer to an event: the state it goes to and the action
    /// it asks for.
    ///
    /// A timetable that was read is merged, one that is no JSON or gave no
    /// text is let be; either way the mail transport is set up next.
    /// Without a transport the daemon halts. With one it asks for the clock,
    /// ticks at the instant it is told, hands out what the tick found, and
    /// asks for the clock again once that is delivered, however many
    /// notifications failed.
    pub open spec fn react(self, event: EventView) -> (ConfigView, ActionView) {
        match event {
            EventView::Started => (self, ActionView::ReadTimetable),
            EventView::TimetableRead(text) => match json_of_text(text) {
                Some(document) => {
                    let table = entries_of_json(document);
                    (
                        self.after_merge(table),
                        ActionView::OpenMailer(
                            LoadReportView::Merged(merge_notes(self.companies, table)),
                        ),
                    )
                },
                None => (self, ActionView::OpenMailer(LoadReportView::Malformed)),
            },
            EventView::TimetableMissing(failure) => (
                self,
                ActionView::OpenMailer(LoadReportView::Missing(failure)),
            ),
            EventView::MailerReady => (self, ActionView::ReadClock),
            EventView::MailerFailed => (self, ActionView::Halt),
            EventView::Clock(now) => (
                self.after_tick(now),
                ActionView::Deliver(self.tick_outcome(now)),
            ),
            EventView::Delivered { failed } => (self, ActionView::ReadClock),
        }
    }

    /// The state after the given events, in their order.
    pub open spec fn after_events(self, events: Seq<EventView>) -> ConfigView
        decreases events.len(),
    {
        if events.len() == 0 {
            self
        } else {
            self.after_events(events.drop_last()).react(events.last()).0
        }
    }
}

impl Config {
    /// One step of the daemon: takes what happened and says what is to
    /// happen next. Only the timetable's text and a reading of the clock
    /// change the state, the first by a merge and the second by a tick. A
    /// recipient is put off by the tick that names it; how its notification
    /// fares afterwards changes nothing, so that one that failed is tried
    /// again after a full interval and not before.
    pub fn run(&mut self, event: Event) -> (action: Action)
        ensures
            (final(self)@, action@) == old(self)@.react(event@),
    {
        match event {
            Event::Started => Action::ReadTimetable,
            Event::TimetableRead(text) => match self.parse_time(text.as_str()) {
                Ok(notes) => Action::OpenMailer(LoadReport::Merged(notes)),
                Err(_) => Action::OpenMailer(LoadReport::Malformed),
            },
            Event::TimetableMissing(failure) => Action::OpenMailer(LoadReport::Missing(failure)),
            Event::MailerReady => Action::ReadClock,
            Event::MailerFailed => Action::Halt,
            Event::Clock(now) => Action::Deliver(self.tick(&now)),
            Event::Delivered { failed: _ } => Action::ReadClock,
        }
    }
}

} // verus!
