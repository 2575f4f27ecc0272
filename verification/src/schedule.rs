//! The scheduler's tick: one scan of the registry at one instant.

use vstd::prelude::*;
use crate::company::{CompanyView, Step};
use crate::config::{snapshot_json, Config, ConfigView};
use crate::instant::{Instant, Timestamp};
use crate::json::text_of_json;

verus! {

/// Seconds between two ticks.
pub const TICK_SECONDS: u64 = 100;

/// The registry after a tick at `now`: each recipient by itself, all
/// against the same instant.
pub open spec fn ticked(companies: Seq<CompanyView>, now: Instant) -> Seq<CompanyView> {
    companies.map_values(|company: CompanyView| company.stepped(now))
}

/// What a tick at `now` finds: one step for each recipient, in the
/// registry's order.
pub open spec fn steps(companies: Seq<CompanyView>, now: Instant) -> Seq<Step> {
    companies.map_values(|company: CompanyView| company.step(now))
}

/// What is persisted after a tick that left the registry as `companies`:
/// nothing in a dry run, else the registry's timetable as text.
pub open spec fn persisted(companies: Seq<CompanyView>, dry_run: bool) -> Option<Seq<char>> {
    if dry_run {
        None
    } else {
        Some(text_of_json(snapshot_json(companies)))
    }
}

/// The mathematical value of a [`Tick`].
pub struct TickView {
    pub steps: Seq<Step>,
    pub preview: bool,
    pub persist: Option<Seq<char>>,
}

impl ConfigView {
    /// The state after a tick at `now`: the registry ticked, everything
    /// else as it was.
    pub open spec fn after_tick(self, now: Instant) -> ConfigView {
        ConfigView { companies: ticked(self.companies, now), ..self }
    }

    /// What a tick at `now` hands back: what it found of each recipient;
    /// whether the due ones are sent to or, in a dry run, only shown; and
    /// the timetable of the registry as the tick left it, unless this is a
    /// dry run.
    pub open spec fn tick_outcome(self, now: Instant) -> TickView {
        TickView {
            steps: steps(self.companies, now),
            preview: self.dry_run,
            persist: persisted(ticked(self.companies, now), self.dry_run),
        }
    }
}

/// What is to be done after a tick.
#[derive(Debug)]
pub struct Tick {
    /// For each recipient, in the registry's order, whether it is due and
    /// so to be notified.
    pub steps: Vec<Step>,
    /// How the due recipients are notified: where this is true, as in a dry
    /// run, nothing is sent and the mail is only shown.
    pub preview: bool,
    /// The text to write to the timetable's file. A dry run writes nothing.
    pub persist: Option<String>,
}

impl View for Tick {
    type V = TickView;

    open spec fn view(&self) -> TickView {
        TickView {
            steps: self.steps@,
            preview: self.preview,
            persist: match self.persist {
                Some(text) => Some(text@),
                None => None,
            },
        }
    }
}

impl Config {
    /// One tick of the scheduler at `now`. Every recipient whose due
    /// instant has come is named for notification and put off to one
    /// interval after `now`; where no instant lies there it is left as it is
    /// and stays due. Whether a notification succeeds later has no part in
    /// this. In a dry run the tick asks for the mails to be shown and not
    /// sent, and for nothing to be written; else the registry's timetable is
    /// handed back to be written.
    pub fn tick(&mut self, now: &Timestamp) -> (r: Tick)
        ensures
            final(self)@ == old(self)@.after_tick(now@),
            r@ == old(self)@.tick_outcome(now@),
    {
        let mut found: Vec<Step> = Vec::new();
        let count = self.companies.len();
        let mut i: usize = 0;
        while i < count
            invariant
                i <= count,
                count == old(self).companies@.len(),
                self.companies@.len() == count,
                self.imap_control == old(self).imap_control,
                self.imap == old(self).imap,
                self.smtp == old(self).smtp,
                self.dry_run == old(self).dry_run,
                self.time_file == old(self).time_file,
                forall|j: int|
                    0 <= j < i ==> (#[trigger] self.companies@[j])@ == old(
                        self,
                    ).companies@[j]@.stepped(now@),
                forall|j: int|
                    i <= j < count ==> (#[trigger] self.companies@[j]) == old(self).companies@[j],
                found@.len() == i,
                forall|j: int|
                    0 <= j < i ==> #[trigger] found@[j] == old(self).companies@[j]@.step(now@),
            decreases count - i,
        {
            let step = self.companies[i].step(now);
            found.push(step);
            i += 1;
        }
        assert(self@.companies =~= ticked(old(self)@.companies, now@));
        assert(found@ =~= steps(old(self)@.companies, now@));
        let persist = if self.dry_run {
            None
        } else {
            Some(self.timetable_text())
        };
        Tick { steps: found, preview: self.dry_run, persist }
    }
}

} // verus!
