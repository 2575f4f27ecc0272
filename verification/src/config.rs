//! The daemon's state: the servers, the registry of recipients and the
//! settings, with the merge of a persisted timetable into the registry and
//! the snapshot of the registry that is persisted.

use vstd::prelude::*;
use crate::company::{Company, CompanyView, Restored};
use crate::instant::{instant_of_text, text_of_instant, Timestamp};
use crate::json::{
    json_assign, json_from_count, json_from_text, json_model, json_object, json_of_text,
    text_of_json, JsonModel,
};
use crate::server::{ServerConfig, ServerView};
use crate::text::same_text;
use crate::timetable::{
    entries_of_json, next_key, reminder_key, EntryView, Timetable, TimetableError,
};

verus! {

/// What the merge of a timetable found for one recipient.
#[derive(Clone, Copy, Debug, PartialEq, Eq, Structural)]
pub enum MergeNote {
    /// The timetable has no entry of that name; the recipient keeps what it
    /// had.
    NoEntry,
    /// The timetable has an entry, which was taken as told.
    Entry(Restored),
}

/// The mathematical value of a [`Config`].
pub struct ConfigView {
    pub imap_control: ServerView,
    pub imap: ServerView,
    pub smtp: ServerView,
    pub companies: Seq<CompanyView>,
    pub dry_run: bool,
    pub time_file: Seq<char>,
}

/// No two recipients of the registry have one name.
pub open spec fn distinct_names(companies: Seq<CompanyView>) -> bool {
    forall|i: int, j: int|
        0 <= i < j < companies.len() ==> (#[trigger] companies[i]).name != (
        #[trigger] companies[j]).name
}

/// The recipient after the merge of a timetable.
pub open spec fn merged_company(company: CompanyView, table: Map<Seq<char>, EntryView>)
    -> CompanyView {
    if table.contains_key(company.name) {
        company.restored(table[company.name])
    } else {
        company
    }
}

/// What the merge of a timetable reports of the recipient.
pub open spec fn merge_note(company: CompanyView, table: Map<Seq<char>, EntryView>) -> MergeNote {
    if table.contains_key(company.name) {
        MergeNote::Entry(CompanyView::restore_outcome(table[company.name]))
    } else {
        MergeNote::NoEntry
    }
}

/// The registry after the merge of a timetable: each recipient by itself.
pub open spec fn merged(companies: Seq<CompanyView>, table: Map<Seq<char>, EntryView>) -> Seq<
    CompanyView,
> {
    companies.map_values(|company: CompanyView| merged_company(company, table))
}

/// The report of a merge: one note for each recipient, in the registry's
/// order.
pub open spec fn merge_notes(companies: Seq<CompanyView>, table: Map<Seq<char>, EntryView>)
    -> Seq<MergeNote> {
    companies.map_values(|company: CompanyView| merge_note(company, table))
}

/// Whether a timetable gives a recipient back: under the recipient's name
/// it holds the recipient's count of reminders and a text that reads as the
/// recipient's due instant.
pub open spec fn gives_back(company: CompanyView, table: Map<Seq<char>, EntryView>) -> bool {
    &&& table.contains_key(company.name)
    &&& table[company.name].reminder matches Some(count) && count == company.reminder
    &&& table[company.name].next matches Some(text) && instant_of_text(text) == Some(
        company.next_hit,
    )
}

/// Whether a timetable gives every recipient of the registry back.
pub open spec fn restorable(companies: Seq<CompanyView>, table: Map<Seq<char>, EntryView>) -> bool {
    forall|i: int| 0 <= i < companies.len() ==> gives_back(#[trigger] companies[i], table)
}

/// The timetable entry that is written for a recipient.
pub open spec fn entry_json(company: CompanyView) -> JsonModel {
    JsonModel::empty_object().with_member(
        next_key(),
        JsonModel::Text(text_of_instant(company.next_hit)),
    ).with_member(reminder_key(), JsonModel::Integer(company.reminder as int))
}

/// The document that is written for a registry: an object with one entry
/// under each recipient's name, and so without members for a registry
/// without recipients. Of two recipients of one name the later one is
/// written.
pub open spec fn snapshot_json(companies: Seq<CompanyView>) -> JsonModel
    decreases companies.len(),
{
    if companies.len() == 0 {
        JsonModel::empty_object()
    } else {
        snapshot_json(companies.drop_last()).with_member(
            companies.last().name,
            entry_json(companies.last()),
        )
    }
}

/// The daemon's configuration and state.
#[derive(Debug)]
pub struct Config {
    pub imap_control: ServerConfig,
    pub imap: ServerConfig,
    pub smtp: ServerConfig,
    /// The registry of recipients.
    pub companies: Vec<Company>,
    /// Whether mails are shown instead of sent, and nothing is persisted.
    pub dry_run: bool,
    /// The path of the timetable's file.
    pub time_file: String,
}

impl View for Config {
    type V = ConfigView;

    open spec fn view(&self) -> ConfigView {
        ConfigView {
            imap_control: self.imap_control@,
            imap: self.imap@,
            smtp: self.smtp@,
            companies: self.companies@.map_values(|company: Company| company@),
            dry_run: self.dry_run,
            time_file: self.time_file@,
        }
    }
}

impl ConfigView {
    /// The state after the merge of a timetable: the registry merged,
    /// everything else as it was.
    pub open spec fn after_merge(self, table: Map<Seq<char>, EntryView>) -> ConfigView {
        ConfigView { companies: merged(self.companies, table), ..self }
    }

    /// The configuration to start from: no server set, no recipient, mails
    /// sent for real, the timetable in `time.json`.
    pub open spec fn initial() -> ConfigView {
        ConfigView {
            imap_control: ServerView::unset(),
            imap: ServerView::unset(),
            smtp: ServerView::unset(),
            companies: Seq::empty(),
            dry_run: false,
            time_file: "time.json"@,
        }
    }
}

impl Default for Config {
    fn default() -> (r: Config)
        ensures
            r@ == ConfigView::initial(),
            r.companies@.len() == 0,
    {
        let r = Config {
            imap: ServerConfig::new(),
            smtp: ServerConfig::new(),
            imap_control: ServerConfig::new(),
            companies: Vec::new(),
            dry_run: false,
            time_file: "time.json".to_owned(),
        };
        assert(r@.companies =~= Seq::empty());
        r
    }
}

impl Config {
    /// The configuration to start from.
    pub fn new() -> (r: Config)
        ensures
            r@ == ConfigView::initial(),
            r.companies@.len() == 0,
    {
        Config::default()
    }

    /// Whether no two recipients have one name, as the timetable needs it
    /// to tell them apart.
    pub fn has_distinct_names(&self) -> (r: bool)
        ensures
            r == distinct_names(self@.companies),
    {
        let count = self.companies.len();
        let mut j: usize = 0;
        while j < count
            invariant
                j <= count,
                count == self.companies@.len(),
                forall|a: int, b: int|
                    0 <= a < b < j ==> (#[trigger] self@.companies[a]).name != (
                    #[trigger] self@.companies[b]).name,
            decreases count - j,
        {
            let mut i: usize = 0;
            while i < j
                invariant
                    i <= j < count,
                    count == self.companies@.len(),
                    forall|a: int|
                        0 <= a < i ==> (#[trigger] self@.companies[a]).name
                            != self@.companies[j as int].name,
                decreases j - i,
            {
                if same_text(self.companies[i].name.as_str(), self.companies[j].name.as_str()) {
                    assert(self@.companies[i as int].name == self@.companies[j as int].name);
                    return false;
                }
                i += 1;
            }
            j += 1;
        }
        true
    }

    /// Merges a timetable into the registry. Each recipient takes over the
    /// entry of its name, member by member; a recipient without an entry
    /// keeps what it had. The result tells for each recipient what was
    /// found.
    pub fn merge(&mut self, table: &Timetable) -> (notes: Vec<MergeNote>)
        ensures
            final(self)@ == old(self)@.after_merge(table@),
            notes@ == merge_notes(old(self)@.companies, table@),
    {
        let mut notes: Vec<MergeNote> = Vec::new();
        let count = self.companies.len();
        let mut i: usize = 0;
        while i < count
            invariant
                i <= count,
                count == old(self).companies@.len(),
                self.companies@.len() == count,
                self.imap_control == old(self).imap_control,
                self.imap == old(self).imap,
                self.smtp == old(self).smtp,
                self.dry_run == old(self).dry_run,
                self.time_file == old(self).time_file,
                forall|j: int|
                    0 <= j < i ==> (#[trigger] self.companies@[j])@ == merged_company(
                        old(self).companies@[j]@,
                        table@,
                    ),
                forall|j: int|
                    i <= j < count ==> (#[trigger] self.companies@[j]) == old(self).companies@[j],
                notes@.len() == i,
                forall|j: int|
                    0 <= j < i ==> #[trigger] notes@[j] == merge_note(
                        old(self).companies@[j]@,
                        table@,
                    ),
            decreases count - i,
        {
            let found = table.entry(self.companies[i].name.as_str());
            let note = match found {
                Some(entry) => MergeNote::Entry(self.companies[i].restore(&entry)),
                None => MergeNote::NoEntry,
            };
            notes.push(note);
            i += 1;
        }
        assert(self@.companies =~= merged(old(self)@.companies, table@));
        assert(notes@ =~= merge_notes(old(self)@.companies, table@));
        notes
    }

    /// The timetable of the registry as it stands: one entry for each
    /// recipient, under its name, with its due instant as RFC 3339 text and
    /// its count of reminders. Nothing else is in it.
    pub fn snapshot(&self) -> (table: Timetable)
        ensures
            table.document() == snapshot_json(self@.companies),
    {
        let mut json = json_object();
        let count = self.companies.len();
        let mut i: usize = 0;
        assert(self@.companies.take(0) =~= Seq::empty());
        while i < count
            invariant
                i <= count,
                count == self.companies@.len(),
                json_model(json) == snapshot_json(self@.companies.take(i as int)),
            decreases count - i,
        {
            let company = &self.companies[i];
            let next = company.next_hit.to_rfc3339();
            let mut entry = json_object();
            json_assign(&mut entry, "next", json_from_text(next.as_str()));
            json_assign(&mut entry, "reminder", json_from_count(company.reminder));
            json_assign(&mut json, company.name.as_str(), entry);
            proof {
                let done = self@.companies.take(i as int + 1);
                assert(done.drop_last() =~= self@.companies.take(i as int));
                assert(done.last() == company@);
            }
            i += 1;
        }
        assert(self@.companies.take(count as int) =~= self@.companies);
        Timetable::from_json(json)
    }

    /// Whether a timetable gives every recipient back, so that a registry
    /// of the same names that merges it holds the schedule of this one.
    pub fn loads_back_from(&self, table: &Timetable) -> (r: bool)
        ensures
            r == restorable(self@.companies, table@),
    {
        let count = self.companies.len();
        let mut i: usize = 0;
        while i < count
            invariant
                i <= count,
                count == self.companies@.len(),
                forall|j: int| 0 <= j < i ==> gives_back(#[trigger] self@.companies[j], table@),
            decreases count - i,
        {
            let company = &self.companies[i];
            let given = match table.entry(company.name.as_str()) {
                Some(entry) => {
                    let count_given = match entry.reminder {
                        Some(reminder) => reminder == company.reminder,
                        None => false,
                    };
                    let instant_given = match &entry.next {
                        Some(text) => match Timestamp::parse(text.as_str()) {
                            Ok(at) => {
                                proof {
                                    if at@ == company.next_hit@ {
                                        at.lemma_view_is_injective(company.next_hit);
                                    }
                                }
                                at == company.next_hit
                            },
                            Err(_) => false,
                        },
                        None => false,
                    };
                    count_given && instant_given
                },
                None => false,
            };
            assert(given == gives_back(self@.companies[i as int], table@));
            if !given {
                return false;
            }
            i += 1;
        }
        true
    }

    /// Whether a text, read as a timetable, gives every recipient back. A
    /// text that is not JSON gives nothing back.
    pub fn loads_back_from_text(&self, text: &str) -> (r: bool)
        ensures
            r == match json_of_text(text@) {
                Some(document) => restorable(self@.companies, entries_of_json(document)),
                None => false,
            },
    {
        match Timetable::parse(text) {
            Ok(table) => self.loads_back_from(&table),
            Err(_) => false,
        }
    }

    /// The text to write to the timetable's file for the registry as it
    /// stands.
    pub fn timetable_text(&self) -> (r: String)
        ensures
            r@ == text_of_json(snapshot_json(self@.companies)),
    {
        self.snapshot().render()
    }

    /// Merges the timetable that a text holds into the registry. A text
    /// that is not JSON is refused and leaves the registry as it is.
    pub fn parse_time(&mut self, data: &str) -> (r: Result<Vec<MergeNote>, TimetableError>)
        ensures
            r is Ok <==> json_of_text(data@) is Some,
            r is Err ==> final(self)@ == old(self)@,
            r matches Ok(notes) ==> {
                let table = entries_of_json(json_of_text(data@).unwrap());
                &&& final(self)@ == old(self)@.after_merge(table)
                &&& notes@ == merge_notes(old(self)@.companies, table)
            },
    {
        match Timetable::parse(data) {
            Ok(table) => Ok(self.merge(&table)),
            Err(error) => Err(error),
        }
    }
}

} // verus!
