//! The persisted timetable: for each recipient's name, when it is next due
//! and how often it has been reminded.
//!
//! On disk a timetable is a JSON object with one member for each recipient,
//! itself an object with the members `next`, an RFC 3339 text, and
//! `reminder`, a count. Reading is forgiving: a member of the wrong kind
//! counts as absent, and a document that is no object has no entries.

use vstd::prelude::*;
use crate::json::{
    json_count, json_member, json_model, json_of_text, json_parse, json_render, json_text,
    text_of_json, JsonModel,
};

verus! {

/// The name under which an entry holds the next due instant.
pub open spec fn next_key() -> Seq<char> {
    "next"@
}

/// The name under which an entry holds the count of reminders.
pub open spec fn reminder_key() -> Seq<char> {
    "reminder"@
}

/// The two names differ.
pub proof fn lemma_keys_differ()
    ensures
        next_key() != reminder_key(),
{
    reveal_strlit("next");
    reveal_strlit("reminder");
    assert(next_key().len() == 4);
    assert(reminder_key().len() == 8);
}

/// The mathematical value of a [`TimetableEntry`].
pub struct EntryView {
    /// The text under `next`, if a string stands there.
    pub next: Option<Seq<char>>,
    /// The number under `reminder`, if a count stands there.
    pub reminder: Option<u64>,
}

/// What a timetable says of one recipient.
#[derive(Debug)]
pub struct TimetableEntry {
    /// The next due instant as written, not yet read as a timestamp.
    pub next: Option<String>,
    /// The count of reminders.
    pub reminder: Option<u64>,
}

impl View for TimetableEntry {
    type V = EntryView;

    open spec fn view(&self) -> EntryView {
        EntryView {
            next: match self.next {
                Some(text) => Some(text@),
                None => None,
            },
            reminder: self.reminder,
        }
    }
}

/// The entry that a member of the document stands for.
pub open spec fn entry_of_json(entry: JsonModel) -> EntryView {
    EntryView {
        next: match entry.member(next_key()) {
            Some(value) => value.as_text(),
            None => None,
        },
        reminder: match entry.member(reminder_key()) {
            Some(value) => value.as_count(),
            None => None,
        },
    }
}

/// The entries of a document, by recipient name.
pub open spec fn entries_of_json(document: JsonModel) -> Map<Seq<char>, EntryView> {
    Map::new(
        |name: Seq<char>| document.members().contains_key(name),
        |name: Seq<char>| entry_of_json(document.members()[name]),
    )
}

/// Why a text was not taken as a timetable.
#[derive(Clone, Copy, Debug, PartialEq, Eq, Structural)]
pub enum TimetableError {
    /// The text is not JSON.
    Malformed,
}

/// A timetable as read from, or made for, its file.
pub struct Timetable {
    json: serde_json::Value,
}

impl View for Timetable {
    type V = Map<Seq<char>, EntryView>;

    open spec fn view(&self) -> Map<Seq<char>, EntryView> {
        entries_of_json(self.document())
    }
}

impl Timetable {
    /// The JSON document that holds the timetable.
    pub closed spec fn document(&self) -> JsonModel {
        json_model(self.json)
    }

    /// Wraps a document.
    pub(crate) fn from_json(json: serde_json::Value) -> (r: Timetable)
        ensures
            r.document() == json_model(json),
    {
        Timetable { json }
    }

    /// Reads a timetable from the text of its file. Any JSON text is taken;
    /// anything else is refused.
    pub fn parse(text: &str) -> (r: Result<Timetable, TimetableError>)
        ensures
            r is Ok <==> json_of_text(text@) is Some,
            r matches Ok(table) ==> json_of_text(text@) == Some(table.document()),
    {
        match json_parse(text) {
            Ok(json) => Ok(Timetable { json }),
            Err(_) => Err(TimetableError::Malformed),
        }
    }

    /// The entry of the recipient of the given name, if the timetable has
    /// one.
    pub fn entry(&self, name: &str) -> (r: Option<TimetableEntry>)
        ensures
            r is Some <==> self@.contains_key(name@),
            r matches Some(entry) ==> entry@ == self@[name@],
    {
        match json_member(&self.json, name) {
            None => None,
            Some(found) => {
                let next = match json_member(found, "next") {
                    Some(value) => match json_text(value) {
                        Some(text) => Some(text.to_owned()),
                        None => None,
                    },
                    None => None,
                };
                let reminder = match json_member(found, "reminder") {
                    Some(value) => json_count(value),
                    None => None,
                };
                Some(TimetableEntry { next, reminder })
            },
        }
    }

    /// The text to write to the timetable's file.
    pub fn render(&self) -> (r: String)
        ensures
            r@ == text_of_json(self.document()),
    {
        json_render(&self.json)
    }
}

} // verus!
