//! What holds of the registry, the timetable and the tick together.

use vstd::prelude::*;
use crate::company::{CompanyView, NextOutcome, Step};
use crate::config::{
    distinct_names, entry_json, gives_back, merge_note, merge_notes, merged, merged_company,
    restorable, snapshot_json, ConfigView, MergeNote,
};
use crate::daemon::{ActionView, EventView};
use crate::instant::{
    instant_of_text, text_of_instant, Instant, MAX_SECONDS, NANOS_PER_SECOND, SECONDS_PER_DAY,
};
use crate::json::{json_of_text, text_of_json, JsonModel};
use crate::schedule::{steps, ticked};
use crate::timetable::{
    entries_of_json, entry_of_json, lemma_keys_differ, next_key, reminder_key, EntryView,
};

verus! {

/// Whether a recipient of the given name is in the registry.
pub open spec fn has_name(companies: Seq<CompanyView>, name: Seq<char>) -> bool {
    exists|i: int| 0 <= i < companies.len() && (#[trigger] companies[i]).name == name
}

/// A merge keeps every recipient's name and place.
pub proof fn lemma_merge_keeps_names(companies: Seq<CompanyView>, table: Map<Seq<char>, EntryView>)
    ensures
        merged(companies, table).len() == companies.len(),
        forall|i: int|
            0 <= i < companies.len() ==> (#[trigger] merged(companies, table)[i]).name
                == companies[i].name,
{
}

/// The timetable written for a registry has an entry under a name exactly
/// where the registry has a recipient of that name.
pub proof fn lemma_snapshot_names(companies: Seq<CompanyView>, name: Seq<char>)
    ensures
        entries_of_json(snapshot_json(companies)).contains_key(name) <==> has_name(
            companies,
            name,
        ),
    decreases companies.len(),
{
    if companies.len() > 0 {
        let before = companies.drop_last();
        lemma_snapshot_names(before, name);
        if has_name(before, name) {
            let i = choose|i: int| 0 <= i < before.len() && (#[trigger] before[i]).name == name;
            assert(companies[i].name == name);
        }
        if has_name(companies, name) {
            let i = choose|i: int|
                0 <= i < companies.len() && (#[trigger] companies[i]).name == name;
            if i < before.len() {
                assert(before[i].name == name);
            }
        }
        if companies.last().name == name {
            assert(companies[companies.len() - 1].name == name);
        }
    }
}

/// An entry of the timetable under a name that no recipient has is passed
/// over: the merge and its report are what they are without that entry.
pub proof fn lemma_unknown_entry_is_ignored(
    companies: Seq<CompanyView>,
    table: Map<Seq<char>, EntryView>,
    name: Seq<char>,
    entry: EntryView,
)
    requires
        !has_name(companies, name),
    ensures
        merged(companies, table.insert(name, entry)) == merged(companies, table),
        merge_notes(companies, table.insert(name, entry)) == merge_notes(companies, table),
{
    let with_entry = table.insert(name, entry);
    assert forall|i: int| 0 <= i < companies.len() implies merged_company(
        #[trigger] companies[i],
        with_entry,
    ) == merged_company(companies[i], table) && merge_note(companies[i], with_entry)
        == merge_note(companies[i], table) by {
        assert(companies[i].name != name);
    }
    assert(merged(companies, with_entry) =~= merged(companies, table));
    assert(merge_notes(companies, with_entry) =~= merge_notes(companies, table));
}

/// Recipients are merged apart: what the timetable holds under one name is
/// of no account to a recipient of another name.
pub proof fn lemma_entries_are_merged_apart(
    companies: Seq<CompanyView>,
    table: Map<Seq<char>, EntryView>,
    name: Seq<char>,
    entry: EntryView,
    j: int,
)
    requires
        0 <= j < companies.len(),
        companies[j].name != name,
    ensures
        merged(companies, table.insert(name, entry))[j] == merged(companies, table)[j],
        merged(companies, table.remove(name))[j] == merged(companies, table)[j],
        merge_notes(companies, table.insert(name, entry))[j] == merge_notes(companies, table)[j],
        merge_notes(companies, table.remove(name))[j] == merge_notes(companies, table)[j],
{
}

/// A name that the registry lacks is not in the timetable that is written
/// after a merge, whatever the merged timetable held under that name.
pub proof fn lemma_unknown_entry_is_not_written(
    companies: Seq<CompanyView>,
    table: Map<Seq<char>, EntryView>,
    name: Seq<char>,
)
    requires
        !has_name(companies, name),
    ensures
        !entries_of_json(snapshot_json(merged(companies, table))).contains_key(name),
{
    let after = merged(companies, table);
    lemma_merge_keeps_names(companies, table);
    lemma_snapshot_names(after, name);
    if has_name(after, name) {
        let i = choose|i: int| 0 <= i < after.len() && (#[trigger] after[i]).name == name;
        assert(companies[i].name == name);
    }
}

/// A text under `next` that is no timestamp leaves the recipient's due
/// instant as it was, is reported as malformed, and keeps nothing else from
/// being merged: the count of the same entry is taken, and every other
/// recipient is merged as if the text were sound.
pub proof fn lemma_malformed_next_is_passed_over(
    companies: Seq<CompanyView>,
    table: Map<Seq<char>, EntryView>,
    i: int,
    text: Seq<char>,
)
    requires
        0 <= i < companies.len(),
        table.contains_key(companies[i].name),
        table[companies[i].name].next == Some(text),
        instant_of_text(text) is None,
    ensures
        merged(companies, table)[i].next_hit == companies[i].next_hit,
        table[companies[i].name].reminder matches Some(count) ==> merged(
            companies,
            table,
        )[i].reminder == count,
        merge_notes(companies, table)[i] matches MergeNote::Entry(restored)
            && restored.next == NextOutcome::Malformed,
        forall|j: int|
            0 <= j < companies.len() ==> #[trigger] merged(companies, table)[j]
                == merged_company(companies[j], table),
{
}

/// The document written for a registry is a mapping, whatever the registry
/// holds, and the mapping without entries where it holds no recipient.
pub proof fn lemma_snapshot_is_a_mapping(companies: Seq<CompanyView>)
    ensures
        snapshot_json(companies) is Object,
        companies.len() == 0 ==> snapshot_json(companies) == JsonModel::empty_object(),
        companies.len() == 0 ==> entries_of_json(snapshot_json(companies)) == Map::<
            Seq<char>,
            EntryView,
        >::empty(),
{
    if companies.len() == 0 {
        assert(entries_of_json(snapshot_json(companies)) =~= Map::<Seq<char>, EntryView>::empty());
    }
}

/// The entry written for a recipient reads as its due instant's text and
/// its count.
pub proof fn lemma_entry_reads_back(company: CompanyView)
    requires
        company.reminder <= u64::MAX,
    ensures
        entry_of_json(entry_json(company)) == (EntryView {
            next: Some(text_of_instant(company.next_hit)),
            reminder: Some(company.reminder as u64),
        }),
{
    lemma_keys_differ();
    let first = JsonModel::empty_object().with_member(
        next_key(),
        JsonModel::Text(text_of_instant(company.next_hit)),
    );
    let both = first.with_member(reminder_key(), JsonModel::Integer(company.reminder as int));
    assert(both == entry_json(company));
    assert(both.members().contains_key(next_key()));
    assert(both.members()[next_key()] == JsonModel::Text(text_of_instant(company.next_hit)));
    assert(both.members().contains_key(reminder_key()));
    assert(both.members()[reminder_key()] == JsonModel::Integer(company.reminder as int));
}

/// In a registry without a name twice, the timetable written for it holds
/// under each recipient's name the entry of that recipient.
pub proof fn lemma_snapshot_entry(companies: Seq<CompanyView>, i: int)
    requires
        distinct_names(companies),
        0 <= i < companies.len(),
    ensures
        snapshot_json(companies).member(companies[i].name) == Some(entry_json(companies[i])),
    decreases companies.len(),
{
    let before = companies.drop_last();
    if i < companies.len() - 1 {
        assert forall|a: int, b: int| 0 <= a < b < before.len() implies (
        #[trigger] before[a]).name != (#[trigger] before[b]).name by {
            assert(companies[a].name != companies[b].name);
        }
        lemma_snapshot_entry(before, i);
        assert(before[i] == companies[i]);
        assert(companies[i].name != companies[companies.len() - 1].name);
    }
}

/// A timetable that gives a recipient back restores it: a recipient of the
/// same name that merges the timetable holds the due instant and the count
/// of the one given back.
pub proof fn lemma_given_back_is_restored(
    company: CompanyView,
    start: CompanyView,
    table: Map<Seq<char>, EntryView>,
)
    requires
        gives_back(company, table),
        start.name == company.name,
    ensures
        merged_company(start, table).name == company.name,
        merged_company(start, table).next_hit == company.next_hit,
        merged_company(start, table).reminder == company.reminder,
{
}

/// A timetable that gives a registry back restores it into any registry of
/// the same names, in whatever order those stand.
pub proof fn lemma_restorable_is_restored(
    companies: Seq<CompanyView>,
    start: Seq<CompanyView>,
    table: Map<Seq<char>, EntryView>,
    i: int,
    j: int,
)
    requires
        restorable(companies, table),
        0 <= i < companies.len(),
        0 <= j < start.len(),
        start[j].name == companies[i].name,
    ensures
        merged(start, table)[j].name == companies[i].name,
        merged(start, table)[j].next_hit == companies[i].next_hit,
        merged(start, table)[j].reminder == companies[i].reminder,
{
    lemma_given_back_is_restored(companies[i], start[j], table);
}

/// The timetable written for a registry without a name twice gives a
/// recipient back wherever chrono reads the text of its due instant back as
/// that instant.
pub proof fn lemma_snapshot_gives_back(companies: Seq<CompanyView>, i: int)
    requires
        distinct_names(companies),
        0 <= i < companies.len(),
        companies[i].reminder <= u64::MAX,
        instant_of_text(text_of_instant(companies[i].next_hit)) == Some(companies[i].next_hit),
    ensures
        gives_back(companies[i], entries_of_json(snapshot_json(companies))),
{
    lemma_snapshot_entry(companies, i);
    lemma_entry_reads_back(companies[i]);
}

/// Round trip through the timetable. A registry without a name twice is
/// written, and what was written is merged into a registry that holds the
/// same names, in whatever order. Then every recipient has the count that
/// was written, and the due instant that was written wherever chrono reads
/// the text of that instant back as the same instant.
pub proof fn lemma_snapshot_restores(
    companies: Seq<CompanyView>,
    start: Seq<CompanyView>,
    i: int,
    j: int,
)
    requires
        distinct_names(companies),
        0 <= i < companies.len(),
        0 <= j < start.len(),
        start[j].name == companies[i].name,
        companies[i].reminder <= u64::MAX,
    ensures
        ({
            let after = merged(start, entries_of_json(snapshot_json(companies)))[j];
            &&& after.name == companies[i].name
            &&& after.reminder == companies[i].reminder
            &&& instant_of_text(text_of_instant(companies[i].next_hit)) == Some(
                companies[i].next_hit,
            ) ==> after.next_hit == companies[i].next_hit
        }),
{
    lemma_snapshot_entry(companies, i);
    lemma_entry_reads_back(companies[i]);
}

/// Round trip through the timetable's file. The text that is written for a
/// registry without a name twice is read and merged into a registry that
/// holds the same names, in whatever order. Wherever serde_json reads that
/// text back as the document it was written for, every recipient has the
/// count that was written, and the due instant that was written wherever
/// chrono reads the text of that instant back as the same instant.
pub proof fn lemma_written_text_restores(
    companies: Seq<CompanyView>,
    start: Seq<CompanyView>,
    i: int,
    j: int,
)
    requires
        distinct_names(companies),
        0 <= i < companies.len(),
        0 <= j < start.len(),
        start[j].name == companies[i].name,
        companies[i].reminder <= u64::MAX,
    ensures
        ({
            let text = text_of_json(snapshot_json(companies));
            json_of_text(text) == Some(snapshot_json(companies)) ==> {
                let after = merged(start, entries_of_json(json_of_text(text).unwrap()))[j];
                &&& after.name == companies[i].name
                &&& after.reminder == companies[i].reminder
                &&& instant_of_text(text_of_instant(companies[i].next_hit)) == Some(
                    companies[i].next_hit,
                ) ==> after.next_hit == companies[i].next_hit
            }
        }),
{
    lemma_snapshot_restores(companies, start, i, j);
}

/// A recipient that is due at a tick is named for notification and is then
/// due one interval after the tick, wherever an instant lies there: at the
/// same time of day, so many days on. A tick within a leap second puts off
/// to the ordinary second of that name, unless the interval is no days. No
/// outcome of a notification has a part in it.
pub proof fn lemma_due_is_put_off(companies: Seq<CompanyView>, now: Instant, i: int)
    requires
        0 <= i < companies.len(),
        companies[i].due(now),
        now.secs + SECONDS_PER_DAY * companies[i].interval <= MAX_SECONDS,
    ensures
        steps(companies, now)[i] == (Step::Due { rescheduled: true }),
        ticked(companies, now)[i] == (CompanyView {
            next_hit: ticked(companies, now)[i].next_hit,
            ..companies[i]
        }),
        ticked(companies, now)[i].next_hit.secs == now.secs + SECONDS_PER_DAY
            * companies[i].interval,
        now.nanos < NANOS_PER_SECOND || companies[i].interval == 0 ==> ticked(
            companies,
            now,
        )[i].next_hit.nanos == now.nanos,
        now.nanos >= NANOS_PER_SECOND && companies[i].interval > 0 ==> ticked(
            companies,
            now,
        )[i].next_hit.nanos == now.nanos - NANOS_PER_SECOND,
{
    assert(SECONDS_PER_DAY * companies[i].interval == 0 <==> companies[i].interval == 0)
        by (nonlinear_arith);
}

/// A recipient that is due at a tick and has no instant one interval after
/// it is named for notification and left as it is, so that it is due at
/// every later tick too.
pub proof fn lemma_due_without_successor_stays_due(
    companies: Seq<CompanyView>,
    now: Instant,
    later: Instant,
    i: int,
)
    requires
        0 <= i < companies.len(),
        companies[i].due(now),
        now.plus_days(companies[i].interval as int) is None,
        now.le(later),
    ensures
        ticked(companies, now)[i] == companies[i],
        steps(companies, now)[i] == (Step::Due { rescheduled: false }),
        ticked(companies, now)[i].due(later),
{
}

/// A recipient whose due instant lies after the tick is left wholly as it
/// is and is not named for notification.
pub proof fn lemma_waiting_is_untouched(companies: Seq<CompanyView>, now: Instant, i: int)
    requires
        0 <= i < companies.len(),
        !companies[i].due(now),
    ensures
        ticked(companies, now)[i] == companies[i],
        steps(companies, now)[i] == Step::Waiting,
{
}

/// However the notifications of a tick fared, the daemon's state is what
/// the tick made of it.
pub proof fn lemma_delivery_changes_nothing(config: ConfigView, failed: nat)
    ensures
        config.react(EventView::Delivered { failed }) == (config, ActionView::ReadClock),
{
}

/// No event changes whether the run is a dry one.
pub proof fn lemma_dry_run_is_kept(config: ConfigView, events: Seq<EventView>)
    ensures
        config.after_events(events).dry_run == config.dry_run,
    decreases events.len(),
{
    if events.len() > 0 {
        lemma_dry_run_is_kept(config, events.drop_last());
    }
}

/// A dry run sends nothing and persists nothing: after any events, what
/// the daemon asks to be delivered is to be shown, not sent, and comes
/// with no timetable to write. A real run asks for mails and hands back a
/// timetable with every tick.
pub proof fn lemma_dry_run_only_shows(
    config: ConfigView,
    events: Seq<EventView>,
    event: EventView,
)
    ensures
        config.after_events(events).react(event).1 matches ActionView::Deliver(tick) ==> {
            &&& tick.preview == config.dry_run
            &&& tick.persist is None <==> config.dry_run
        },
{
    lemma_dry_run_is_kept(config, events);
}

/// A dry run moves the registry exactly as a real run does: two states that
/// differ at most in that setting hold the same registry after the same
/// events, and name the same recipients for notification at every tick.
pub proof fn lemma_dry_run_advances_alike(
    dry: ConfigView,
    live: ConfigView,
    events: Seq<EventView>,
    now: Instant,
)
    requires
        dry.companies == live.companies,
    ensures
        dry.after_events(events).companies == live.after_events(events).companies,
        dry.after_events(events).tick_outcome(now).steps == live.after_events(
            events,
        ).tick_outcome(now).steps,
    decreases events.len(),
{
    if events.len() > 0 {
        lemma_dry_run_advances_alike(dry, live, events.drop_last(), now);
    }
}

} // verus!
