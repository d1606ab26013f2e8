//! What is told of a page, said of trajectories as they are recorded: of the tools,
//! arguments and metadata themselves.

use crate::json::named_slug;
use crate::reasoning::{
    action_writes, entry_writes, last_write, observation_after, observation_view, reasoning_of,
    recorded, response_views, slugs_besides, trace, traces, written_slug,
    TrajectoryReasoningResponse,
};
use crate::reasoning_laws::{
    last_write_is_unique, last_write_is_what_is_told, other_slugs_are_the_other_pages,
};
use crate::text::{text_of, texts, trimmed, white_space};
use crate::trajectory::{
    entry_views, Action, ActionView, EntryView, GenerateTrajectoryFile, Observation,
    ObservationView, TrajectoryEntry,
};
use vstd::prelude::*;

verus! {

/// A text is read as its characters, a list of texts one by one, and no text is taken
/// for an absent one.
pub proof fn texts_are_read_as_they_are(strings: Seq<String>, string: String)
    ensures
        texts(strings).len() == strings.len(),
        forall|i: int| 0 <= i < strings.len() ==> #[trigger] texts(strings)[i] == strings[i]@,
        text_of(Some(string)) == Some(string@),
        text_of(None) is None,
{
}

/// Arguments name a page exactly where their member `slug` is that text.
pub proof fn arguments_name_their_slug(
    members: Map<Seq<char>, Option<Seq<char>>>,
    page: Seq<char>,
)
    ensures
        named_slug(members) == Some(page) <==> members.contains_pair("slug"@, Some(page)),
{
}

/// An action is read call by call: its tools by name, its pages by text.
pub proof fn actions_are_read_as_recorded(action: Action)
    ensures
        action@.tools.len() == action.tools@.len(),
        forall|call: int|
            0 <= call < action.tools@.len() ==> #[trigger] action@.tools[call]
                == action.tools@[call].tool_schema.name@,
        action@.param_slugs.len() == action.param_slugs@.len(),
        forall|call: int|
            0 <= call < action.param_slugs@.len() ==> (#[trigger] action@.param_slugs[call])
                == match action.param_slugs@[call] {
                Some(slug) => Some(slug@),
                None => None,
            },
        action@.reasoning == match action.reasoning {
            Some(reasoning) => Some(reasoning@),
            None => None,
        },
{
}

/// What an observation recorded of a call is the metadata at the call's own index,
/// in full; without an observation, and past its metadata, nothing is recorded.
pub proof fn metadata_is_read_as_recorded(observation: Observation, call: int)
    ensures
        observation_view(None) is None,
        recorded(None, call) is None,
        observation_view(Some(&observation)) == Some(observation@),
        observation@.tool_metadata.len() == observation.tool_metadata@.len(),
        match recorded(observation_view(Some(&observation)), call) {
            Some(read) => {
                &&& 0 <= call < observation.tool_metadata@.len()
                &&& observation.tool_metadata@[call] matches Some(m)
                &&& read.skipped_due_to_handoff == m.skipped_due_to_handoff
                &&& read.slug == match m.slug {
                    Some(slug) => Some(slug@),
                    None => None,
                }
            },
            None => 0 <= call < observation.tool_metadata@.len()
                ==> observation.tool_metadata@[call] is None,
        },
{
}

/// A call that was skipped for a lock handoff writes no page, whatever its tool and
/// arguments are and whatever else was recorded of it.
pub proof fn skipped_call_writes_no_page(action: Action, observation: Observation, call: int)
    requires
        0 <= call < observation.tool_metadata@.len(),
        observation.tool_metadata@[call] is Some,
        observation.tool_metadata@[call]->0.skipped_due_to_handoff == Some(true),
    ensures
        written_slug(action@, observation_view(Some(&observation)), call) is None,
{
    assert(observation@.tool_metadata[call] == Some(observation.tool_metadata@[call]->0@));
}

/// A handoff counts only where it is recorded as such: metadata that says nothing of
/// one, or denies it, and no metadata at all, leave a call that names a page its page.
pub proof fn call_that_was_made_writes_the_page_it_names(
    action: Action,
    observation: Option<&Observation>,
    call: int,
)
    requires
        0 <= call < action.tools@.len(),
        action.tools@[call].tool_schema.name@ == "wiki_apply_patch"@
            || action.tools@[call].tool_schema.name@ == "wiki_upsert_file"@,
        call < action.param_slugs@.len(),
        action.param_slugs@[call] is Some,
        observation matches Some(o) ==> call < o.tool_metadata@.len() ==> (
        o.tool_metadata@[call] matches Some(m) ==> m.skipped_due_to_handoff != Some(true)),
    ensures
        written_slug(action@, observation_view(observation), call) == Some(
            action.param_slugs@[call]->0@,
        ),
{
    assert(action@.tools[call] == action.tools@[call].tool_schema.name@);
    assert(action@.param_slugs[call] == Some(action.param_slugs@[call]->0@));
}

/// A call that names no page wrote the page that was recorded of it, and none where
/// none was recorded.
pub proof fn call_that_names_no_page_wrote_the_recorded_one(
    action: Action,
    observation: Option<&Observation>,
    call: int,
)
    requires
        0 <= call < action.tools@.len(),
        action.tools@[call].tool_schema.name@ == "wiki_apply_patch"@
            || action.tools@[call].tool_schema.name@ == "wiki_upsert_file"@,
        call < action.param_slugs@.len() ==> action.param_slugs@[call] is None,
    ensures
        match observation {
            Some(o) if call < o.tool_metadata@.len() && o.tool_metadata@[call] is Some
                && o.tool_metadata@[call]->0.skipped_due_to_handoff != Some(true) => written_slug(
                action@,
                observation_view(observation),
                call,
            ) == match o.tool_metadata@[call]->0.slug {
                Some(slug) => Some(slug@),
                None => None,
            },
            _ => written_slug(action@, observation_view(observation), call) is None,
        },
{
    assert(action@.tools[call] == action.tools@[call].tool_schema.name@);
    if call < action.param_slugs@.len() {
        assert(action@.param_slugs[call] is None);
    }
}

/// Nothing but a call to one of the two wiki write tools writes a page.
pub proof fn other_tools_write_no_page(
    action: Action,
    observation: Option<&Observation>,
    call: int,
)
    requires
        0 <= call < action.tools@.len() ==> {
            &&& action.tools@[call].tool_schema.name@ != "wiki_apply_patch"@
            &&& action.tools@[call].tool_schema.name@ != "wiki_upsert_file"@
        },
    ensures
        written_slug(action@, observation_view(observation), call) is None,
{
    if 0 <= call < action.tools@.len() {
        assert(action@.tools[call] == action.tools@[call].tool_schema.name@);
    }
}

/// An action writes a page exactly where one of its calls does.
pub proof fn action_writes_what_its_calls_write(
    action: Action,
    observation: Option<&Observation>,
    page: Seq<char>,
)
    ensures
        action_writes(action@, observation_view(observation), page) <==> exists|call: int|
            0 <= call < action.tools@.len() && #[trigger] written_slug(
                action@,
                observation_view(observation),
                call,
            ) == Some(page),
{
    if action_writes(action@, observation_view(observation), page) {
        let call = choose|call: int| #[trigger]
            written_slug(action@, observation_view(observation), call) == Some(page);
        if !(0 <= call < action.tools@.len()) {
            other_tools_write_no_page(action, observation, call);
        }
    }
}

/// The observation that belongs to an action is the entry directly after it, where
/// that is an observation.
pub proof fn observation_is_the_next_entry(entries: Seq<TrajectoryEntry>, index: int)
    requires
        0 <= index,
    ensures
        match observation_after(entry_views(entries), index) {
            Some(read) => {
                &&& index + 1 < entries.len()
                &&& entries[index + 1] matches TrajectoryEntry::Observation(observation)
                &&& read == observation@
            },
            None => index + 1 < entries.len() ==> entries[index + 1] is Action,
        },
{
}

/// The entries of a file are those of its trajectory, each of its own kind, in order.
pub proof fn entries_are_read_as_recorded<X>(file: GenerateTrajectoryFile<X>)
    ensures
        file.entries() == entry_views(file.trajectory.actions_and_observations@),
        file.entries().len() == file.trajectory.actions_and_observations@.len(),
        forall|i: int|
            0 <= i < file.entries().len() ==> (#[trigger] file.entries()[i])
                == match file.trajectory.actions_and_observations@[i] {
                TrajectoryEntry::Action(action) => EntryView::Action(action@),
                TrajectoryEntry::Observation(observation) => EntryView::Observation(observation@),
            },
{
}

/// Call `call` of entry `index` wrote the page: the entry is an action, and its own
/// call did, as seen with the observation that follows.
pub open spec fn call_wrote(
    entries: Seq<TrajectoryEntry>,
    index: int,
    call: int,
    page: Seq<char>,
) -> bool {
    &&& 0 <= index < entries.len()
    &&& entries[index] matches TrajectoryEntry::Action(action)
    &&& written_slug(
        action@,
        if index + 1 < entries.len() {
            match entries[index + 1] {
                TrajectoryEntry::Observation(observation) => observation_view(Some(&observation)),
                TrajectoryEntry::Action(_) => None,
            }
        } else {
            None
        },
        call,
    ) == Some(page)
}

/// An entry writes a page exactly where one of its calls wrote it.
pub proof fn entry_writes_what_its_calls_wrote(
    entries: Seq<TrajectoryEntry>,
    index: int,
    page: Seq<char>,
)
    ensures
        entry_writes(entry_views(entries), index, page) <==> exists|call: int| #[trigger]
            call_wrote(entries, index, call, page),
{
    if 0 <= index < entries.len() {
        observation_is_the_next_entry(entries, index);
        if let TrajectoryEntry::Action(action) = entries[index] {
            assert(entry_views(entries)[index] == EntryView::Action(action@));
            let observation = observation_after(entry_views(entries), index);
            if entry_writes(entry_views(entries), index, page) {
                let call = choose|call: int| #[trigger]
                    written_slug(action@, observation, call) == Some(page);
                assert(call_wrote(entries, index, call, page));
            }
            if exists|call: int| #[trigger] call_wrote(entries, index, call, page) {
                let call = choose|call: int| #[trigger] call_wrote(entries, index, call, page);
                assert(written_slug(action@, observation, call) == Some(page));
            }
        }
    }
}

/// Of a page that no call wrote nothing is told; of any other page one thing is.
pub proof fn told_of_exactly_the_pages_that_calls_wrote<X>(
    file: GenerateTrajectoryFile<X>,
    page: Seq<char>,
)
    ensures
        (exists|index: int, call: int| #[trigger]
            call_wrote(file.trajectory.actions_and_observations@, index, call, page)) ==>
            reasoning_of(file.entries(), page).len() == 1,
        (forall|index: int, call: int|
            !#[trigger] call_wrote(file.trajectory.actions_and_observations@, index, call, page))
            ==> reasoning_of(file.entries(), page).len() == 0,
{
    let entries = file.trajectory.actions_and_observations@;
    if exists|index: int, call: int| #[trigger] call_wrote(entries, index, call, page) {
        let (index, call) = choose|index: int, call: int| #[trigger]
            call_wrote(entries, index, call, page);
        entry_writes_what_its_calls_wrote(entries, index, page);
        last_write_is_unique(file.entries(), index, page);
        let last = choose|last: int| #[trigger] last_write(file.entries(), last, page);
        last_write_is_what_is_told(file.entries(), last, page);
    } else {
        assert forall|index: int| !#[trigger] last_write(file.entries(), index, page) by {
            entry_writes_what_its_calls_wrote(entries, index, page);
        }
    }
}

/// What is told of a page is told under its own name, is the traces of all entries up
/// to and with the last whose calls wrote it, and lists the other pages that the calls
/// of that entry wrote, each once.
pub proof fn last_writing_entry_is_told<X>(
    file: GenerateTrajectoryFile<X>,
    index: int,
    call: int,
    page: Seq<char>,
)
    requires
        call_wrote(file.trajectory.actions_and_observations@, index, call, page),
        forall|later: int, other: int|
            index < later ==> !#[trigger] call_wrote(
                file.trajectory.actions_and_observations@,
                later,
                other,
                page,
            ),
    ensures
        reasoning_of(file.entries(), page).len() == 1,
        reasoning_of(file.entries(), page)[0].slug == page,
        reasoning_of(file.entries(), page)[0].reasoning == traces(
            entry_views(file.trajectory.actions_and_observations@.take(index + 1)),
        ),
        reasoning_of(file.entries(), page)[0].other_slugs.no_duplicates(),
        forall|other: Seq<char>| #[trigger]
            reasoning_of(file.entries(), page)[0].other_slugs.contains(other) <==> other != page
                && exists|c: int| #[trigger]
                call_wrote(file.trajectory.actions_and_observations@, index, c, other),
{
    let entries = file.trajectory.actions_and_observations@;
    let views = file.entries();
    entry_writes_what_its_calls_wrote(entries, index, page);
    assert forall|later: int| index < later implies !#[trigger] entry_writes(views, later, page) by {
        entry_writes_what_its_calls_wrote(entries, later, page);
    }
    assert(last_write(views, index, page));
    last_write_is_what_is_told(views, index, page);
    assert(views.take(index + 1) =~= entry_views(entries.take(index + 1)));
    let action = views[index]->Action_0;
    let observation = observation_after(views, index);
    other_slugs_are_the_other_pages(action, observation, page, action.tools.len());
    let told = reasoning_of(views, page)[0].other_slugs;
    assert(told == slugs_besides(action, observation, page, action.tools.len()));
    assert forall|other: Seq<char>| #[trigger]
        told.contains(other) <==> other != page && exists|c: int| #[trigger]
            call_wrote(entries, index, c, other) by {
        entry_writes_what_its_calls_wrote(entries, index, other);
        if action_writes(action, observation, other) {
            let c = choose|c: int| #[trigger] written_slug(action, observation, c) == Some(other);
            assert(c < action.tools.len());
        }
    }
}

/// What is told of a page lists the other pages in the order in which the calls of the
/// last writing entry first wrote them.
pub proof fn told_pages_stand_in_the_order_of_their_writes<X>(
    file: GenerateTrajectoryFile<X>,
    index: int,
    call: int,
    page: Seq<char>,
    earlier: int,
    later: int,
)
    requires
        call_wrote(file.trajectory.actions_and_observations@, index, call, page),
        forall|after: int, other: int|
            index < after ==> !#[trigger] call_wrote(
                file.trajectory.actions_and_observations@,
                after,
                other,
                page,
            ),
        0 <= earlier < later < reasoning_of(file.entries(), page)[0].other_slugs.len(),
    ensures
        exists|c: int| #[trigger]
            call_wrote(
                file.trajectory.actions_and_observations@,
                index,
                c,
                reasoning_of(file.entries(), page)[0].other_slugs[earlier],
            ) && forall|before: int|
                before <= c ==> !#[trigger] call_wrote(
                    file.trajectory.actions_and_observations@,
                    index,
                    before,
                    reasoning_of(file.entries(), page)[0].other_slugs[later],
                ),
{
    let entries = file.trajectory.actions_and_observations@;
    let views = file.entries();
    entry_writes_what_its_calls_wrote(entries, index, page);
    assert forall|after: int| index < after implies !#[trigger] entry_writes(views, after, page) by {
        entry_writes_what_its_calls_wrote(entries, after, page);
    }
    assert(last_write(views, index, page));
    last_write_is_what_is_told(views, index, page);
    let action = views[index]->Action_0;
    let observation = observation_after(views, index);
    let told = reasoning_of(views, page)[0].other_slugs;
    assert(told == slugs_besides(action, observation, page, action.tools.len()));
    other_pages_stand_in_the_order_of_their_writes(
        action,
        observation,
        page,
        action.tools.len(),
        earlier,
        later,
    );
    let c = choose|c: int|
        0 <= c < action.tools.len() && #[trigger] written_slug(action, observation, c) == Some(
            told[earlier],
        ) && forall|before: int|
            before <= c ==> #[trigger] written_slug(action, observation, before) != Some(
                told[later],
            );
    observation_is_the_next_entry(entries, index);
    assert(call_wrote(entries, index, c, told[earlier]));
    assert forall|before: int| before <= c implies !#[trigger] call_wrote(
        entries,
        index,
        before,
        told[later],
    ) by {
        assert(written_slug(action, observation, before) != Some(told[later]));
    }
}

/// The other pages stand in the order in which the calls first wrote them: of two that
/// are listed, some call wrote the earlier one before any call wrote the later one.
pub proof fn other_pages_stand_in_the_order_of_their_writes(
    action: ActionView,
    observation: Option<ObservationView>,
    page: Seq<char>,
    calls: nat,
    earlier: int,
    later: int,
)
    requires
        0 <= earlier < later < slugs_besides(action, observation, page, calls).len(),
    ensures
        exists|call: int|
            0 <= call < calls && #[trigger] written_slug(action, observation, call) == Some(
                slugs_besides(action, observation, page, calls)[earlier],
            ) && forall|before: int|
                before <= call ==> #[trigger] written_slug(action, observation, before) != Some(
                    slugs_besides(action, observation, page, calls)[later],
                ),
    decreases calls,
{
    let fewer = (calls - 1) as nat;
    let all = slugs_besides(action, observation, page, calls);
    let first = slugs_besides(action, observation, page, fewer);
    if later < first.len() {
        other_pages_stand_in_the_order_of_their_writes(
            action,
            observation,
            page,
            fewer,
            earlier,
            later,
        );
        let call = choose|call: int|
            0 <= call < fewer && #[trigger] written_slug(action, observation, call) == Some(
                first[earlier],
            ) && forall|before: int|
                before <= call ==> #[trigger] written_slug(action, observation, before) != Some(
                    first[later],
                );
        assert(written_slug(action, observation, call) == Some(all[earlier]));
    } else {
        other_slugs_are_the_other_pages(action, observation, page, fewer);
        assert(first.contains(first[earlier]));
        let call = choose|call: int|
            call < fewer && #[trigger] written_slug(action, observation, call) == Some(
                first[earlier],
            );
        assert(!first.contains(all[later]));
        assert(0 <= call);
        assert forall|before: int| before <= call implies #[trigger] written_slug(
            action,
            observation,
            before,
        ) != Some(all[later]) by {
            if written_slug(action, observation, before) == Some(all[later]) {
                assert(first.contains(all[later]));
            }
        }
        assert(written_slug(action, observation, call) == Some(all[earlier]));
    }
}

/// The traces of one stretch of entries and then another are the traces of the first
/// and then those of the second; no entries have none.
pub proof fn traces_of_stretches_join(entries: Seq<EntryView>, more: Seq<EntryView>)
    ensures
        traces(entries + more) == traces(entries) + traces(more),
        traces(Seq::empty()) == Seq::<Seq<char>>::empty(),
    decreases more.len(),
{
    if more.len() == 0 {
        assert(entries + more =~= entries);
        assert(traces(entries) + traces(more) =~= traces(entries));
    } else {
        traces_of_stretches_join(entries, more.drop_last());
        assert((entries + more).drop_last() =~= entries + more.drop_last());
        assert(traces(entries + more) =~= traces(entries) + traces(more));
    }
}

/// What trimming leaves is a stretch of the text with nothing but white space before
/// and behind it.
proof fn trimming_takes_white_space_off_the_ends(s: Seq<char>) -> (cut: (int, int))
    ensures
        0 <= cut.0 <= cut.1 <= s.len(),
        trimmed(s) == s.subrange(cut.0, cut.1),
        forall|i: int| 0 <= i < cut.0 ==> white_space(#[trigger] s[i]),
        forall|i: int| cut.1 <= i < s.len() ==> white_space(#[trigger] s[i]),
        trimmed(s).len() > 0 ==> !white_space(s[cut.0]) && !white_space(s[cut.1 - 1]),
    decreases s.len(),
{
    if s.len() == 0 {
        assert(s.subrange(0, 0) =~= s);
        (0, 0)
    } else if white_space(s.first()) {
        let rest = s.drop_first();
        let (from, to) = trimming_takes_white_space_off_the_ends(rest);
        assert(rest.subrange(from, to) =~= s.subrange(from + 1, to + 1));
        assert forall|i: int| 0 <= i < from + 1 implies white_space(#[trigger] s[i]) by {
            if i > 0 {
                assert(white_space(rest[i - 1]));
            }
        }
        assert forall|i: int| to + 1 <= i < s.len() implies white_space(#[trigger] s[i]) by {
            assert(white_space(rest[i - 1]));
        }
        (from + 1, to + 1)
    } else if white_space(s.last()) {
        let rest = s.drop_last();
        let (from, to) = trimming_takes_white_space_off_the_ends(rest);
        assert(rest.subrange(from, to) =~= s.subrange(from, to));
        assert forall|i: int| 0 <= i < from implies white_space(#[trigger] s[i]) by {
            assert(white_space(rest[i]));
        }
        assert forall|i: int| to <= i < s.len() implies white_space(#[trigger] s[i]) by {
            if i < rest.len() {
                assert(white_space(rest[i]));
            }
        }
        (from, to)
    } else {
        assert(s.subrange(0, s.len() as int) =~= s);
        (0, s.len() as int)
    }
}

/// An action whose reasoning holds anything but white space has one trace: the
/// stretch of the reasoning that begins and ends with its first and last character
/// that is not white space.
pub proof fn reasoning_leaves_its_trace(action: Action, at: int)
    requires
        action.reasoning is Some,
        0 <= at < action.reasoning->0@.len(),
        !white_space(action.reasoning->0@[at]),
    ensures
        traces(seq![TrajectoryEntry::Action(action)@]).len() == 1,
        exists|from: int, to: int|
            #![trigger action.reasoning->0@.subrange(from, to)]
            {
                let reasoning = action.reasoning->0@;
                &&& 0 <= from <= at < to <= reasoning.len()
                &&& traces(seq![TrajectoryEntry::Action(action)@])[0]
                    == reasoning.subrange(from, to)
                &&& !white_space(reasoning[from]) && !white_space(reasoning[to - 1])
                &&& forall|i: int| 0 <= i < from ==> white_space(#[trigger] reasoning[i])
                &&& forall|i: int|
                    to <= i < reasoning.len() ==> white_space(#[trigger] reasoning[i])
            },
{
    let reasoning = action.reasoning->0@;
    let entry = TrajectoryEntry::Action(action)@;
    let (from, to) = trimming_takes_white_space_off_the_ends(reasoning);
    assert(from <= at < to);
    assert(trimmed(reasoning).len() > 0);
    assert(trace(entry) == Some(trimmed(reasoning)));
    assert(seq![entry].drop_last() =~= Seq::<EntryView>::empty());
    reveal_with_fuel(traces, 2);
    assert(traces(seq![entry]) =~= seq![trimmed(reasoning)]);
    assert(traces(seq![entry])[0] == reasoning.subrange(from, to));
}

/// An observation, an action without reasoning and one whose reasoning is all white
/// space have no trace.
pub proof fn blank_entries_leave_no_trace(entry: TrajectoryEntry)
    requires
        entry matches TrajectoryEntry::Action(action) ==> (action.reasoning matches Some(
            reasoning,
        ) ==> forall|i: int| 0 <= i < reasoning@.len() ==> white_space(#[trigger] reasoning@[i])),
    ensures
        traces(seq![entry@]) == Seq::<Seq<char>>::empty(),
{
    if let TrajectoryEntry::Action(action) = entry {
        if let Some(reasoning) = action.reasoning {
            let (from, to) = trimming_takes_white_space_off_the_ends(reasoning@);
            if trimmed(reasoning@).len() > 0 {
                assert(white_space(reasoning@[from]));
            }
        }
    }
    assert(trace(entry@) is None);
    assert(seq![entry@].drop_last() =~= Seq::<EntryView>::empty());
    reveal_with_fuel(traces, 2);
}

/// Responses are read in full and one by one.
pub proof fn responses_are_read_as_they_are(responses: Seq<TrajectoryReasoningResponse>)
    ensures
        response_views(responses).len() == responses.len(),
        forall|i: int|
            #![trigger response_views(responses)[i]]
            0 <= i < responses.len() ==> {
                let read = response_views(responses)[i];
                &&& read == responses[i]@
                &&& read.slug == responses[i].slug@
                &&& read.reasoning == responses[i].reasoning@.map_values(|s: String| s@)
                &&& read.other_slugs == responses[i].other_slugs@.map_values(|s: String| s@)
            },
{
}

} // verus!
