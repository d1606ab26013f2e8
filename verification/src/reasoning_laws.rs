//! What holds of the reasoning behind page writes, whatever the trajectory.

use crate::reasoning::{
    action_writes, entry_writes, handed_off, last_write, observation_after,
    reasoning_of, reasoning_through, recorded, siblings, slugs_besides, trace, traces, writes_pages,
    written_slug,
};
use crate::text::{trimmed, white_space};
use crate::trajectory::{ActionView, EntryView, ObservationView};
use vstd::prelude::*;

verus! {

/// Trimming leaves no white space at either end.
pub proof fn trimmed_text_has_no_blank_ends(s: Seq<char>)
    ensures
        trimmed(s).len() > 0 ==> !white_space(trimmed(s).first()) && !white_space(
            trimmed(s).last(),
        ),
    decreases s.len(),
{
    if s.len() > 0 {
        if white_space(s.first()) {
            trimmed_text_has_no_blank_ends(s.drop_first());
        } else if white_space(s.last()) {
            trimmed_text_has_no_blank_ends(s.drop_last());
        }
    }
}

/// Trimming twice is trimming once.
pub proof fn trimming_is_idempotent(s: Seq<char>)
    ensures
        trimmed(trimmed(s)) == trimmed(s),
{
    trimmed_text_has_no_blank_ends(s);
}

/// Trimming takes everything exactly from the texts that are all white space.
pub proof fn blank_text_trims_to_nothing(s: Seq<char>)
    ensures
        trimmed(s).len() == 0 <==> forall|i: int| 0 <= i < s.len() ==> white_space(#[trigger] s[i]),
    decreases s.len(),
{
    if s.len() > 0 {
        if white_space(s.first()) {
            let rest = s.drop_first();
            blank_text_trims_to_nothing(rest);
            assert forall|i: int| 0 <= i < rest.len() implies rest[i] == #[trigger] s[i + 1] by {}
            if trimmed(rest).len() == 0 {
                assert forall|i: int| 0 <= i < s.len() implies white_space(#[trigger] s[i]) by {
                    if i > 0 {
                        assert(white_space(rest[i - 1]));
                    }
                }
            } else {
                let i = choose|i: int| 0 <= i < rest.len() && !white_space(#[trigger] rest[i]);
                assert(!white_space(s[i + 1]));
            }
        } else if white_space(s.last()) {
            let rest = s.drop_last();
            blank_text_trims_to_nothing(rest);
            if trimmed(rest).len() == 0 {
                assert(white_space(rest[0]));
            } else {
                let i = choose|i: int| 0 <= i < rest.len() && !white_space(#[trigger] rest[i]);
                assert(!white_space(s[i]));
            }
        }
    }
}

/// A page that was written at all has exactly one last write.
pub proof fn last_write_is_unique(entries: Seq<EntryView>, index: int, slug: Seq<char>)
    requires
        entry_writes(entries, index, slug),
    ensures
        exists|last: int| #[trigger] last_write(entries, last, slug) && index <= last,
        forall|a: int, b: int| #[trigger]
            last_write(entries, a, slug) && #[trigger] last_write(entries, b, slug) ==> a == b,
    decreases entries.len() - index,
{
    if exists|later: int| index < later && #[trigger] entry_writes(entries, later, slug) {
        let later = choose|later: int|
            index < later && #[trigger] entry_writes(entries, later, slug);
        last_write_is_unique(entries, later, slug);
    } else {
        assert(last_write(entries, index, slug));
    }
}

/// Of a page that was written, one thing is told, and it is told of the last write.
pub proof fn last_write_is_what_is_told(entries: Seq<EntryView>, index: int, slug: Seq<char>)
    requires
        last_write(entries, index, slug),
    ensures
        reasoning_of(entries, slug) == seq![reasoning_through(entries, index, slug)],
{
    last_write_is_unique(entries, index, slug);
}

/// Something is told of exactly the pages that were written.
pub proof fn written_pages_are_told_of(entries: Seq<EntryView>, slug: Seq<char>)
    ensures
        reasoning_of(entries, slug).len() == (if exists|index: int| #[trigger]
            entry_writes(entries, index, slug) {
            1nat
        } else {
            0nat
        }),
{
    if exists|index: int| #[trigger] entry_writes(entries, index, slug) {
        let index = choose|index: int| #[trigger] entry_writes(entries, index, slug);
        last_write_is_unique(entries, index, slug);
    }
}

/// The traces told are exactly those of the entries, none lost and none added.
pub proof fn traces_are_those_of_the_entries(entries: Seq<EntryView>, text: Seq<char>)
    ensures
        traces(entries).contains(text) <==> exists|index: int|
            0 <= index < entries.len() && trace(#[trigger] entries[index]) == Some(text),
    decreases entries.len(),
{
    if entries.len() > 0 {
        let earlier = entries.drop_last();
        traces_are_those_of_the_entries(earlier, text);
        let before = traces(earlier);
        if before.contains(text) {
            let index = choose|index: int|
                0 <= index < earlier.len() && trace(#[trigger] earlier[index]) == Some(text);
            assert(trace(entries[index]) == Some(text));
            let k = choose|k: int| 0 <= k < before.len() && before[k] == text;
            assert(traces(entries)[k] == text);
        }
        if trace(entries.last()) == Some(text) {
            assert(traces(entries)[before.len() as int] == text);
            assert(trace(entries[entries.len() - 1]) == Some(text));
        }
        if exists|index: int|
            0 <= index < entries.len() && trace(#[trigger] entries[index]) == Some(text) {
            let index = choose|index: int|
                0 <= index < entries.len() && trace(#[trigger] entries[index]) == Some(text);
            if index < earlier.len() {
                assert(trace(earlier[index]) == Some(text));
            }
        }
        if traces(entries).contains(text) && !before.contains(text) {
            let k = choose|k: int| 0 <= k < traces(entries).len() && traces(entries)[k] == text;
            if k < before.len() {
                assert(before[k] == text);
            }
        }
    }
}

/// Every trace told is trimmed and not empty.
pub proof fn traces_are_trimmed_and_not_empty(entries: Seq<EntryView>, index: int)
    requires
        0 <= index < traces(entries).len(),
    ensures
        traces(entries)[index].len() > 0,
        trimmed(traces(entries)[index]) == traces(entries)[index],
    decreases entries.len(),
{
    let before = traces(entries.drop_last());
    if index < before.len() {
        traces_are_trimmed_and_not_empty(entries.drop_last(), index);
    } else {
        match entries.last() {
            EntryView::Action(action) => {
                trimming_is_idempotent(action.reasoning->0);
            },
            EntryView::Observation(_) => {},
        }
    }
}

/// What was told through an earlier entry is told again, unchanged and first,
/// through a later one.
pub proof fn traces_only_grow(entries: Seq<EntryView>, earlier: int, later: int)
    requires
        0 <= earlier <= later <= entries.len(),
    ensures
        traces(entries.take(earlier)).is_prefix_of(traces(entries.take(later))),
    decreases later - earlier,
{
    if earlier < later {
        traces_only_grow(entries, earlier, later - 1);
        assert(entries.take(later).drop_last() =~= entries.take(later - 1));
    }
}

/// Only calls to a wiki write tool write a page, and a call that was skipped for a
/// lock handoff writes none.
pub proof fn only_completed_wiki_calls_write(
    action: ActionView,
    observation: Option<ObservationView>,
    call: int,
)
    requires
        written_slug(action, observation, call) is Some,
    ensures
        0 <= call < action.tools.len(),
        writes_pages(action.tools[call]),
        !handed_off(observation, call),
{
}

/// The page that a call's arguments name counts before the page that was recorded;
/// the recorded one counts where the arguments name none.
pub proof fn arguments_name_the_page_first(
    action: ActionView,
    observation: Option<ObservationView>,
    call: int,
)
    requires
        0 <= call < action.tools.len(),
        writes_pages(action.tools[call]),
        !handed_off(observation, call),
    ensures
        call < action.param_slugs.len() && action.param_slugs[call] is Some ==> written_slug(
            action,
            observation,
            call,
        ) == action.param_slugs[call],
        call >= action.param_slugs.len() || action.param_slugs[call] is None ==> written_slug(
            action,
            observation,
            call,
        ) == (match recorded(observation, call) {
            Some(metadata) => metadata.slug,
            None => None,
        }),
{
}

/// The other pages of an action are listed once each, without the requested page,
/// and are exactly the other pages that its calls wrote.
pub proof fn other_slugs_are_the_other_pages(
    action: ActionView,
    observation: Option<ObservationView>,
    slug: Seq<char>,
    calls: nat,
)
    ensures
        slugs_besides(action, observation, slug, calls).no_duplicates(),
        forall|page: Seq<char>| #[trigger]
            slugs_besides(action, observation, slug, calls).contains(page) <==> page != slug
                && exists|call: int|
                call < calls && #[trigger] written_slug(action, observation, call) == Some(page),
    decreases calls,
{
    if calls > 0 {
        let fewer = (calls - 1) as nat;
        let before = slugs_besides(action, observation, slug, fewer);
        let after = slugs_besides(action, observation, slug, calls);
        other_slugs_are_the_other_pages(action, observation, slug, fewer);
        assert forall|page: Seq<char>| #[trigger]
            after.contains(page) <==> page != slug && exists|call: int|
                call < calls && #[trigger] written_slug(action, observation, call) == Some(
                    page,
                ) by {
            if after.contains(page) {
                let k = choose|k: int| 0 <= k < after.len() && after[k] == page;
                if k < before.len() {
                    assert(before[k] == page);
                    assert(before.contains(page));
                } else {
                    assert(written_slug(action, observation, calls - 1) == Some(page));
                }
            }
            if before.contains(page) {
                let k = choose|k: int| 0 <= k < before.len() && before[k] == page;
                assert(after[k] == page);
            }
            if page != slug && exists|call: int|
                call < calls && #[trigger] written_slug(action, observation, call) == Some(page) {
                let call = choose|call: int|
                    call < calls && #[trigger] written_slug(action, observation, call) == Some(
                        page,
                    );
                if call == calls - 1 {
                    if !before.contains(page) {
                        assert(after[before.len() as int] == page);
                    }
                } else {
                    assert(before.contains(page));
                }
            }
        }
    }
}

/// What the other pages of an action are listed as does not change when further
/// calls are looked at: the list only grows at its end, so that the pages stand in
/// the order of the calls that first wrote them.
pub proof fn other_slugs_stand_in_call_order(
    action: ActionView,
    observation: Option<ObservationView>,
    slug: Seq<char>,
    fewer: nat,
    more: nat,
)
    requires
        fewer <= more,
    ensures
        slugs_besides(action, observation, slug, fewer).is_prefix_of(
            slugs_besides(action, observation, slug, more),
        ),
    decreases more - fewer,
{
    if fewer < more {
        other_slugs_stand_in_call_order(action, observation, slug, fewer, (more - 1) as nat);
    }
}

/// The page asked for is never among the other pages of its own response.
pub proof fn response_keeps_the_page_apart(entries: Seq<EntryView>, index: int, slug: Seq<char>)
    requires
        last_write(entries, index, slug),
    ensures
        !reasoning_through(entries, index, slug).other_slugs.contains(slug),
        reasoning_through(entries, index, slug).other_slugs.no_duplicates(),
        forall|page: Seq<char>| #[trigger]
            reasoning_through(entries, index, slug).other_slugs.contains(page) <==> page != slug
                && entry_writes(entries, index, page),
{
    let action = entries[index]->Action_0;
    let observation = observation_after(entries, index);
    other_slugs_are_the_other_pages(action, observation, slug, action.tools.len());
    assert forall|page: Seq<char>| #[trigger]
        reasoning_through(entries, index, slug).other_slugs.contains(page) <==> page != slug
            && entry_writes(entries, index, page) by {
        let others = slugs_besides(action, observation, slug, action.tools.len());
        assert(others == siblings(entries, index, slug));
        assert(others.contains(page) <==> page != slug && action_writes(action, observation, page))
            by {
            if action_writes(action, observation, page) {
                let call = choose|call: int| #[trigger]
                    written_slug(action, observation, call) == Some(page);
                assert(call < action.tools.len());
            }
        }
    }
}

/// Entries that do not write a page have no part in what is told of it once the
/// entries that do are past: of two trajectories that agree in their first `count`
/// entries, and in the observation that follows these, and that write the page in
/// none of the others, the same is told. Where the page was not written that is
/// nothing, and appending entries that do not write it leaves it so.
pub proof fn later_entries_have_no_part(
    entries: Seq<EntryView>,
    others: Seq<EntryView>,
    count: int,
    slug: Seq<char>,
)
    requires
        0 <= count <= entries.len(),
        count <= others.len(),
        entries.take(count) == others.take(count),
        count > 0 ==> observation_after(entries, count - 1) == observation_after(
            others,
            count - 1,
        ),
        forall|later: int| count <= later ==> !#[trigger] entry_writes(entries, later, slug),
        forall|later: int| count <= later ==> !#[trigger] entry_writes(others, later, slug),
    ensures
        reasoning_of(entries, slug) == reasoning_of(others, slug),
{
    assert forall|index: int| 0 <= index < count implies entries[index] == others[index]
        && observation_after(entries, index) == observation_after(others, index) by {
        assert(entries.take(count)[index] == entries[index]);
        assert(others.take(count)[index] == others[index]);
        if index + 1 < count {
            assert(entries.take(count)[index + 1] == entries[index + 1]);
            assert(others.take(count)[index + 1] == others[index + 1]);
        } else {
            assert(index == count - 1);
        }
    }
    assert forall|index: int|
        entry_writes(entries, index, slug) == #[trigger] entry_writes(others, index, slug) by {
        if 0 <= index < count {
            assert(entries[index] == others[index]);
        } else {
            assert(!entry_writes(entries, index, slug));
        }
    }
    if exists|index: int| last_write(entries, index, slug) {
        let index = choose|index: int| last_write(entries, index, slug);
        assert(entry_writes(others, index, slug));
        assert forall|later: int| index < later implies !#[trigger] entry_writes(
            others,
            later,
            slug,
        ) by {
            assert(!entry_writes(entries, later, slug));
        }
        assert(index < count);
        assert(entries.take(index + 1) =~= others.take(index + 1));
        last_write_is_what_is_told(entries, index, slug);
        last_write_is_what_is_told(others, index, slug);
    } else {
        written_pages_are_told_of(entries, slug);
        written_pages_are_told_of(others, slug);
    }
}

} // verus!
