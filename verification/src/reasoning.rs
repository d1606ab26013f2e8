//! The reasoning that led to a wiki page: which calls of a trajectory wrote the
//! page, and what the agent had thought by the last of them.

use crate::text::{text_of, texts, trimmed};
use crate::trajectory::{
    entry_views, Action, ActionView, EntryView, GenerateTrajectoryFile, MetadataView, Observation,
    ObservationView, ToolCallMetadata, TrajectoryEntry,
};
use vstd::prelude::*;

verus! {

/// Reasoning traces associated with one page write.
#[derive(Debug, PartialEq, Eq)]
pub struct TrajectoryReasoningResponse {
    /// The requested page slug.
    pub slug: String,
    /// Trimmed non-empty reasoning traces through the final write action.
    pub reasoning: Vec<String>,
    /// Other slugs written by the same final action, excluding `slug`.
    pub other_slugs: Vec<String>,
}

/// The view of a `TrajectoryReasoningResponse`.
#[verifier::ext_equal]
pub struct ReasoningView {
    pub slug: Seq<char>,
    pub reasoning: Seq<Seq<char>>,
    pub other_slugs: Seq<Seq<char>>,
}

impl View for TrajectoryReasoningResponse {
    type V = ReasoningView;

    open spec fn view(&self) -> ReasoningView {
        ReasoningView {
            slug: self.slug@,
            reasoning: texts(self.reasoning@),
            other_slugs: texts(self.other_slugs@),
        }
    }
}

/// A tool whose calls write wiki pages.
pub open spec fn writes_pages(tool: Seq<char>) -> bool {
    tool == "wiki_apply_patch"@ || tool == "wiki_upsert_file"@
}

/// What the observation recorded of call `call`.
pub open spec fn recorded(observation: Option<ObservationView>, call: int) -> Option<MetadataView> {
    match observation {
        Some(o) if 0 <= call < o.tool_metadata.len() => o.tool_metadata[call],
        _ => None,
    }
}

/// Call `call` was not made, because a lock was handed off.
pub open spec fn handed_off(observation: Option<ObservationView>, call: int) -> bool {
    recorded(observation, call) matches Some(m) && m.skipped_due_to_handoff == Some(true)
}

/// The page that call `call` of `action` wrote: the one that its arguments name,
/// else the one that was recorded.
pub open spec fn written_slug(
    action: ActionView,
    observation: Option<ObservationView>,
    call: int,
) -> Option<Seq<char>> {
    if !(0 <= call < action.tools.len()) || !writes_pages(action.tools[call]) || handed_off(
        observation,
        call,
    ) {
        None
    } else if call < action.param_slugs.len() && action.param_slugs[call] is Some {
        action.param_slugs[call]
    } else {
        match recorded(observation, call) {
            Some(m) => m.slug,
            None => None,
        }
    }
}

/// Some call of `action` wrote page `slug`.
pub open spec fn action_writes(
    action: ActionView,
    observation: Option<ObservationView>,
    slug: Seq<char>,
) -> bool {
    exists|call: int| #[trigger] written_slug(action, observation, call) == Some(slug)
}

/// The pages besides `slug` that the first `calls` calls of `action` wrote, each
/// once, in the order of the first call that wrote it.
pub open spec fn slugs_besides(
    action: ActionView,
    observation: Option<ObservationView>,
    slug: Seq<char>,
    calls: nat,
) -> Seq<Seq<char>>
    decreases calls,
{
    if calls == 0 {
        Seq::empty()
    } else {
        let before = slugs_besides(action, observation, slug, (calls - 1) as nat);
        match written_slug(action, observation, calls - 1) {
            Some(s) if s != slug && !before.contains(s) => before.push(s),
            _ => before,
        }
    }
}

/// The observation that directly follows entry `index`.
pub open spec fn observation_after(entries: Seq<EntryView>, index: int) -> Option<ObservationView> {
    if 0 <= index + 1 < entries.len() {
        match entries[index + 1] {
            EntryView::Observation(observation) => Some(observation),
            EntryView::Action(_) => None,
        }
    } else {
        None
    }
}

/// Entry `index` is an action that wrote page `slug`.
pub open spec fn entry_writes(entries: Seq<EntryView>, index: int, slug: Seq<char>) -> bool {
    &&& 0 <= index < entries.len()
    &&& entries[index] matches EntryView::Action(action)
    &&& action_writes(action, observation_after(entries, index), slug)
}

/// Entry `index` wrote page `slug`, and no later entry did.
pub open spec fn last_write(entries: Seq<EntryView>, index: int, slug: Seq<char>) -> bool {
    &&& entry_writes(entries, index, slug)
    &&& forall|later: int| index < later ==> !#[trigger] entry_writes(entries, later, slug)
}

/// The reasoning trace of an entry: an action's reasoning, trimmed, unless nothing
/// is left of it.
pub open spec fn trace(entry: EntryView) -> Option<Seq<char>> {
    match entry {
        EntryView::Action(action) => match action.reasoning {
            Some(reasoning) if trimmed(reasoning).len() > 0 => Some(trimmed(reasoning)),
            _ => None,
        },
        EntryView::Observation(_) => None,
    }
}

/// The reasoning traces of the entries, in order.
pub open spec fn traces(entries: Seq<EntryView>) -> Seq<Seq<char>>
    decreases entries.len(),
{
    if entries.len() == 0 {
        Seq::empty()
    } else {
        match trace(entries.last()) {
            Some(t) => traces(entries.drop_last()).push(t),
            None => traces(entries.drop_last()),
        }
    }
}

/// The pages besides `slug` that entry `index` wrote.
pub open spec fn siblings(entries: Seq<EntryView>, index: int, slug: Seq<char>) -> Seq<Seq<char>> {
    match entries[index] {
        EntryView::Action(action) => slugs_besides(
            action,
            observation_after(entries, index),
            slug,
            action.tools.len(),
        ),
        EntryView::Observation(_) => Seq::empty(),
    }
}

/// What is told of page `slug` where entry `index` is the last that wrote it.
pub open spec fn reasoning_through(
    entries: Seq<EntryView>,
    index: int,
    slug: Seq<char>,
) -> ReasoningView {
    ReasoningView {
        slug,
        reasoning: traces(entries.take(index + 1)),
        other_slugs: siblings(entries, index, slug),
    }
}

/// What is told of page `slug`: nothing where no entry wrote it.
pub open spec fn reasoning_of(entries: Seq<EntryView>, slug: Seq<char>) -> Seq<ReasoningView> {
    if exists|index: int| last_write(entries, index, slug) {
        seq![
            reasoning_through(entries, choose|index: int| last_write(entries, index, slug), slug),
        ]
    } else {
        Seq::empty()
    }
}

/// Responses, each by its view.
pub open spec fn response_views(responses: Seq<TrajectoryReasoningResponse>) -> Seq<ReasoningView> {
    responses.map_values(|response: TrajectoryReasoningResponse| response@)
}

/// The observation by the view, where there is one.
pub open spec fn observation_view(observation: Option<&Observation>) -> Option<ObservationView> {
    match observation {
        Some(o) => Some(o@),
        None => None,
    }
}

fn is_wiki_write_tool(name: &str) -> (yes: bool)
    ensures
        yes == writes_pages(name@),
{
    name.eq("wiki_apply_patch") || name.eq("wiki_upsert_file")
}

/// The observation that directly follows the action at `action_index`.
pub fn next_observation(entries: &[TrajectoryEntry], action_index: usize) -> (next: Option<
    &Observation,
>)
    requires
        action_index < usize::MAX,
    ensures
        observation_view(next) == observation_after(entry_views(entries@), action_index as int),
{
    if action_index + 1 < entries.len() {
        match &entries[action_index + 1] {
            TrajectoryEntry::Observation(observation) => Some(observation),
            TrajectoryEntry::Action(_) => None,
        }
    } else {
        None
    }
}

/// The metadata that the observation recorded of call `call`.
pub fn observation_metadata(observation: Option<&Observation>, call: usize) -> (metadata: Option<
    &ToolCallMetadata,
>)
    ensures
        match metadata {
            Some(m) => recorded(observation_view(observation), call as int) == Some(m@),
            None => recorded(observation_view(observation), call as int) is None,
        },
{
    let observation = observation?;
    if call < observation.tool_metadata.len() {
        observation.tool_metadata[call].as_ref()
    } else {
        None
    }
}

/// The page that call `call` of the action wrote.
pub fn call_write_slug(
    action: &Action,
    observation: Option<&Observation>,
    call: usize,
) -> (slug: Option<String>)
    ensures
        text_of(slug) == written_slug(action@, observation_view(observation), call as int),
        observation is Some && call < observation->0.tool_metadata@.len() ==> (
        observation->0.tool_metadata@[call as int] matches Some(m) ==> (
        m.skipped_due_to_handoff == Some(true) ==> slug is None)),
        slug is Some ==> call < action.tools@.len() && (
        action.tools@[call as int].tool_schema.name@ == "wiki_apply_patch"@
            || action.tools@[call as int].tool_schema.name@ == "wiki_upsert_file"@),
        slug is Some && call < action.param_slugs@.len() && action.param_slugs@[call as int] is Some
            ==> slug->0@ == action.param_slugs@[call as int]->0@,
{
    if call >= action.tools.len() {
        return None;
    }
    if !is_wiki_write_tool(action.tools[call].tool_schema.name.as_str()) {
        return None;
    }
    let metadata = observation_metadata(observation, call);
    if let Some(m) = metadata {
        if m.skipped_due_to_handoff.unwrap_or(false) {
            return None;
        }
    }
    if call < action.param_slugs.len() {
        if let Some(slug) = &action.param_slugs[call] {
            return Some(slug.clone());
        }
    }
    match metadata {
        Some(m) => m.slug.clone(),
        None => None,
    }
}

/// Whether some call of the action wrote page `slug`.
pub fn action_writes_slug(action: &Action, observation: Option<&Observation>, slug: &str) -> (yes:
    bool)
    ensures
        yes == action_writes(action@, observation_view(observation), slug@),
{
    let mut call: usize = 0;
    while call < action.tools.len()
        invariant
            call <= action.tools.len(),
            forall|earlier: int|
                earlier < call ==> #[trigger] written_slug(
                    action@,
                    observation_view(observation),
                    earlier,
                ) != Some(slug@),
        decreases action.tools.len() - call,
    {
        if let Some(call_slug) = call_write_slug(action, observation, call) {
            if call_slug.as_str().eq(slug) {
                return true;
            }
        }
        call += 1;
    }
    false
}

fn lists(strings: &Vec<String>, string: &String) -> (yes: bool)
    ensures
        yes == texts(strings@).contains(string@),
{
    let mut i: usize = 0;
    while i < strings.len()
        invariant
            i <= strings.len(),
            forall|j: int| 0 <= j < i ==> #[trigger] texts(strings@)[j] != string@,
        decreases strings.len() - i,
    {
        if strings[i].eq(string) {
            assert(texts(strings@)[i as int] == string@);
            return true;
        }
        i += 1;
    }
    false
}

/// The pages besides `slug` that the action wrote, each once, in the order in which
/// its calls first wrote them.
pub fn other_written_slugs(
    action: &Action,
    observation: Option<&Observation>,
    slug: &str,
) -> (slugs: Vec<String>)
    ensures
        texts(slugs@) == slugs_besides(
            action@,
            observation_view(observation),
            slug@,
            action.tools@.len(),
        ),
{
    let mut slugs: Vec<String> = Vec::new();
    let mut call: usize = 0;
    while call < action.tools.len()
        invariant
            call <= action.tools.len(),
            texts(slugs@) == slugs_besides(
                action@,
                observation_view(observation),
                slug@,
                call as nat,
            ),
        decreases action.tools.len() - call,
    {
        let ghost before = slugs@;
        if let Some(call_slug) = call_write_slug(action, observation, call) {
            if !call_slug.as_str().eq(slug) && !lists(&slugs, &call_slug) {
                slugs.push(call_slug);
                assert(texts(slugs@) =~= texts(before).push(call_slug@));
            }
        }
        call += 1;
    }
    slugs
}

/// The reasoning behind the last write of page `slug`: nothing where the trajectory
/// never wrote the page, else one response with the traces of every action up to
/// and with the last that wrote it, and with the other pages which that action wrote.
pub fn reasoning_for_slug<X>(file: &GenerateTrajectoryFile<X>, slug: &str) -> (responses: Vec<
    TrajectoryReasoningResponse,
>)
    ensures
        (forall|index: int| !#[trigger] entry_writes(file.entries(), index, slug@)) ==> responses@
            == Seq::<TrajectoryReasoningResponse>::empty(),
        forall|index: int| #[trigger]
            last_write(file.entries(), index, slug@) ==> responses@.len() == 1 && responses@[0]@
                == reasoning_through(file.entries(), index, slug@),
        response_views(responses@) == reasoning_of(file.entries(), slug@),
{
    let entries = &file.trajectory.actions_and_observations;
    let ghost views = file.entries();
    let mut reasoning_prefix: Vec<String> = Vec::new();
    let mut last_match: Option<(usize, usize)> = None;

    let mut index: usize = 0;
    while index < entries.len()
        invariant
            index <= entries.len(),
            views == entry_views(entries@),
            texts(reasoning_prefix@) == traces(views.take(index as int)),
            match last_match {
                Some((action_index, reasoning_len)) => {
                    &&& action_index < index
                    &&& entry_writes(views, action_index as int, slug@)
                    &&& reasoning_len <= reasoning_prefix.len()
                    &&& texts(reasoning_prefix@.take(reasoning_len as int)) == traces(
                        views.take(action_index + 1),
                    )
                    &&& forall|later: int|
                        action_index < later < index ==> !#[trigger] entry_writes(
                            views,
                            later,
                            slug@,
                        )
                },
                None => forall|earlier: int|
                    earlier < index ==> !#[trigger] entry_writes(views, earlier, slug@),
            },
        decreases entries.len() - index,
    {
        let ghost before = reasoning_prefix@;
        assert(views.take(index + 1).drop_last() =~= views.take(index as int));
        assert(views.take(index + 1).last() == entries@[index as int]@);
        if let TrajectoryEntry::Action(action) = &entries[index] {
            if let Some(reasoning) = &action.reasoning {
                let trace_text = reasoning.as_str().trim();
                if !trace_text.is_empty() {
                    reasoning_prefix.push(trace_text.to_owned());
                    assert(texts(reasoning_prefix@) =~= texts(before).push(trace_text@));
                }
            }
            assert(texts(reasoning_prefix@) == traces(views.take(index + 1)));
            proof {
                if let Some((action_index, reasoning_len)) = last_match {
                    assert(reasoning_prefix@.take(reasoning_len as int) =~= before.take(
                        reasoning_len as int,
                    ));
                }
            }
            let reasoning_len_after_action: usize = reasoning_prefix.len();
            let observation = next_observation(entries.as_slice(), index);
            if action_writes_slug(action, observation, slug) {
                assert(reasoning_prefix@.take(reasoning_len_after_action as int)
                    =~= reasoning_prefix@);
                last_match = Some((index, reasoning_len_after_action));
            }
        }
        index += 1;
    }

    match last_match {
        None => Vec::new(),
        Some((action_index, reasoning_len)) => {
            assert(last_write(views, action_index as int, slug@));
            let other_slugs = match &entries[action_index] {
                TrajectoryEntry::Action(action) => other_written_slugs(
                    action,
                    next_observation(entries.as_slice(), action_index),
                    slug,
                ),
                TrajectoryEntry::Observation(_) => Vec::new(),
            };
            reasoning_prefix.truncate(reasoning_len);
            let response = TrajectoryReasoningResponse {
                slug: slug.to_owned(),
                reasoning: reasoning_prefix,
                other_slugs,
            };
            assert(response@ =~= reasoning_through(views, action_index as int, slug@));
            let mut responses: Vec<TrajectoryReasoningResponse> = Vec::new();
            responses.push(response);
            responses
        },
    }
}

} // verus!
