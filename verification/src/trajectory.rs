//! A generated wiki trajectory: what an agent did and what it saw, entry by entry.
//!
//! The types hold what the routes read. Each has a view that gives its strings as
//! characters.

use crate::json::{json_members, named_slug, param_slug};
use crate::text::{optional_texts, text_of};
use serde_json::Value;
use uuid::Uuid;
use vstd::prelude::*;

verus! {

/// The schema of a tool that an agent may call.
#[derive(Debug)]
pub struct ToolSchema {
    /// The name by which the tool is called.
    pub name: String,
}

/// A tool that an agent called.
#[derive(Debug)]
pub struct Tool {
    pub tool_schema: ToolSchema,
}

/// One turn of the agent: the tool calls that it made together. Call `k` is to
/// `tools[k]`.
#[derive(Debug)]
pub struct Action {
    pub tools: Vec<Tool>,
    /// The page that the arguments of each call name, where they name one.
    pub param_slugs: Vec<Option<String>>,
    /// The reasoning trace that came with the turn.
    pub reasoning: Option<String>,
}

/// What was recorded of one tool call besides its output.
#[derive(Debug)]
pub struct ToolCallMetadata {
    /// Set where the call was not made because a lock was handed off.
    pub skipped_due_to_handoff: Option<bool>,
    /// The wiki page that the call wrote.
    pub slug: Option<String>,
}

/// The outcome of the tool calls of one turn, call by call.
#[derive(Debug)]
pub struct Observation {
    pub tool_metadata: Vec<Option<ToolCallMetadata>>,
}

/// One entry of a trajectory.
#[derive(Debug)]
pub enum TrajectoryEntry {
    Action(Action),
    Observation(Observation),
}

/// A trajectory under its id.
#[derive(Debug)]
pub struct Trajectory {
    pub id: Uuid,
    pub actions_and_observations: Vec<TrajectoryEntry>,
}

/// A trajectory file. `rest` is what the file holds besides, which the routes
/// carry and never read.
#[derive(Debug)]
pub struct GenerateTrajectoryFile<X> {
    pub trajectory: Trajectory,
    pub rest: X,
}

/// The view of an `Action`.
pub struct ActionView {
    /// The names of the tools called.
    pub tools: Seq<Seq<char>>,
    /// The pages that the calls' arguments name.
    pub param_slugs: Seq<Option<Seq<char>>>,
    pub reasoning: Option<Seq<char>>,
}

/// The view of a `ToolCallMetadata`.
pub struct MetadataView {
    pub skipped_due_to_handoff: Option<bool>,
    pub slug: Option<Seq<char>>,
}

/// The view of an `Observation`.
pub struct ObservationView {
    pub tool_metadata: Seq<Option<MetadataView>>,
}

/// The view of a `TrajectoryEntry`.
pub enum EntryView {
    Action(ActionView),
    Observation(ObservationView),
}

impl View for Action {
    type V = ActionView;

    open spec fn view(&self) -> ActionView {
        ActionView {
            tools: self.tools@.map_values(|tool: Tool| tool.tool_schema.name@),
            param_slugs: optional_texts(self.param_slugs@),
            reasoning: text_of(self.reasoning),
        }
    }
}

impl Action {
    /// A turn whose call `k` has the arguments `params[k]`.
    pub fn new(tools: Vec<Tool>, params: &[Value], reasoning: Option<String>) -> (action: Self)
        ensures
            action.tools == tools,
            action.reasoning == reasoning,
            action@.param_slugs == params@.map_values(
                |value: Value| named_slug(json_members(value)),
            ),
    {
        let ghost named = params@.map_values(|value: Value| named_slug(json_members(value)));
        let mut param_slugs: Vec<Option<String>> = Vec::new();
        let mut call: usize = 0;
        while call < params.len()
            invariant
                call <= params.len(),
                named == params@.map_values(|value: Value| named_slug(json_members(value))),
                optional_texts(param_slugs@) == named.take(call as int),
            decreases params.len() - call,
        {
            let ghost before = param_slugs@;
            let slug = param_slug(Some(&params[call]));
            param_slugs.push(slug);
            assert(optional_texts(param_slugs@) =~= optional_texts(before).push(text_of(slug)));
            assert(named.take(call + 1) =~= named.take(call as int).push(named[call as int]));
            call += 1;
        }
        assert(named.take(call as int) =~= named);
        Action { tools, param_slugs, reasoning }
    }
}

impl View for ToolCallMetadata {
    type V = MetadataView;

    open spec fn view(&self) -> MetadataView {
        MetadataView {
            skipped_due_to_handoff: self.skipped_due_to_handoff,
            slug: text_of(self.slug),
        }
    }
}

impl View for Observation {
    type V = ObservationView;

    open spec fn view(&self) -> ObservationView {
        ObservationView {
            tool_metadata: self.tool_metadata@.map_values(
                |metadata: Option<ToolCallMetadata>|
                    match metadata {
                        Some(m) => Some(m@),
                        None => None,
                    },
            ),
        }
    }
}

impl View for TrajectoryEntry {
    type V = EntryView;

    open spec fn view(&self) -> EntryView {
        match *self {
            TrajectoryEntry::Action(action) => EntryView::Action(action@),
            TrajectoryEntry::Observation(observation) => EntryView::Observation(observation@),
        }
    }
}

/// The entries of a trajectory, each by its view.
pub open spec fn entry_views(entries: Seq<TrajectoryEntry>) -> Seq<EntryView> {
    entries.map_values(|entry: TrajectoryEntry| entry@)
}

impl<X> GenerateTrajectoryFile<X> {
    /// The entries of the file's trajectory.
    pub open spec fn entries(self) -> Seq<EntryView> {
        entry_views(self.trajectory.actions_and_observations@)
    }
}

} // verus!
