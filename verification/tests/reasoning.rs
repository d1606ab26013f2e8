use serde_json::Value;
use trajectory_orchestration::json::{param_slug, slug_member};
use trajectory_orchestration::reasoning::{
    action_writes_slug, call_write_slug, next_observation, observation_metadata,
    other_written_slugs, reasoning_for_slug, TrajectoryReasoningResponse,
};
use trajectory_orchestration::trajectory::{
    Action, GenerateTrajectoryFile, Observation, Tool, ToolCallMetadata, ToolSchema, Trajectory,
    TrajectoryEntry,
};
use uuid::Uuid;

fn minimal_file(entries: Vec<TrajectoryEntry>) -> GenerateTrajectoryFile<()> {
    GenerateTrajectoryFile {
        trajectory: Trajectory {
            id: Uuid::parse_str("00000000-0000-0000-0000-000000000001").unwrap(),
            actions_and_observations: entries,
        },
        rest: (),
    }
}

fn object(members: Vec<(&str, Value)>) -> Value {
    let mut map = serde_json::Map::new();
    for (key, value) in members {
        map.insert(key.to_string(), value);
    }
    Value::Object(map)
}

fn slug_param(slug: &str) -> Value {
    object(vec![("slug", Value::String(slug.to_string()))])
}

fn bare_action(reasoning: Option<&str>, calls: Vec<(&str, Value)>) -> Action {
    let params: Vec<Value> = calls.iter().map(|(_, params)| params.clone()).collect();
    Action::new(
        calls
            .iter()
            .map(|(name, _)| Tool {
                tool_schema: ToolSchema {
                    name: name.to_string(),
                },
            })
            .collect(),
        &params,
        reasoning.map(str::to_string),
    )
}

fn action(reasoning: Option<&str>, calls: Vec<(&str, Value)>) -> TrajectoryEntry {
    TrajectoryEntry::Action(bare_action(reasoning, calls))
}

fn metadata(slug: Option<&str>, skipped: bool) -> ToolCallMetadata {
    ToolCallMetadata {
        skipped_due_to_handoff: Some(skipped),
        slug: slug.map(str::to_string),
    }
}

fn bare_observation(metadata: Vec<Option<ToolCallMetadata>>) -> Observation {
    Observation {
        tool_metadata: metadata,
    }
}

fn observation(metadata: Vec<Option<ToolCallMetadata>>) -> TrajectoryEntry {
    TrajectoryEntry::Observation(bare_observation(metadata))
}

fn strings(texts: &[&str]) -> Vec<String> {
    texts.iter().map(|text| text.to_string()).collect()
}

#[test]
fn reasoning_for_slug_returns_empty_when_slug_was_not_written() {
    let file = minimal_file(vec![action(
        Some("thinking"),
        vec![("wiki_upsert_file", slug_param("other"))],
    )]);

    assert_eq!(reasoning_for_slug(&file, "target"), Vec::new());
}

#[test]
fn reasoning_for_slug_uses_latest_write_and_prefix_reasoning() {
    let file = minimal_file(vec![
        action(
            Some("  first target  "),
            vec![("wiki_upsert_file", slug_param("target"))],
        ),
        action(
            Some("intermediate"),
            vec![("wiki_apply_patch", slug_param("other"))],
        ),
        action(Some("  \n  "), vec![("search", slug_param("ignored"))]),
        action(
            Some("final target"),
            vec![
                ("wiki_apply_patch", slug_param("target")),
                ("wiki_upsert_file", slug_param("sibling")),
                ("wiki_apply_patch", slug_param("sibling")),
                ("search", slug_param("not-a-write")),
            ],
        ),
        action(
            Some("after final target"),
            vec![("wiki_upsert_file", slug_param("later"))],
        ),
    ]);

    assert_eq!(
        reasoning_for_slug(&file, "target"),
        vec![TrajectoryReasoningResponse {
            slug: "target".to_string(),
            reasoning: vec![
                "first target".to_string(),
                "intermediate".to_string(),
                "final target".to_string(),
            ],
            other_slugs: vec!["sibling".to_string()],
        }]
    );
}

#[test]
fn reasoning_for_slug_returns_written_slug_without_reasoning() {
    let file = minimal_file(vec![
        action(
            Some("before"),
            vec![("wiki_upsert_file", slug_param("other"))],
        ),
        action(None, vec![("wiki_upsert_file", slug_param("target"))]),
        action(
            Some("after target"),
            vec![("wiki_upsert_file", slug_param("other"))],
        ),
    ]);

    assert_eq!(
        reasoning_for_slug(&file, "target"),
        vec![TrajectoryReasoningResponse {
            slug: "target".to_string(),
            reasoning: vec!["before".to_string()],
            other_slugs: Vec::new(),
        }]
    );
}

#[test]
fn reasoning_for_slug_uses_metadata_slug_fallback_and_skips_handoffs() {
    let file = minimal_file(vec![
        action(
            Some("skipped"),
            vec![("wiki_upsert_file", slug_param("target"))],
        ),
        observation(vec![Some(metadata(Some("target"), true))]),
        action(
            Some("fallback"),
            vec![("wiki_apply_patch", object(Vec::new()))],
        ),
        observation(vec![Some(metadata(Some("target"), false))]),
    ]);

    assert_eq!(
        reasoning_for_slug(&file, "target"),
        vec![TrajectoryReasoningResponse {
            slug: "target".to_string(),
            reasoning: vec!["skipped".to_string(), "fallback".to_string()],
            other_slugs: Vec::new(),
        }]
    );
}

#[test]
fn empty_slug_is_the_root_page() {
    let file = minimal_file(vec![action(
        Some("root"),
        vec![("wiki_upsert_file", slug_param(""))],
    )]);

    let responses = reasoning_for_slug(&file, "");
    assert_eq!(responses.len(), 1);
    assert_eq!(responses[0].slug, "");
    assert_eq!(responses[0].reasoning, strings(&["root"]));
}

#[test]
fn empty_trajectory_tells_nothing() {
    assert_eq!(reasoning_for_slug(&minimal_file(Vec::new()), "a"), Vec::new());
    assert_eq!(
        reasoning_for_slug(&minimal_file(vec![observation(Vec::new())]), "a"),
        Vec::new()
    );
}

#[test]
fn param_slug_reads_string_members_of_objects_only() {
    assert_eq!(
        param_slug(Some(&slug_param("page"))),
        Some("page".to_string())
    );
    assert_eq!(
        param_slug(Some(&object(vec![
            ("title", Value::String("t".to_string())),
            ("slug", Value::String("s".to_string())),
        ]))),
        Some("s".to_string())
    );
    assert_eq!(param_slug(Some(&object(vec![("slug", Value::Bool(true))]))), None);
    assert_eq!(param_slug(Some(&object(vec![("slug", Value::Null)]))), None);
    assert_eq!(
        param_slug(Some(&object(vec![("Slug", Value::String("s".to_string()))]))),
        None
    );
    assert_eq!(param_slug(Some(&object(Vec::new()))), None);
    assert_eq!(param_slug(Some(&Value::String("slug".to_string()))), None);
    assert_eq!(
        param_slug(Some(&Value::Array(vec![slug_param("page")]))),
        None
    );
    assert_eq!(param_slug(Some(&Value::Null)), None);
    assert_eq!(param_slug(None), None);
}

#[test]
fn slug_member_must_be_there_and_be_a_string() {
    assert_eq!(slug_member(None), None);
    assert_eq!(slug_member(Some(None)), None);
    assert_eq!(
        slug_member(Some(Some(String::new()))),
        Some(String::new())
    );
}

#[test]
fn action_keeps_the_pages_that_its_arguments_name() {
    let act = bare_action(
        Some("r"),
        vec![
            ("search", slug_param("a")),
            ("search", Value::Null),
            ("search", slug_param("")),
        ],
    );
    assert_eq!(
        act.param_slugs,
        vec![Some("a".to_string()), None, Some(String::new())]
    );
    assert_eq!(act.tools.len(), 3);
    assert_eq!(act.reasoning, Some("r".to_string()));
}

#[test]
fn arguments_name_the_page_before_the_record_does() {
    let act = bare_action(
        None,
        vec![
            ("wiki_upsert_file", slug_param("named")),
            ("wiki_upsert_file", object(Vec::new())),
            ("wiki_upsert_file", object(Vec::new())),
        ],
    );
    let obs = bare_observation(vec![
        Some(metadata(Some("recorded"), false)),
        Some(metadata(Some("recorded"), false)),
        None,
    ]);
    assert_eq!(
        call_write_slug(&act, Some(&obs), 0),
        Some("named".to_string())
    );
    assert_eq!(
        call_write_slug(&act, Some(&obs), 1),
        Some("recorded".to_string())
    );
    assert_eq!(call_write_slug(&act, Some(&obs), 2), None);
    assert_eq!(call_write_slug(&act, Some(&obs), 3), None);
    assert_eq!(call_write_slug(&act, None, 0), Some("named".to_string()));
    assert_eq!(call_write_slug(&act, None, 1), None);
}

#[test]
fn call_without_arguments_falls_back_to_the_record() {
    let mut act = bare_action(None, vec![("wiki_apply_patch", Value::Null)]);
    act.param_slugs = Vec::new();
    let obs = bare_observation(vec![Some(metadata(Some("recorded"), false))]);
    assert_eq!(
        call_write_slug(&act, Some(&obs), 0),
        Some("recorded".to_string())
    );
}

#[test]
fn handoff_counts_only_where_it_is_recorded_as_true() {
    let act = bare_action(None, vec![("wiki_apply_patch", slug_param("page"))]);
    let unsaid = bare_observation(vec![Some(ToolCallMetadata {
        skipped_due_to_handoff: None,
        slug: None,
    })]);
    let skipped = bare_observation(vec![Some(metadata(Some("page"), true))]);
    assert!(action_writes_slug(&act, Some(&unsaid), "page"));
    assert!(!action_writes_slug(&act, Some(&skipped), "page"));
}

#[test]
fn only_wiki_write_tools_write() {
    for (tool, writes) in [
        ("wiki_apply_patch", true),
        ("wiki_upsert_file", true),
        ("wiki_read_file", false),
        ("wiki_upsert_file ", false),
        ("", false),
    ] {
        let act = bare_action(None, vec![(tool, slug_param("page"))]);
        assert_eq!(action_writes_slug(&act, None, "page"), writes);
    }
}

#[test]
fn observation_must_follow_directly() {
    let entries = vec![
        action(None, Vec::new()),
        observation(vec![Some(metadata(Some("a"), false))]),
        action(None, Vec::new()),
        action(None, Vec::new()),
    ];
    assert!(next_observation(&entries, 0).is_some());
    assert!(next_observation(&entries, 1).is_none());
    assert!(next_observation(&entries, 2).is_none());
    assert!(next_observation(&entries, 3).is_none());
    assert!(next_observation(&entries, 40).is_none());
    let found = next_observation(&entries, 0);
    assert_eq!(
        observation_metadata(found, 0).unwrap().slug,
        Some("a".to_string())
    );
    assert!(observation_metadata(found, 1).is_none());
    assert!(observation_metadata(None, 0).is_none());
}

#[test]
fn other_pages_are_listed_once_in_call_order() {
    let act = bare_action(
        None,
        vec![
            ("wiki_upsert_file", slug_param("b")),
            ("wiki_apply_patch", slug_param("target")),
            ("wiki_apply_patch", slug_param("a")),
            ("search", slug_param("c")),
            ("wiki_upsert_file", slug_param("b")),
            ("wiki_upsert_file", slug_param("target")),
        ],
    );
    assert_eq!(
        other_written_slugs(&act, None, "target"),
        strings(&["b", "a"])
    );
    assert_eq!(
        other_written_slugs(&act, None, "b"),
        strings(&["target", "a"])
    );
}

#[test]
fn later_entries_change_nothing_of_what_is_told() {
    let short = minimal_file(vec![
        action(Some("one"), vec![("wiki_upsert_file", slug_param("p"))]),
        observation(vec![None]),
    ]);
    let long = minimal_file(vec![
        action(Some("one"), vec![("wiki_upsert_file", slug_param("p"))]),
        observation(vec![None]),
        action(Some("two"), vec![("wiki_upsert_file", slug_param("q"))]),
        observation(vec![Some(metadata(Some("p"), false))]),
    ]);
    assert_eq!(reasoning_for_slug(&short, "p"), reasoning_for_slug(&long, "p"));
    assert_eq!(
        reasoning_for_slug(&long, "q")[0].reasoning,
        strings(&["one", "two"])
    );
}

#[test]
fn appending_other_writes_leaves_nothing_told() {
    let short = minimal_file(vec![action(
        Some("one"),
        vec![("wiki_upsert_file", slug_param("p"))],
    )]);
    let long = minimal_file(vec![
        action(Some("one"), vec![("wiki_upsert_file", slug_param("p"))]),
        action(Some("two"), vec![("wiki_apply_patch", slug_param("q"))]),
    ]);
    assert_eq!(reasoning_for_slug(&short, "r"), Vec::new());
    assert_eq!(reasoning_for_slug(&long, "r"), Vec::new());
}

#[test]
fn traces_lose_white_space_at_the_ends_only() {
    let file = minimal_file(vec![
        action(Some("\u{a0}\t a  b \u{3000}\r\n"), Vec::new()),
        action(Some("\u{200b}x\u{200b}"), Vec::new()),
        action(Some(""), Vec::new()),
        action(None, vec![("wiki_upsert_file", slug_param("p"))]),
    ]);
    assert_eq!(
        reasoning_for_slug(&file, "p")[0].reasoning,
        strings(&["a  b", "\u{200b}x\u{200b}"])
    );
}

#[test]
fn blank_characters_are_those_of_the_white_space_property() {
    let blank = |c: char| {
        matches!(
            c as u32,
            0x09..=0x0d
                | 0x20
                | 0x85
                | 0xa0
                | 0x1680
                | 0x2000..=0x200a
                | 0x2028
                | 0x2029
                | 0x202f
                | 0x205f
                | 0x3000
        )
    };
    for c in '\0'..=char::MAX {
        let file = minimal_file(vec![action(
            Some(&c.to_string()),
            vec![("wiki_upsert_file", slug_param("p"))],
        )]);
        let expected = if blank(c) {
            Vec::new()
        } else {
            vec![c.to_string()]
        };
        assert_eq!(reasoning_for_slug(&file, "p")[0].reasoning, expected);
    }
}
