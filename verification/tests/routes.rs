use serde_json::Value;
use trajectory_orchestration::errors::{
    ErrorCodes, FoundationChromaClientError, TrajectoryError, TrajectoryOpError,
    TrajectoryRouteError, WriteState,
};
use trajectory_orchestration::routes::{
    foundation_append_trajectory_entries, foundation_finalize_trajectory,
    foundation_get_trajectory, foundation_get_trajectory_reasoning, foundation_open_trajectory,
    foundation_save_trajectory, trajectory_collection, trajectory_op, AuthzAction, AwaitCollection,
    ReadTrajectoryQuery, ReadTrajectoryReasoningQuery, RouteEnd, RouteFailure, RoutePayloads,
    RouteResponse, RouteStep, TrajectoryWrite,
};
use trajectory_orchestration::trajectory::{
    Action, GenerateTrajectoryFile, Tool, ToolSchema, Trajectory, TrajectoryEntry,
};
use uuid::Uuid;

struct Plain;

impl RoutePayloads for Plain {
    type FileRest = u32;
    type Entries = &'static str;
    type Written = u32;
    type Failure = &'static str;
}

type Step = RouteStep<Plain>;

fn id() -> Uuid {
    Uuid::parse_str("00000000-0000-0000-0000-000000000001").unwrap()
}

fn file(rest: u32) -> GenerateTrajectoryFile<u32> {
    let mut params = serde_json::Map::new();
    params.insert("slug".to_string(), Value::String("page".to_string()));
    GenerateTrajectoryFile {
        trajectory: Trajectory {
            id: id(),
            actions_and_observations: vec![TrajectoryEntry::Action(Action::new(
                vec![Tool {
                    tool_schema: ToolSchema {
                        name: "wiki_apply_patch".to_string(),
                    },
                }],
                &[Value::Object(params)],
                Some(" why ".to_string()),
            ))],
        },
        rest,
    }
}

fn reasoning_query(slug: Option<&str>) -> ReadTrajectoryReasoningQuery {
    ReadTrajectoryReasoningQuery {
        slug: slug.map(str::to_string),
        require_finalized: true,
    }
}

fn authorize(step: Step, expected: AuthzAction, identity: Result<&str, &'static str>) -> Step {
    match step {
        RouteStep::Authorize(action, wait) => {
            assert_eq!(action, expected);
            wait.identified(identity.map(str::to_string))
        }
        _ => panic!("expected an authorization"),
    }
}

fn meter(
    step: Step,
    op: &str,
    reply: Result<(), &'static str>,
    configured: bool,
    token: Option<&str>,
) -> Step {
    match step {
        RouteStep::Meter(tags, wait) => {
            assert_eq!(tags, vec![op.to_string(), "tenant:acme".to_string()]);
            wait.metered(reply, configured, token.map(str::to_string))
        }
        _ => panic!("expected metering"),
    }
}

fn resolving(step: Step) -> AwaitCollection<Plain> {
    match step {
        RouteStep::Resolve(request, wait) => {
            assert_eq!(request.tenant, "acme");
            assert_eq!(request.token, "secret");
            wait
        }
        _ => panic!("expected a collection request"),
    }
}

fn admitted(step: Step, action: AuthzAction, op: &str) -> Step {
    let step = authorize(step, action, Ok("acme"));
    resolving(meter(step, op, Ok(()), true, Some("secret"))).resolved(Ok(()))
}

fn end(step: Step) -> RouteEnd<Plain> {
    match step {
        RouteStep::Finished(end) => end,
        _ => panic!("expected the end"),
    }
}

fn route_error(step: Step) -> TrajectoryRouteError {
    match end(step).result {
        Err(RouteFailure::Route(error)) => error,
        _ => panic!("expected a route error"),
    }
}

fn refusal(step: Step) -> &'static str {
    match end(step).result {
        Err(RouteFailure::Refused(failure)) => failure,
        _ => panic!("expected a refusal"),
    }
}

fn other(message: &str, code: ErrorCodes) -> TrajectoryError {
    TrajectoryError::Other {
        message: message.to_string(),
        code,
    }
}

fn stale() -> TrajectoryOpError {
    TrajectoryOpError {
        error: other("no collection", ErrorCodes::Internal),
        chroma_not_found: true,
    }
}

fn failed(error: TrajectoryError) -> TrajectoryOpError {
    TrajectoryOpError {
        error,
        chroma_not_found: false,
    }
}

#[test]
fn route_errors_map_complete_contract_codes() {
    let id = Uuid::parse_str("00000000-0000-0000-0000-000000000001").unwrap();
    assert_eq!(
        vec![
            TrajectoryRouteError::RouteDisabled.code(),
            TrajectoryRouteError::MissingToken.code(),
            TrajectoryRouteError::MissingSlug.code(),
            TrajectoryRouteError::Resolve(FoundationChromaClientError::InvalidToken(
                "bad token".to_string(),
            ))
            .code(),
            TrajectoryRouteError::Resolve(FoundationChromaClientError::Client {
                message: "missing".to_string(),
                not_found: true,
                code: ErrorCodes::Internal,
            })
            .code(),
            TrajectoryRouteError::Trajectory(TrajectoryError::NotFound { tid: id }).code(),
            TrajectoryRouteError::Trajectory(TrajectoryError::AlreadyExists { tid: id }).code(),
            TrajectoryRouteError::Trajectory(TrajectoryError::EmptyAppend { tid: id }).code(),
            TrajectoryRouteError::Trajectory(TrajectoryError::IdMismatch {
                path: id,
                body: Uuid::nil(),
            })
            .code(),
            TrajectoryRouteError::Trajectory(TrajectoryError::FinalizedRequired { tid: id })
                .code(),
            TrajectoryRouteError::Trajectory(TrajectoryError::EntryCountMismatch {
                tid: id,
                expected: 1,
                actual: 0,
            })
            .code(),
            TrajectoryRouteError::Trajectory(TrajectoryError::NotOpen {
                tid: id,
                write_state: WriteState::Finalized,
            })
            .code(),
        ],
        vec![
            ErrorCodes::Internal,
            ErrorCodes::InvalidArgument,
            ErrorCodes::InvalidArgument,
            ErrorCodes::InvalidArgument,
            ErrorCodes::NotFound,
            ErrorCodes::NotFound,
            ErrorCodes::AlreadyExists,
            ErrorCodes::InvalidArgument,
            ErrorCodes::InvalidArgument,
            ErrorCodes::FailedPrecondition,
            ErrorCodes::FailedPrecondition,
            ErrorCodes::FailedPrecondition,
        ]
    );
}

fn parameters(json: &str) -> Value {
    serde_json::from_str(json).unwrap()
}

fn read_query(json: &str) -> ReadTrajectoryQuery {
    ReadTrajectoryQuery::from_parameters(
        parameters(json)
            .get("require_finalized")
            .and_then(Value::as_bool),
    )
}

fn read_reasoning_query(json: &str) -> ReadTrajectoryReasoningQuery {
    let parameters = parameters(json);
    ReadTrajectoryReasoningQuery::from_parameters(
        parameters
            .get("slug")
            .and_then(Value::as_str)
            .map(str::to_string),
        parameters.get("require_finalized").and_then(Value::as_bool),
    )
}

#[test]
fn read_query_defaults_to_partial_reads() {
    assert_eq!(
        ReadTrajectoryQuery::default(),
        ReadTrajectoryQuery {
            require_finalized: false,
        }
    );
    assert_eq!(
        read_query("{}"),
        ReadTrajectoryQuery {
            require_finalized: false,
        }
    );
}

#[test]
fn read_query_deserializes_finalized_requirement_opt_in() {
    assert_eq!(
        read_query("{\"require_finalized\": true}"),
        ReadTrajectoryQuery {
            require_finalized: true,
        }
    );
}

#[test]
fn reasoning_query_requires_slug_but_allows_root_slug() {
    assert_eq!(
        read_reasoning_query("{\"require_finalized\": true}"),
        ReadTrajectoryReasoningQuery {
            slug: None,
            require_finalized: true,
        }
    );
    assert_eq!(
        read_reasoning_query("{\"slug\": \"\"}"),
        ReadTrajectoryReasoningQuery {
            slug: Some(String::new()),
            require_finalized: false,
        }
    );
}

#[test]
fn reasoning_query_defaults_to_nothing() {
    assert_eq!(
        ReadTrajectoryReasoningQuery::default(),
        ReadTrajectoryReasoningQuery {
            slug: None,
            require_finalized: false,
        }
    );
    assert!(!read_query("{\"require_finalized\": false}").require_finalized);
}

#[test]
fn other_codes_are_passed_on() {
    let client = |not_found| {
        TrajectoryRouteError::Resolve(FoundationChromaClientError::Client {
            message: String::new(),
            not_found,
            code: ErrorCodes::Unavailable,
        })
        .code()
    };
    assert_eq!(client(false), ErrorCodes::Unavailable);
    assert_eq!(client(true), ErrorCodes::NotFound);
    assert_eq!(
        TrajectoryRouteError::Trajectory(other("corrupt", ErrorCodes::DataLoss)).code(),
        ErrorCodes::DataLoss
    );
    assert_eq!(
        TrajectoryRouteError::Trajectory(stale().error).code(),
        ErrorCodes::Internal
    );
}

#[test]
fn errors_say_what_happened() {
    assert_eq!(
        TrajectoryRouteError::RouteDisabled.message("x"),
        "trajectory record I/O is not configured"
    );
    assert_eq!(
        TrajectoryRouteError::MissingToken.message("x"),
        "missing or invalid x-chroma-token header"
    );
    assert_eq!(
        TrajectoryRouteError::MissingSlug.message("x"),
        "missing slug query parameter"
    );
    assert_eq!(
        TrajectoryRouteError::Trajectory(stale().error).message("gone"),
        "gone"
    );
    assert_eq!(
        TrajectoryRouteError::Resolve(FoundationChromaClientError::InvalidToken(String::new()))
            .message("bad token"),
        "bad token"
    );
}

#[test]
fn writes_are_upserts_and_are_performed_as_requested() {
    let upsert = AuthzAction::UpsertFoundation;
    match admitted(
        foundation_save_trajectory(file(1)),
        upsert,
        "op:foundation_save_trajectory",
    ) {
        RouteStep::Write(TrajectoryWrite::Save(f), wait) => {
            assert_eq!(f.rest, 1);
            match end(wait.written(Ok(11))).result {
                Ok(RouteResponse::Written(11)) => {}
                _ => panic!("expected the response"),
            }
        }
        _ => panic!("expected a save"),
    }
    match admitted(
        foundation_open_trajectory(file(2)),
        upsert,
        "op:foundation_open_trajectory",
    ) {
        RouteStep::Write(TrajectoryWrite::CreateOpen(f), _) => assert_eq!(f.rest, 2),
        _ => panic!("expected an open"),
    }
    match admitted(
        foundation_append_trajectory_entries(id(), "entries"),
        upsert,
        "op:foundation_append_trajectory_entries",
    ) {
        RouteStep::Write(TrajectoryWrite::AppendOpen(tid, entries), _) => {
            assert_eq!((tid, entries), (id(), "entries"));
        }
        _ => panic!("expected an append"),
    }
    match admitted(
        foundation_finalize_trajectory(id(), file(3)),
        upsert,
        "op:foundation_finalize_trajectory",
    ) {
        RouteStep::Write(TrajectoryWrite::FinalizeOpen(tid, f), _) => {
            assert_eq!((tid, f.rest), (id(), 3));
        }
        _ => panic!("expected a finalization"),
    }
}

#[test]
fn get_answers_the_file_as_loaded() {
    let step = foundation_get_trajectory(
        id(),
        ReadTrajectoryQuery {
            require_finalized: true,
        },
    );
    match admitted(step, AuthzAction::ViewFoundation, "op:foundation_get_trajectory") {
        RouteStep::Load(load, wait) => {
            assert_eq!((load.id, load.require_finalized), (id(), true));
            match end(wait.loaded(Ok(file(5)))).result {
                Ok(RouteResponse::File(f)) => assert_eq!(f.rest, 5),
                _ => panic!("expected the file"),
            }
        }
        _ => panic!("expected a load"),
    }
}

#[test]
fn reasoning_answers_the_page() {
    let answer = |slug: &str| {
        let step = foundation_get_trajectory_reasoning(id(), reasoning_query(Some(slug)));
        match admitted(
            step,
            AuthzAction::ViewFoundation,
            "op:foundation_get_trajectory_reasoning",
        ) {
            RouteStep::Load(load, wait) => {
                assert_eq!((load.id, load.require_finalized), (id(), true));
                match end(wait.loaded(Ok(file(0)))).result {
                    Ok(RouteResponse::Reasoning(responses)) => responses,
                    _ => panic!("expected reasoning"),
                }
            }
            _ => panic!("expected a load"),
        }
    };
    let responses = answer("page");
    assert_eq!(responses.len(), 1);
    assert_eq!(responses[0].slug, "page");
    assert_eq!(responses[0].reasoning, vec!["why".to_string()]);
    assert_eq!(answer("").len(), 0);
}

#[test]
fn missing_slug_comes_before_the_server_is_looked_at() {
    let step = foundation_get_trajectory_reasoning(id(), reasoning_query(None));
    let step = authorize(step, AuthzAction::ViewFoundation, Ok("acme"));
    let step = meter(
        step,
        "op:foundation_get_trajectory_reasoning",
        Ok(()),
        false,
        None,
    );
    assert!(matches!(route_error(step), TrajectoryRouteError::MissingSlug));
}

#[test]
fn refused_callers_learn_that_alone() {
    let view = AuthzAction::ViewFoundation;
    let step = || foundation_get_trajectory::<Plain>(id(), ReadTrajectoryQuery::default());
    assert_eq!(refusal(authorize(step(), view, Err("denied"))), "denied");
    let metered = meter(
        authorize(step(), view, Ok("acme")),
        "op:foundation_get_trajectory",
        Err("slow down"),
        false,
        None,
    );
    assert_eq!(refusal(metered), "slow down");
}

#[test]
fn server_and_token_are_needed() {
    let step = |configured, token| {
        meter(
            authorize(
                foundation_get_trajectory(id(), ReadTrajectoryQuery::default()),
                AuthzAction::ViewFoundation,
                Ok("acme"),
            ),
            "op:foundation_get_trajectory",
            Ok(()),
            configured,
            token,
        )
    };
    assert!(matches!(
        route_error(step(false, Some("secret"))),
        TrajectoryRouteError::RouteDisabled
    ));
    assert!(matches!(
        route_error(step(false, None)),
        TrajectoryRouteError::RouteDisabled
    ));
    assert!(matches!(
        route_error(step(true, None)),
        TrajectoryRouteError::MissingToken
    ));
    assert_eq!(
        trajectory_collection(true, Some("t".to_string())).unwrap(),
        "t"
    );
}

#[test]
fn unresolved_collection_ends_the_route() {
    let step = authorize(
        foundation_get_trajectory(id(), ReadTrajectoryQuery::default()),
        AuthzAction::ViewFoundation,
        Ok("acme"),
    );
    let wait = resolving(meter(
        step,
        "op:foundation_get_trajectory",
        Ok(()),
        true,
        Some("secret"),
    ));
    let ended = end(wait.resolved(Err(FoundationChromaClientError::InvalidToken(
        "bad".to_string(),
    ))));
    assert_eq!(ended.stale_tenant, None);
    match ended.result {
        Err(RouteFailure::Route(error)) => assert_eq!(error.code(), ErrorCodes::InvalidArgument),
        _ => panic!("expected a route error"),
    }
}

#[test]
fn only_a_stale_collection_is_forgotten() {
    let write = |error| {
        match admitted(
            foundation_save_trajectory(file(1)),
            AuthzAction::UpsertFoundation,
            "op:foundation_save_trajectory",
        ) {
            RouteStep::Write(_, wait) => end(wait.written(Err(error))).stale_tenant,
            _ => panic!("expected a write"),
        }
    };
    assert_eq!(write(stale()), Some("acme".to_string()));
    assert_eq!(write(failed(TrajectoryError::NotFound { tid: id() })), None);
    assert_eq!(write(failed(other("busy", ErrorCodes::Unavailable))), None);

    match admitted(
        foundation_get_trajectory(id(), ReadTrajectoryQuery::default()),
        AuthzAction::ViewFoundation,
        "op:foundation_get_trajectory",
    ) {
        RouteStep::Load(_, wait) => {
            let ended = end(wait.loaded::<Plain>(Err(stale())));
            assert_eq!(ended.stale_tenant, Some("acme".to_string()));
            assert!(ended.result.is_err());
        }
        _ => panic!("expected a load"),
    }

    let (result, forget) = trajectory_op("acme".to_string(), Ok(4));
    assert_eq!(result.unwrap(), 4);
    assert_eq!(forget, None);
}
