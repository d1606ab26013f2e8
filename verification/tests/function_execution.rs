use trajectory_orchestration::function_execution::{
    has_reached_queue_frontier, AwaitLogs, CompactionContext, CompactionError,
    CompactionResponse, DatabaseName, FunctionContext, FunctionExecutionContext,
    FunctionExecutionInput, FunctionExecutionProgress, FunctionExecutionStep,
    LogFetchOrchestratorResponse, LogFetchRequest, LogFetchSuccess, Payloads, RegisterCall,
    WorkflowCall,
};
use trajectory_orchestration::ids::{AttachedFunctionUuid, CollectionUuid, JobId};
use uuid::Uuid;

#[derive(Debug)]
struct Plain;

impl Payloads for Plain {
    type CollectionInfo = &'static str;
    type MaterializedLog = u32;
    type AttachedFunction = &'static str;
    type RegisterInfo = u32;
    type ContextRest = &'static str;
    type Failure = &'static str;
}

type Step = FunctionExecutionStep<Plain>;

fn id(n: u128) -> Uuid {
    Uuid::from_u128(n)
}

fn input(n: u128, completion: i64, compaction: i64) -> FunctionExecutionInput {
    FunctionExecutionInput {
        collection_id: CollectionUuid(id(n)),
        queue_completion_offset: completion,
        queue_compaction_offset: compaction,
    }
}

fn start(inputs: Vec<FunctionExecutionInput>) -> Step {
    FunctionExecutionContext::new(&CompactionContext {
        log_start_offset: Some(99),
        rest: "settings",
    })
    .run(AttachedFunctionUuid(id(7)), inputs)
}

fn look_up(step: Step, collection: u128, found: Result<Option<&str>, &'static str>) -> Step {
    match step {
        FunctionExecutionStep::LookUpDatabase(lookup, wait) => {
            assert_eq!(lookup.collection_id.0, id(collection));
            assert_eq!(lookup.context.log_start_offset, Some(99));
            assert_eq!(lookup.context.rest, "settings");
            wait.looked_up(found.map(|name| name.map(|n| DatabaseName(n.to_string()))))
        }
        _ => panic!("expected a lookup"),
    }
}

fn fetch(step: Step) -> (LogFetchRequest<Plain>, AwaitLogs<Plain>) {
    match step {
        FunctionExecutionStep::FetchLogs(request, wait) => {
            assert_eq!(request.attached_function_id.0, id(7));
            assert_eq!(request.database_name.0, "db");
            assert_eq!(request.context.rest, "settings");
            (request, wait)
        }
        _ => panic!("expected a fetch"),
    }
}

fn log(info: &'static str, records: Vec<u32>) -> LogFetchOrchestratorResponse<Plain> {
    LogFetchOrchestratorResponse::Success(LogFetchSuccess {
        materialized: records,
        collection_info: info,
        resolved_attached_functions: vec!["f"],
    })
}

fn workflow(step: Step) -> (WorkflowCall<Plain>, Box<dyn FnOnce(Ran) -> Step>) {
    match step {
        FunctionExecutionStep::RunWorkflow(call, wait) => {
            (call, Box::new(move |reply| wait.ran(reply)))
        }
        _ => panic!("expected the workflow"),
    }
}

type Ran = Result<Option<(FunctionContext<Plain>, u32)>, &'static str>;

fn register(step: Step) -> (RegisterCall<Plain>, Box<dyn FnOnce(Result<(), &'static str>) -> Step>) {
    match step {
        FunctionExecutionStep::Register(call, wait) => {
            (call, Box::new(move |reply| wait.registered(reply)))
        }
        _ => panic!("expected a registration"),
    }
}

fn finished(step: Step) -> Result<Uuid, CompactionError<&'static str>> {
    match step {
        FunctionExecutionStep::Finished(Ok(CompactionResponse::Success { job_id })) => Ok(job_id.0),
        FunctionExecutionStep::Finished(Err(error)) => Err(error),
        _ => panic!("expected the end"),
    }
}

fn violation(step: Step) -> &'static str {
    match finished(step) {
        Err(CompactionError::InvariantViolation(what)) => what,
        _ => panic!("expected a violation"),
    }
}

fn service_failure(step: Step) -> &'static str {
    match finished(step) {
        Err(CompactionError::Service(failure)) => failure,
        _ => panic!("expected a failure"),
    }
}

fn function_context() -> FunctionContext<Plain> {
    FunctionContext {
        attached_function_id: AttachedFunctionUuid(id(7)),
        function_id: id(8),
        input_progress: vec![FunctionExecutionProgress {
            input_collection_id: CollectionUuid(id(1)),
            updated_completion_offset: 12,
        }],
        is_async: true,
        attached_function: "f",
    }
}

#[test]
fn zero_queue_frontier_is_not_treated_as_completed_work() {
    assert!(!has_reached_queue_frontier(0, 0));
}

#[test]
fn positive_queue_frontier_still_treats_equality_as_complete() {
    assert!(has_reached_queue_frontier(40, 40));
}

#[test]
fn frontier_is_reached_from_below() {
    assert!(!has_reached_queue_frontier(39, 40));
    assert!(has_reached_queue_frontier(41, 40));
    assert!(!has_reached_queue_frontier(5, -1));
    assert!(!has_reached_queue_frontier(i64::MAX, 0));
    assert!(!has_reached_queue_frontier(i64::MIN, i64::MAX));
    assert!(has_reached_queue_frontier(i64::MAX, i64::MAX));
}

#[test]
fn run_without_inputs_is_refused() {
    assert_eq!(
        violation(start(Vec::new())),
        "Function execution requires at least one input collection"
    );
}

#[test]
fn database_must_be_found_and_fit() {
    assert_eq!(
        violation(look_up(start(vec![input(1, 0, 5)]), 1, Err("down"))),
        "Failed to resolve function input collection database"
    );
    assert_eq!(
        violation(look_up(start(vec![input(1, 0, 5)]), 1, Ok(None))),
        "Invalid function input collection database name"
    );
}

#[test]
fn stale_inputs_end_a_run_early() {
    let step = start(vec![input(1, 5, 5), input(2, 9, 5)]);
    assert_eq!(
        finished(look_up(step, 1, Ok(Some("db")))).ok(),
        Some(id(7))
    );
}

#[test]
fn run_reads_pending_inputs_from_their_own_offsets() {
    let step = start(vec![input(1, 5, 5), input(2, 3, 5), input(3, 0, 0), input(4, 6, 5)]);
    let step = look_up(step, 1, Ok(Some("db")));

    let (request, wait) = fetch(step);
    assert_eq!(request.collection_id.0, id(2));
    assert_eq!(request.context.log_start_offset, Some(3));
    assert!(!request.use_compacted_logs);
    let step = wait.fetched(Ok(log("two", vec![20, 21])));

    let (request, wait) = fetch(step);
    assert_eq!(request.collection_id.0, id(3));
    assert_eq!(request.context.log_start_offset, Some(0));
    assert!(!request.use_compacted_logs);
    let step = wait.fetched(Ok(LogFetchOrchestratorResponse::RequireFunctionBackfill));

    let (request, wait) = fetch(step);
    assert_eq!(request.collection_id.0, id(3));
    assert_eq!(request.context.log_start_offset, Some(0));
    assert!(request.use_compacted_logs);
    let step = wait.fetched(Ok(log("three", vec![30])));

    let (call, ran) = workflow(step);
    assert_eq!(call.context.log_start_offset, Some(99));
    assert_eq!(call.context.rest, "settings");
    assert!(!call.is_for_backfill);
    assert_eq!(call.attached_function_id.map(|f| f.0), Some(id(7)));
    assert_eq!(call.input_collection_data.len(), 2);
    assert_eq!(call.input_collection_data[0].collection_info, "two");
    assert_eq!(call.input_collection_data[0].materialized_log_data, vec![20, 21]);
    assert_eq!(call.input_collection_data[0].resolved_attached_functions, vec!["f"]);
    assert_eq!(call.input_collection_data[1].collection_info, "three");
    assert_eq!(call.input_collection_data[1].materialized_log_data, vec![30]);

    let (call, registered) = register(ran(Ok(Some((function_context(), 5)))));
    assert_eq!(call.context.log_start_offset, Some(99));
    assert_eq!(call.context.rest, "settings");
    assert_eq!(call.collections, vec![5]);
    let context = call.function_context.unwrap();
    assert_eq!(context.function_id, id(8));
    assert_eq!(context.input_progress[0].updated_completion_offset, 12);
    assert_eq!(finished(registered(Ok(()))).ok(), Some(id(7)));
}

fn fetching(inputs: Vec<FunctionExecutionInput>) -> AwaitLogs<Plain> {
    fetch(look_up(start(inputs), 1, Ok(Some("db")))).1
}

#[test]
fn offset_repair_is_not_supported() {
    let step = fetching(vec![input(1, 0, 5)])
        .fetched(Ok(LogFetchOrchestratorResponse::RequireCompactionOffsetRepair));
    assert_eq!(
        violation(step),
        "Function execution does not support compaction offset repair"
    );
}

#[test]
fn backfill_must_bring_the_log() {
    let backfill = || {
        fetch(
            fetching(vec![input(1, 0, 5)])
                .fetched(Ok(LogFetchOrchestratorResponse::RequireFunctionBackfill)),
        )
        .1
    };
    let expected = "Function execution backfill fetch should only return success";
    assert_eq!(
        violation(backfill().fetched(Ok(LogFetchOrchestratorResponse::RequireFunctionBackfill))),
        expected
    );
    assert_eq!(
        violation(
            backfill().fetched(Ok(LogFetchOrchestratorResponse::RequireCompactionOffsetRepair))
        ),
        expected
    );
    assert_eq!(service_failure(backfill().fetched(Err("gone"))), "gone");
}

#[test]
fn first_failing_input_ends_the_run() {
    let step = fetching(vec![input(1, 0, 5), input(2, 0, 5)]).fetched(Err("log down"));
    assert_eq!(service_failure(step), "log down");
}

#[test]
fn failures_of_function_and_registration_end_the_run() {
    let collected = || fetching(vec![input(1, 0, 5)]).fetched(Ok(log("one", Vec::new())));
    assert_eq!(service_failure((workflow(collected()).1)(Err("boom"))), "boom");
    assert_eq!(
        finished((workflow(collected()).1)(Ok(None))).ok(),
        Some(id(7))
    );
    let registering = register((workflow(collected()).1)(Ok(Some((function_context(), 1)))));
    assert_eq!(service_failure((registering.1)(Err("conflict"))), "conflict");
}

#[test]
fn copies_hold_what_was_copied() {
    let copy = function_context().clone();
    assert_eq!(format!("{:?}", copy), format!("{:?}", function_context()));
    assert_eq!(copy.input_progress[0].input_collection_id.0, id(1));

    let step = fetching(vec![input(1, 0, 5)]).fetched(Ok(log("one", vec![1, 2])));
    let (call, _) = workflow(step);
    let copy = call.input_collection_data[0].clone();
    assert_eq!(copy.collection_info, "one");
    assert_eq!(copy.materialized_log_data, vec![1, 2]);
    assert_eq!(
        format!("{:?}", copy),
        format!("{:?}", call.input_collection_data[0])
    );
}

#[test]
fn execution_shows_its_settings() {
    let execution = FunctionExecutionContext::<Plain>::new(&CompactionContext {
        log_start_offset: None,
        rest: "settings",
    });
    assert!(format!("{:?}", execution).contains("settings"));
}

#[test]
fn job_goes_under_the_functions_id() {
    assert_eq!(JobId::from(AttachedFunctionUuid(id(3))).0, id(3));
}
