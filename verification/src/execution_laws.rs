//! What holds of every run of an attached function, whatever the services reply.

use crate::execution_model::{
    collection_data, database_looked_up, log_request, logs_fetched, registered,
    shared_database_name, started, success, unread, violation, workflow_ran, AwaitDatabaseView,
    AwaitLogsView, LogRequestView, RegisterView, RunView, StepView, WorkflowView,
};
use crate::function_execution::{
    at_frontier, CompactionContext, CompactionError, CompactionResponse, DatabaseLookup,
    FunctionContext, FunctionExecutionInput, FunctionInputCollectionData,
    LogFetchOrchestratorResponse, Payloads,
};
use vstd::prelude::*;

verus! {

/// A queue that names no frontier, which is zero or less, has never been reached; a
/// frontier is reached by coming up to it; and a frontier once reached stays so as
/// the function reads on.
pub proof fn queue_frontier(completion_offset: int, later_offset: int, frontier: int)
    requires
        completion_offset <= later_offset,
    ensures
        frontier <= 0 ==> !at_frontier(completion_offset, frontier),
        frontier > 0 ==> at_frontier(frontier, frontier),
        at_frontier(completion_offset, frontier) ==> at_frontier(later_offset, frontier),
{
}

/// A run without inputs is refused before any call.
pub proof fn run_without_inputs_is_refused<P: Payloads>(run: RunView<P>)
    ensures
        started::<P>(run, Seq::empty()) == StepView::<P>::Finished(
            violation("Function execution requires at least one input collection"),
        ),
{
}

/// A run whose inputs have all been read up to the queue's frontier ends in success
/// as soon as its database is known: no log is fetched and the function does not run.
pub proof fn stale_work_is_skipped<P: Payloads>(
    run: RunView<P>,
    inputs: Seq<FunctionExecutionInput>,
    name: Seq<char>,
)
    requires
        forall|i: int|
            0 <= i < inputs.len() ==> at_frontier(
                (#[trigger] inputs[i]).queue_completion_offset as int,
                inputs[i].queue_compaction_offset as int,
            ),
    ensures
        database_looked_up::<P>(
            AwaitDatabaseView { run, todo: unread(inputs) },
            Ok(Some(name)),
        ) == StepView::<P>::Finished(success(run)),
{
    let pred = |input: FunctionExecutionInput|
        !at_frontier(
            input.queue_completion_offset as int,
            input.queue_compaction_offset as int,
        );
    if unread(inputs).len() > 0 {
        inputs.lemma_filter_pred(pred, 0);
        let input = unread(inputs)[0];
        assert(inputs.filter(pred).contains(input));
        inputs.lemma_filter_contains_rev(pred, input);
        let i = choose|i: int| 0 <= i < inputs.len() && inputs[i] == input;
        assert(at_frontier(
            inputs[i].queue_completion_offset as int,
            inputs[i].queue_compaction_offset as int,
        ));
    }
}

/// How many calls a run can still make.
pub open spec fn calls_left<P: Payloads>(step: StepView<P>) -> nat {
    match step {
        StepView::LookUpDatabase(_, wait) => 2 * wait.todo.len() + 3,
        StepView::FetchLogs(_, wait) => 2 * wait.todo.len() + if wait.use_compacted_logs {
            3nat
        } else {
            4nat
        },
        StepView::RunWorkflow(_, _) => 2,
        StepView::Register(_, _) => 1,
        StepView::Finished(_) => 0,
    }
}

/// Every reply brings a run nearer to its end: one over `n` inputs with something
/// left to read ends after at most `2 * n + 3` calls.
pub proof fn every_reply_brings_the_end_nearer<P: Payloads>(
    database: AwaitDatabaseView<P>,
    found: Result<Option<Seq<char>>, P::Failure>,
    logs: AwaitLogsView<P>,
    log: Result<LogFetchOrchestratorResponse<P>, P::Failure>,
    workflow: RunView<P>,
    outcome: Result<Option<(FunctionContext<P>, P::RegisterInfo)>, P::Failure>,
    registration: RunView<P>,
    done: Result<(), P::Failure>,
)
    ensures
        calls_left(database_looked_up::<P>(database, found)) < 2 * database.todo.len() + 3,
        calls_left(logs_fetched(logs, log)) < calls_left(
            StepView::FetchLogs(log_request(logs), logs),
        ),
        calls_left(workflow_ran::<P>(workflow, outcome)) < 2,
        calls_left(registered::<P>(registration, done)) < 1,
{
}

/// Nothing is asked for twice but a log that was compacted meanwhile, and that once:
/// after the reply to a request for a compacted log the run is past that input.
pub proof fn compacted_log_is_asked_for_once<P: Payloads>(
    wait: AwaitLogsView<P>,
    reply: Result<LogFetchOrchestratorResponse<P>, P::Failure>,
)
    ensures
        match logs_fetched(wait, reply) {
            StepView::FetchLogs(_, next) => {
                ||| next.collected.len() == wait.collected.len() + 1 && !next.use_compacted_logs
                ||| !wait.use_compacted_logs && next == (AwaitLogsView {
                    use_compacted_logs: true,
                    ..wait
                })
            },
            _ => true,
        },
{
}

/// What the services reply to the calls of a run. A log is asked for at most once
/// in each form, so that the place of its input among those with something left to
/// read, and the request, tell the replies apart.
#[verifier::reject_recursive_types(P)]
pub ghost struct Replies<P: Payloads> {
    pub database: spec_fn(DatabaseLookup<P>) -> Result<Option<Seq<char>>, P::Failure>,
    pub logs: spec_fn(int, LogRequestView<P>) -> Result<
        LogFetchOrchestratorResponse<P>,
        P::Failure,
    >,
    pub workflow: spec_fn(WorkflowView<P>) -> Result<
        Option<(FunctionContext<P>, P::RegisterInfo)>,
        P::Failure,
    >,
    pub registration: spec_fn(RegisterView<P>) -> Result<(), P::Failure>,
}

/// The step after `step`.
pub open spec fn next_step<P: Payloads>(step: StepView<P>, replies: Replies<P>) -> StepView<P> {
    match step {
        StepView::LookUpDatabase(lookup, wait) => database_looked_up(
            wait,
            (replies.database)(lookup),
        ),
        StepView::FetchLogs(request, wait) => logs_fetched(
            wait,
            (replies.logs)(wait.collected.len() as int, request),
        ),
        StepView::RunWorkflow(call, wait) => workflow_ran(wait, (replies.workflow)(call)),
        StepView::Register(call, wait) => registered(wait, (replies.registration)(call)),
        StepView::Finished(_) => step,
    }
}

/// How a run ends that is at `step` and gets these replies.
pub open spec fn driven<P: Payloads>(step: StepView<P>, replies: Replies<P>) -> Result<
    CompactionResponse,
    CompactionError<P::Failure>,
>
    decreases calls_left(step),
{
    match step {
        StepView::Finished(end) => end,
        _ => driven(next_step(step, replies), replies),
    }
}

/// The request of a run in database `name` for the log of `input`: with the run's
/// settings, but from where the function has read this collection.
pub open spec fn request_for<P: Payloads>(
    run: RunView<P>,
    name: Seq<char>,
    input: FunctionExecutionInput,
    use_compacted_logs: bool,
) -> LogRequestView<P> {
    LogRequestView {
        context: CompactionContext {
            log_start_offset: Some(input.queue_completion_offset),
            ..run.context
        },
        collection_id: input.collection_id,
        database_name: name,
        use_compacted_logs,
        attached_function_id: run.attached_function_id,
    }
}

/// The data that the log of the input at place `k` of `todo` yields, `None` where
/// the compacted log is to be asked for.
pub open spec fn data_at_first<P: Payloads>(
    run: RunView<P>,
    name: Seq<char>,
    todo: Seq<FunctionExecutionInput>,
    replies: Replies<P>,
    k: int,
) -> Result<Option<FunctionInputCollectionData<P>>, CompactionError<P::Failure>> {
    collection_data::<P>(false, (replies.logs)(k, request_for(run, name, todo[k], false)))
}

/// The data of the input at place `k` of `todo`: of its log, or of its compacted
/// log where that is what the first reply asks for.
pub open spec fn data_of<P: Payloads>(
    run: RunView<P>,
    name: Seq<char>,
    todo: Seq<FunctionExecutionInput>,
    replies: Replies<P>,
    k: int,
) -> Result<FunctionInputCollectionData<P>, CompactionError<P::Failure>> {
    match data_at_first(run, name, todo, replies, k) {
        Ok(Some(data)) => Ok(data),
        Ok(None) => match collection_data::<P>(
            true,
            (replies.logs)(k, request_for(run, name, todo[k], true)),
        ) {
            Ok(data) => Ok(data->0),
            Err(error) => Err(error),
        },
        Err(error) => Err(error),
    }
}

/// The data of the first `count` inputs of `todo`, or the error of the first among
/// them that yields none.
pub open spec fn data_of_all<P: Payloads>(
    run: RunView<P>,
    name: Seq<char>,
    todo: Seq<FunctionExecutionInput>,
    replies: Replies<P>,
    count: nat,
) -> Result<Seq<FunctionInputCollectionData<P>>, CompactionError<P::Failure>>
    decreases count,
{
    if count == 0 {
        Ok(Seq::empty())
    } else {
        match data_of_all(run, name, todo, replies, (count - 1) as nat) {
            Err(error) => Err(error),
            Ok(collected) => match data_of(run, name, todo, replies, count - 1) {
                Err(error) => Err(error),
                Ok(data) => Ok(collected.push(data)),
            },
        }
    }
}

/// The database of a run over `inputs`.
pub open spec fn database_of_run<P: Payloads>(
    run: RunView<P>,
    inputs: Seq<FunctionExecutionInput>,
    replies: Replies<P>,
) -> Result<Seq<char>, CompactionError<P::Failure>> {
    shared_database_name(
        (replies.database)(
            DatabaseLookup { context: run.context, collection_id: inputs[0].collection_id },
        ),
    )
}

/// The data of all inputs with something left to read, or why there is none: the
/// error of the database, else of the first input that yields no data.
pub open spec fn data_of_run<P: Payloads>(
    run: RunView<P>,
    inputs: Seq<FunctionExecutionInput>,
    replies: Replies<P>,
) -> Result<Seq<FunctionInputCollectionData<P>>, CompactionError<P::Failure>> {
    match database_of_run(run, inputs, replies) {
        Err(error) => Err(error),
        Ok(name) => data_of_all(run, name, unread(inputs), replies, unread(inputs).len()),
    }
}

/// The call of a run's function over `collected`.
pub open spec fn function_call<P: Payloads>(
    run: RunView<P>,
    collected: Seq<FunctionInputCollectionData<P>>,
) -> WorkflowView<P> {
    WorkflowView {
        context: run.context,
        input_collection_data: collected,
        is_for_backfill: false,
        attached_function_id: Some(run.attached_function_id),
    }
}

/// The registration of what a run's function left to register.
pub open spec fn registration_of<P: Payloads>(
    run: RunView<P>,
    left: (FunctionContext<P>, P::RegisterInfo),
) -> RegisterView<P> {
    RegisterView {
        context: run.context,
        collections: seq![left.1],
        function_context: Some(left.0),
    }
}

/// How a run over `inputs` ends, told at one go.
pub open spec fn outcome<P: Payloads>(
    run: RunView<P>,
    inputs: Seq<FunctionExecutionInput>,
    replies: Replies<P>,
) -> Result<CompactionResponse, CompactionError<P::Failure>> {
    if inputs.len() == 0 {
        violation("Function execution requires at least one input collection")
    } else {
        match data_of_run(run, inputs, replies) {
            Err(error) => Err(error),
            Ok(collected) => if collected.len() == 0 {
                success(run)
            } else {
                match (replies.workflow)(function_call(run, collected)) {
                    Err(failure) => Err(CompactionError::Service(failure)),
                    Ok(None) => success(run),
                    Ok(Some(left)) => match (replies.registration)(registration_of(run, left)) {
                        Err(failure) => Err(CompactionError::Service(failure)),
                        Ok(_) => success(run),
                    },
                }
            },
        }
    }
}

/// A step at which a run over `inputs` may be that gets these replies. The inputs
/// with something left to read are taken in order, and what has been collected is
/// what the replies for those before yield; the function gets the data of all of
/// them; what it left is registered; and the end is the run's outcome.
pub open spec fn on_course<P: Payloads>(
    step: StepView<P>,
    run: RunView<P>,
    inputs: Seq<FunctionExecutionInput>,
    replies: Replies<P>,
) -> bool {
    match step {
        StepView::LookUpDatabase(lookup, wait) => {
            &&& inputs.len() > 0
            &&& lookup == (DatabaseLookup::<P> {
                context: run.context,
                collection_id: inputs[0].collection_id,
            })
            &&& wait == (AwaitDatabaseView { run, todo: unread(inputs) })
        },
        StepView::FetchLogs(request, wait) => {
            let name = wait.database_name;
            let todo = unread(inputs);
            let taken = wait.collected.len() as int;
            &&& inputs.len() > 0
            &&& wait.run == run
            &&& database_of_run(run, inputs, replies) == Ok::<
                Seq<char>,
                CompactionError<P::Failure>,
            >(name)
            &&& data_of_all(run, name, todo, replies, taken as nat) == Ok::<
                Seq<FunctionInputCollectionData<P>>,
                CompactionError<P::Failure>,
            >(wait.collected)
            &&& taken < todo.len()
            &&& wait.input == todo[taken]
            &&& wait.todo == todo.skip(taken + 1)
            &&& request == request_for(run, name, wait.input, wait.use_compacted_logs)
            &&& wait.use_compacted_logs ==> data_at_first(run, name, todo, replies, taken)
                == Ok::<Option<FunctionInputCollectionData<P>>, CompactionError<P::Failure>>(None)
        },
        StepView::RunWorkflow(call, wait) => {
            &&& inputs.len() > 0
            &&& wait == run
            &&& data_of_run(run, inputs, replies) == Ok::<
                Seq<FunctionInputCollectionData<P>>,
                CompactionError<P::Failure>,
            >(call.input_collection_data)
            &&& call.input_collection_data.len() == unread(inputs).len()
            &&& call.input_collection_data.len() > 0
            &&& call == function_call(run, call.input_collection_data)
        },
        StepView::Register(call, wait) => {
            &&& inputs.len() > 0
            &&& wait == run
            &&& data_of_run(run, inputs, replies) matches Ok(collected)
            &&& collected.len() > 0
            &&& (replies.workflow)(function_call(run, collected)) matches Ok(Some(left))
            &&& call == registration_of(run, left)
        },
        StepView::Finished(end) => end == outcome(run, inputs, replies),
    }
}

/// A run starts on course.
pub proof fn run_starts_on_course<P: Payloads>(
    run: RunView<P>,
    inputs: Seq<FunctionExecutionInput>,
    replies: Replies<P>,
)
    ensures
        on_course(started(run, inputs), run, inputs, replies),
{
}

/// A run on course stays so, whatever the replies.
pub proof fn run_stays_on_course<P: Payloads>(
    step: StepView<P>,
    run: RunView<P>,
    inputs: Seq<FunctionExecutionInput>,
    replies: Replies<P>,
)
    requires
        on_course(step, run, inputs, replies),
    ensures
        on_course(next_step(step, replies), run, inputs, replies),
{
    let todo = unread(inputs);
    match step {
        StepView::LookUpDatabase(_, _) => {
            assert(todo.len() > 0 ==> todo.skip(1) =~= todo.drop_first());
        },
        StepView::FetchLogs(_, wait) => {
            let taken = wait.collected.len() as int;
            if wait.todo.len() > 0 {
                assert(wait.todo[0] == todo[taken + 1]);
                assert(wait.todo.drop_first() =~= todo.skip(taken + 2));
            }
            if data_of(run, wait.database_name, todo, replies, taken) is Err {
                later_data_does_not_mend_an_error(
                    run,
                    wait.database_name,
                    todo,
                    replies,
                    (taken + 1) as nat,
                    todo.len(),
                );
            }
        },
        _ => {},
    }
}

/// A run sets where to read a log from, and nothing else: every call gets the run's
/// settings, but for the log offset of a request for a log, which is what the queue
/// records for that collection.
pub proof fn only_the_log_offset_is_set<P: Payloads>(
    step: StepView<P>,
    run: RunView<P>,
    inputs: Seq<FunctionExecutionInput>,
    replies: Replies<P>,
)
    requires
        on_course(step, run, inputs, replies),
    ensures
        match step {
            StepView::LookUpDatabase(lookup, _) => lookup.context == run.context,
            StepView::FetchLogs(request, wait) => {
                &&& request.context.rest == run.context.rest
                &&& request.context.log_start_offset == Some(wait.input.queue_completion_offset)
            },
            StepView::RunWorkflow(call, _) => call.context == run.context,
            StepView::Register(call, _) => call.context == run.context,
            StepView::Finished(_) => true,
        },
{
}

proof fn later_data_does_not_mend_an_error<P: Payloads>(
    run: RunView<P>,
    name: Seq<char>,
    todo: Seq<FunctionExecutionInput>,
    replies: Replies<P>,
    fewer: nat,
    more: nat,
)
    requires
        fewer <= more,
        data_of_all(run, name, todo, replies, fewer) is Err,
    ensures
        data_of_all(run, name, todo, replies, more) == data_of_all(
            run,
            name,
            todo,
            replies,
            fewer,
        ),
    decreases more - fewer,
{
    if fewer < more {
        later_data_does_not_mend_an_error(run, name, todo, replies, fewer, (more - 1) as nat);
    }
}

proof fn driven_on_course<P: Payloads>(
    step: StepView<P>,
    run: RunView<P>,
    inputs: Seq<FunctionExecutionInput>,
    replies: Replies<P>,
)
    requires
        on_course(step, run, inputs, replies),
    ensures
        driven(step, replies) == outcome(run, inputs, replies),
    decreases calls_left(step),
{
    if !(step is Finished) {
        run_stays_on_course(step, run, inputs, replies);
        driven_on_course(next_step(step, replies), run, inputs, replies);
    }
}

/// Step by step or told at one go, a run makes the same calls and ends the same way:
/// with the error of the database, else with the error of the first input that
/// yields no data, else with what its function, run over the data of all inputs
/// with something left to read, and its registration reply.
pub proof fn run_ends_as_its_replies_say<P: Payloads>(
    run: RunView<P>,
    inputs: Seq<FunctionExecutionInput>,
    replies: Replies<P>,
)
    ensures
        driven(started(run, inputs), replies) == outcome(run, inputs, replies),
{
    run_starts_on_course(run, inputs, replies);
    driven_on_course(started(run, inputs), run, inputs, replies);
}

} // verus!
