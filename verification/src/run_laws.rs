//! What a run asks of the services and what it makes of each reply, said of the
//! requests and the replies themselves.

use crate::execution_laws::{
    data_of, data_of_all, next_step, on_course, request_for, run_starts_on_course,
    run_stays_on_course, Replies,
};
use crate::execution_model::{
    collection_data, database_looked_up, logs_fetched, registered, shared_database_name, started,
    unread, workflow_ran, AwaitDatabaseView, AwaitLogsView, RunView, StepView,
};
use crate::function_execution::{
    at_frontier, found_view, CompactionError, CompactionResponse, DatabaseLookup, DatabaseName,
    FunctionContext, FunctionExecutionInput, FunctionExecutionStep, FunctionInputCollectionData,
    LogFetchOrchestratorResponse, LogFetchRequest, LogFetchSuccess, Payloads, RegisterCall,
    WorkflowCall,
};
use crate::ids::{AttachedFunctionUuid, JobId};
use vstd::prelude::*;

verus! {

/// A positive frontier is reached exactly by what has been read up to it or past it:
/// short of it by however little it is not. A frontier of zero or below is never
/// reached.
pub proof fn frontier_is_reached_by_coming_up_to_it(completion: i64, compaction: i64)
    ensures
        completion < compaction ==> !at_frontier(completion as int, compaction as int),
        compaction > 0 && completion >= compaction ==> at_frontier(
            completion as int,
            compaction as int,
        ),
        compaction <= 0 ==> !at_frontier(completion as int, compaction as int),
{
}

/// Which inputs are to be read is settled one by one, and their order is kept: an
/// input is passed over exactly where its queue has a frontier and it has been read up
/// to it.
pub proof fn inputs_are_passed_over_one_by_one(
    inputs: Seq<FunctionExecutionInput>,
    more: Seq<FunctionExecutionInput>,
    input: FunctionExecutionInput,
)
    ensures
        unread(Seq::empty()) == Seq::<FunctionExecutionInput>::empty(),
        unread(inputs + more) == unread(inputs) + unread(more),
        unread(seq![input]) == (if input.queue_compaction_offset > 0
            && input.queue_completion_offset >= input.queue_compaction_offset {
            Seq::empty()
        } else {
            seq![input]
        }),
{
    reveal(Seq::filter);
    let pred = |input: FunctionExecutionInput|
        !at_frontier(
            input.queue_completion_offset as int,
            input.queue_compaction_offset as int,
        );
    Seq::filter_distributes_over_add(inputs, more, pred);
    assert(seq![input].drop_last() =~= Seq::<FunctionExecutionInput>::empty());
    assert(seq![input].drop_last().filter(pred) =~= Seq::<FunctionExecutionInput>::empty());
    assert(seq![input].filter(pred) =~= if pred(input) {
        seq![input]
    } else {
        Seq::empty()
    });
}

/// What is to be read was among the inputs and has something left to read.
pub proof fn only_inputs_with_something_left_are_read(
    inputs: Seq<FunctionExecutionInput>,
    input: FunctionExecutionInput,
)
    requires
        unread(inputs).contains(input),
    ensures
        inputs.contains(input),
        input.queue_compaction_offset <= 0 || input.queue_completion_offset
            < input.queue_compaction_offset,
    decreases inputs.len(),
{
    if inputs.len() == 0 {
        inputs_are_passed_over_one_by_one(inputs, inputs, input);
        assert(inputs =~= Seq::empty());
    } else {
        let first = seq![inputs[0]];
        let others = inputs.drop_first();
        assert(inputs =~= first + others);
        inputs_are_passed_over_one_by_one(first, others, inputs[0]);
        let at = choose|at: int| 0 <= at < unread(inputs).len() && unread(inputs)[at] == input;
        if at < unread(first).len() {
            assert(inputs[0] == input);
        } else {
            assert(unread(others)[at - unread(first).len()] == input);
            only_inputs_with_something_left_are_read(others, input);
            let place = choose|place: int| 0 <= place < others.len() && others[place] == input;
            assert(inputs[place + 1] == input);
        }
    }
}

/// A run looks up the database of its first collection, with the settings that it was
/// given, whether or not there is anything left to read there.
pub proof fn run_looks_up_its_first_collection<P: Payloads>(
    run: RunView<P>,
    inputs: Seq<FunctionExecutionInput>,
)
    requires
        inputs.len() > 0,
    ensures
        started(run, inputs) matches StepView::LookUpDatabase(lookup, wait) && lookup.context
            == run.context && lookup.collection_id == inputs[0].collection_id && wait.run == run
            && wait.todo == unread(inputs),
{
}

/// A run without inputs fails at once.
pub proof fn run_needs_an_input<P: Payloads>(run: RunView<P>)
    ensures
        started(run, Seq::empty()) == StepView::<P>::Finished(
            Err(
                CompactionError::InvariantViolation(
                    "Function execution requires at least one input collection",
                ),
            ),
        ),
{
}

/// The name that was found is the database, character by character. A name that is
/// not fit for a database, and a failed lookup, each have an error of their own, and
/// the lookup's own failure is not passed on.
pub proof fn found_name_is_the_database<E>(name: DatabaseName, failure: E)
    ensures
        shared_database_name(found_view(Ok::<Option<DatabaseName>, E>(Some(name)))) == Ok::<
            Seq<char>,
            CompactionError<E>,
        >(name.0@),
        shared_database_name(found_view(Ok::<Option<DatabaseName>, E>(None))) == Err::<
            Seq<char>,
            CompactionError<E>,
        >(CompactionError::InvariantViolation("Invalid function input collection database name")),
        shared_database_name(found_view(Err::<Option<DatabaseName>, E>(failure))) == Err::<
            Seq<char>,
            CompactionError<E>,
        >(
            CompactionError::InvariantViolation(
                "Failed to resolve function input collection database",
            ),
        ),
{
}

/// With its database found, a run asks for the log of the first input to read, in that
/// very database, from where the function has read the collection, not compacted, and
/// has collected nothing yet; with nothing to read it is done.
pub proof fn run_reads_in_the_database_found<P: Payloads>(
    wait: AwaitDatabaseView<P>,
    name: Seq<char>,
)
    ensures
        wait.todo.len() == 0 ==> database_looked_up(wait, Ok(Some(name)))
            == StepView::<P>::Finished(
            Ok(
                CompactionResponse::Success {
                    job_id: JobId(wait.run.attached_function_id.0),
                },
            ),
        ),
        wait.todo.len() > 0 ==> {
            &&& database_looked_up(wait, Ok(Some(name))) matches StepView::FetchLogs(request, next)
            &&& request.database_name == name
            &&& request.collection_id == wait.todo[0].collection_id
            &&& request.context.log_start_offset == Some(wait.todo[0].queue_completion_offset)
            &&& request.context.rest == wait.run.context.rest
            &&& !request.use_compacted_logs
            &&& request.attached_function_id == wait.run.attached_function_id
            &&& next.run == wait.run
            &&& next.database_name == name
            &&& next.input == wait.todo[0]
            &&& !next.use_compacted_logs
            &&& next.todo == wait.todo.skip(1)
            &&& next.collected == Seq::<FunctionInputCollectionData<P>>::empty()
        },
{
    if wait.todo.len() > 0 {
        assert(wait.todo.skip(1) =~= wait.todo.drop_first());
    }
}

/// A run whose database was not found, or has no fit name, fails.
pub proof fn run_without_a_database_fails<P: Payloads>(
    wait: AwaitDatabaseView<P>,
    failure: P::Failure,
)
    ensures
        database_looked_up(wait, Ok(None)) == StepView::<P>::Finished(
            Err(
                CompactionError::InvariantViolation(
                    "Invalid function input collection database name",
                ),
            ),
        ),
        database_looked_up(wait, Err(failure)) == StepView::<P>::Finished(
            Err(
                CompactionError::InvariantViolation(
                    "Failed to resolve function input collection database",
                ),
            ),
        ),
{
}

/// A log that came is the data of its collection, in full, whichever log was asked for
/// and however much it holds.
pub proof fn log_that_came_is_the_data<P: Payloads>(
    use_compacted_logs: bool,
    log: LogFetchSuccess<P>,
)
    ensures
        collection_data::<P>(
            use_compacted_logs,
            Ok(LogFetchOrchestratorResponse::Success(log)),
        ) matches Ok(Some(data)) && data.collection_info == log.collection_info
            && data.materialized_log_data == log.materialized && data.resolved_attached_functions
            == log.resolved_attached_functions,
{
}

/// A compacted log is asked for exactly where the reply to the first request says that
/// one is needed. There is data exactly where a log came; and a service's own failure
/// is passed on.
pub proof fn compacted_log_is_asked_for_where_it_is_needed<P: Payloads>(
    use_compacted_logs: bool,
    reply: Result<LogFetchOrchestratorResponse<P>, P::Failure>,
)
    ensures
        collection_data::<P>(use_compacted_logs, reply) matches Ok(None) <==> !use_compacted_logs
            && (reply matches Ok(LogFetchOrchestratorResponse::RequireFunctionBackfill)),
        collection_data::<P>(use_compacted_logs, reply) matches Ok(Some(_)) <==> (
        reply matches Ok(LogFetchOrchestratorResponse::Success(_))),
        reply matches Err(failure) ==> collection_data::<P>(use_compacted_logs, reply) == Err::<
            Option<FunctionInputCollectionData<P>>,
            CompactionError<P::Failure>,
        >(CompactionError::Service(failure)),
        collection_data::<P>(use_compacted_logs, reply) matches Err(
            CompactionError::Service(passed_on),
        ) ==> reply == Err::<LogFetchOrchestratorResponse<P>, P::Failure>(passed_on),
        use_compacted_logs && reply is Ok && !(reply->Ok_0 is Success) ==> collection_data::<P>(
            use_compacted_logs,
            reply,
        ) == Err::<Option<FunctionInputCollectionData<P>>, CompactionError<P::Failure>>(
            CompactionError::InvariantViolation(
                "Function execution backfill fetch should only return success",
            ),
        ),
        !use_compacted_logs && reply is Ok && reply->Ok_0 is RequireCompactionOffsetRepair
            ==> collection_data::<P>(use_compacted_logs, reply) == Err::<
            Option<FunctionInputCollectionData<P>>,
            CompactionError<P::Failure>,
        >(
            CompactionError::InvariantViolation(
                "Function execution does not support compaction offset repair",
            ),
        ),
{
}

/// With a log that came, a run goes on to the next input in the same database, with
/// the log's data added behind what it has; after the last input it calls the function
/// over all of it, in order, and not as a backfill.
pub proof fn run_collects_each_log_that_came<P: Payloads>(
    wait: AwaitLogsView<P>,
    log: LogFetchSuccess<P>,
)
    ensures
        match logs_fetched(wait, Ok(LogFetchOrchestratorResponse::Success(log))) {
            StepView::FetchLogs(request, next) => {
                &&& wait.todo.len() > 0
                &&& request.database_name == wait.database_name
                &&& request.collection_id == wait.todo[0].collection_id
                &&& request.context.log_start_offset == Some(wait.todo[0].queue_completion_offset)
                &&& request.context.rest == wait.run.context.rest
                &&& !request.use_compacted_logs
                &&& request.attached_function_id == wait.run.attached_function_id
                &&& next.run == wait.run
                &&& next.database_name == wait.database_name
                &&& next.input == wait.todo[0]
                &&& !next.use_compacted_logs
                &&& next.todo == wait.todo.skip(1)
                &&& next.collected.drop_last() == wait.collected
                &&& next.collected.len() == wait.collected.len() + 1
                &&& next.collected.last().collection_info == log.collection_info
                &&& next.collected.last().materialized_log_data == log.materialized
                &&& next.collected.last().resolved_attached_functions
                    == log.resolved_attached_functions
            },
            StepView::RunWorkflow(call, run) => {
                let data = call.input_collection_data;
                &&& wait.todo.len() == 0
                &&& run == wait.run
                &&& call.context == wait.run.context
                &&& !call.is_for_backfill
                &&& call.attached_function_id == Some(wait.run.attached_function_id)
                &&& data.drop_last() == wait.collected
                &&& data.len() == wait.collected.len() + 1
                &&& data.last().collection_info == log.collection_info
                &&& data.last().materialized_log_data == log.materialized
                &&& data.last().resolved_attached_functions == log.resolved_attached_functions
            },
            _ => false,
        },
{
    if wait.todo.len() > 0 {
        assert(wait.todo.skip(1) =~= wait.todo.drop_first());
    }
    match logs_fetched(wait, Ok(LogFetchOrchestratorResponse::Success(log))) {
        StepView::FetchLogs(_, next) => {
            assert(next.collected.drop_last() =~= wait.collected);
        },
        StepView::RunWorkflow(call, _) => {
            assert(call.input_collection_data.drop_last() =~= wait.collected);
        },
        _ => {},
    }
}

/// Where a compacted log is needed, a run asks for the log of the same collection
/// again, in the same database and from the same place, but compacted, and loses
/// nothing of what it has.
pub proof fn run_asks_again_for_the_compacted_log<P: Payloads>(wait: AwaitLogsView<P>)
    requires
        !wait.use_compacted_logs,
    ensures
        logs_fetched(
            wait,
            Ok(LogFetchOrchestratorResponse::RequireFunctionBackfill),
        ) matches StepView::FetchLogs(request, next) && {
            &&& request.use_compacted_logs
            &&& request.database_name == wait.database_name
            &&& request.collection_id == wait.input.collection_id
            &&& request.context.log_start_offset == Some(wait.input.queue_completion_offset)
            &&& request.context.rest == wait.run.context.rest
            &&& request.attached_function_id == wait.run.attached_function_id
            &&& next.use_compacted_logs
            &&& next.run == wait.run
            &&& next.database_name == wait.database_name
            &&& next.input == wait.input
            &&& next.todo == wait.todo
            &&& next.collected == wait.collected
        },
{
}

/// A run ends where a log could not be had, and no other call is made.
pub proof fn run_ends_where_a_log_cannot_be_had<P: Payloads>(
    wait: AwaitLogsView<P>,
    failure: P::Failure,
)
    ensures
        logs_fetched(wait, Err(failure)) == StepView::<P>::Finished(
            Err(CompactionError::Service(failure)),
        ),
        logs_fetched(
            wait,
            Ok(LogFetchOrchestratorResponse::RequireCompactionOffsetRepair),
        ) == StepView::<P>::Finished(
            Err(
                CompactionError::InvariantViolation(
                    if wait.use_compacted_logs {
                        "Function execution backfill fetch should only return success"
                    } else {
                        "Function execution does not support compaction offset repair"
                    },
                ),
            ),
        ),
        wait.use_compacted_logs ==> logs_fetched(
            wait,
            Ok(LogFetchOrchestratorResponse::RequireFunctionBackfill),
        ) == StepView::<P>::Finished(
            Err(
                CompactionError::InvariantViolation(
                    "Function execution backfill fetch should only return success",
                ),
            ),
        ),
{
}

/// What the function left to register is registered, that and nothing else, with the
/// run's settings; a function that left nothing ends the run in success, and one that
/// failed ends it with the failure.
pub proof fn run_registers_what_the_function_left<P: Payloads>(
    run: RunView<P>,
    context: FunctionContext<P>,
    info: P::RegisterInfo,
    failure: P::Failure,
)
    ensures
        workflow_ran(run, Ok(Some((context, info)))) matches StepView::Register(call, next) && {
            &&& next == run
            &&& call.context == run.context
            &&& call.collections.len() == 1
            &&& call.collections[0] == info
            &&& call.function_context == Some(context)
        },
        workflow_ran(run, Ok(None)) == StepView::<P>::Finished(
            Ok(CompactionResponse::Success { job_id: JobId(run.attached_function_id.0) }),
        ),
        workflow_ran(run, Err(failure)) == StepView::<P>::Finished(
            Err(CompactionError::Service(failure)),
        ),
{
}

/// A registration that went through ends the run in success, under the function's id;
/// one that failed ends it with the failure.
pub proof fn run_ends_with_its_registration<P: Payloads>(run: RunView<P>, failure: P::Failure)
    ensures
        registered(run, Ok(())) == StepView::<P>::Finished(
            Ok(CompactionResponse::Success { job_id: JobId(run.attached_function_id.0) }),
        ),
        registered(run, Err(failure)) == StepView::<P>::Finished(
            Err(CompactionError::Service(failure)),
        ),
{
}

/// A job goes under the id of the function that it runs.
pub proof fn job_goes_under_its_function(id: AttachedFunctionUuid)
    ensures
        <JobId as vstd::std_specs::convert::FromSpec<AttachedFunctionUuid>>::from_spec(id).0
            == id.0,
{
}

/// Where a run is after `replied` replies.
pub open spec fn step_after<P: Payloads>(
    run: RunView<P>,
    inputs: Seq<FunctionExecutionInput>,
    replies: Replies<P>,
    replied: nat,
) -> StepView<P>
    decreases replied,
{
    if replied == 0 {
        started(run, inputs)
    } else {
        next_step(step_after(run, inputs, replies, (replied - 1) as nat), replies)
    }
}

proof fn every_step_is_on_course<P: Payloads>(
    run: RunView<P>,
    inputs: Seq<FunctionExecutionInput>,
    replies: Replies<P>,
    replied: nat,
)
    ensures
        on_course(step_after(run, inputs, replies, replied), run, inputs, replies),
    decreases replied,
{
    if replied == 0 {
        run_starts_on_course(run, inputs, replies);
    } else {
        let before = (replied - 1) as nat;
        every_step_is_on_course(run, inputs, replies, before);
        run_stays_on_course(step_after(run, inputs, replies, before), run, inputs, replies);
    }
}

/// Every log request of a run, the first and all later ones, compacted or not, names
/// the database that was found under the first collection; it is for a collection
/// among the inputs that has something left to read, from where the queue says, for
/// the run's function and with the run's other settings.
pub proof fn every_log_request_names_the_database_found<P: Payloads>(
    run: RunView<P>,
    inputs: Seq<FunctionExecutionInput>,
    replies: Replies<P>,
    replied: nat,
)
    ensures
        step_after(run, inputs, replies, replied) matches StepView::FetchLogs(request, wait) ==> {
            let first = DatabaseLookup::<P> {
                context: run.context,
                collection_id: inputs[0].collection_id,
            };
            &&& inputs.len() > 0
            &&& (replies.database)(first) == Ok::<Option<Seq<char>>, P::Failure>(
                Some(request.database_name),
            )
            &&& inputs.contains(wait.input)
            &&& request.collection_id == wait.input.collection_id
            &&& request.context.log_start_offset == Some(wait.input.queue_completion_offset)
            &&& request.context.rest == run.context.rest
            &&& request.attached_function_id == run.attached_function_id
            &&& wait.input.queue_compaction_offset <= 0 || wait.input.queue_completion_offset
                < wait.input.queue_compaction_offset
        },
{
    every_step_is_on_course(run, inputs, replies, replied);
    if let StepView::FetchLogs(_, wait) = step_after(run, inputs, replies, replied) {
        assert(unread(inputs).contains(wait.input));
        only_inputs_with_something_left_are_read(inputs, wait.input);
    }
}

/// What the log service replied of the input at place `k` of `todo`, after the
/// compacted log was asked for where that was needed.
pub open spec fn log_reply<P: Payloads>(
    run: RunView<P>,
    name: Seq<char>,
    todo: Seq<FunctionExecutionInput>,
    replies: Replies<P>,
    k: int,
) -> Result<LogFetchOrchestratorResponse<P>, P::Failure> {
    match (replies.logs)(k, request_for(run, name, todo[k], false)) {
        Ok(LogFetchOrchestratorResponse::RequireFunctionBackfill) => (replies.logs)(
            k,
            request_for(run, name, todo[k], true),
        ),
        reply => reply,
    }
}

proof fn collected_data_is_that_of_the_logs<P: Payloads>(
    run: RunView<P>,
    name: Seq<char>,
    todo: Seq<FunctionExecutionInput>,
    replies: Replies<P>,
    count: nat,
    k: int,
)
    requires
        data_of_all(run, name, todo, replies, count) is Ok,
        0 <= k < count,
    ensures
        data_of_all(run, name, todo, replies, count)->Ok_0.len() == count,
        log_reply(run, name, todo, replies, k) matches Ok(
            LogFetchOrchestratorResponse::Success(log),
        ) && {
            let data = data_of_all(run, name, todo, replies, count)->Ok_0[k];
            &&& data.collection_info == log.collection_info
            &&& data.materialized_log_data == log.materialized
            &&& data.resolved_attached_functions == log.resolved_attached_functions
        },
    decreases count,
{
    let before = (count - 1) as nat;
    if before > 0 {
        collected_data_is_that_of_the_logs(
            run,
            name,
            todo,
            replies,
            before,
            if k < before {
                k
            } else {
                0
            },
        );
    } else {
        assert(data_of_all(run, name, todo, replies, before)->Ok_0.len() == 0);
    }
    if k == before {
        assert(data_of(run, name, todo, replies, k) is Ok);
    }
}

/// The function is called over the logs of all inputs with something left to read, one
/// for each and in their order: each as the log service gave it, at first or, where it
/// said that a compacted log is needed, when asked for that one.
pub proof fn function_gets_the_log_of_every_input<P: Payloads>(
    run: RunView<P>,
    inputs: Seq<FunctionExecutionInput>,
    replies: Replies<P>,
    replied: nat,
    name: Seq<char>,
    k: int,
)
    requires
        step_after(run, inputs, replies, replied) is RunWorkflow,
        (replies.database)(
            DatabaseLookup::<P> { context: run.context, collection_id: inputs[0].collection_id },
        ) == Ok::<Option<Seq<char>>, P::Failure>(Some(name)),
        0 <= k < unread(inputs).len(),
    ensures
        step_after(run, inputs, replies, replied) matches StepView::RunWorkflow(call, _) && {
            let data = call.input_collection_data;
            &&& data.len() == unread(inputs).len()
            &&& log_reply(run, name, unread(inputs), replies, k) matches Ok(
                LogFetchOrchestratorResponse::Success(log),
            )
            &&& data[k].collection_info == log.collection_info
            &&& data[k].materialized_log_data == log.materialized
            &&& data[k].resolved_attached_functions == log.resolved_attached_functions
        },
{
    every_step_is_on_course(run, inputs, replies, replied);
    let todo = unread(inputs);
    collected_data_is_that_of_the_logs(run, name, todo, replies, todo.len(), k);
}

/// Requests and calls are seen as they are, to the last field.
pub proof fn calls_are_seen_as_they_are<P: Payloads>(
    request: LogFetchRequest<P>,
    call: WorkflowCall<P>,
    registration: RegisterCall<P>,
)
    ensures
        request@.context == request.context,
        request@.collection_id == request.collection_id,
        request@.database_name == request.database_name.0@,
        request@.use_compacted_logs == request.use_compacted_logs,
        request@.attached_function_id == request.attached_function_id,
        call@.context == call.context,
        call@.input_collection_data == call.input_collection_data@,
        call@.is_for_backfill == call.is_for_backfill,
        call@.attached_function_id == call.attached_function_id,
        registration@.context == registration.context,
        registration@.collections == registration.collections@,
        registration@.function_context == registration.function_context,
{
}

/// Steps are seen as they are: the call that a step makes is the one that it carries.
pub proof fn steps_are_seen_as_they_are<P: Payloads>(step: FunctionExecutionStep<P>)
    ensures
        match step {
            FunctionExecutionStep::LookUpDatabase(lookup, wait) => step@
                == StepView::LookUpDatabase(lookup, wait@),
            FunctionExecutionStep::FetchLogs(request, wait) => step@ == StepView::FetchLogs(
                request@,
                wait@,
            ),
            FunctionExecutionStep::RunWorkflow(call, wait) => step@ == StepView::RunWorkflow(
                call@,
                wait@,
            ),
            FunctionExecutionStep::Register(call, wait) => step@ == StepView::Register(
                call@,
                wait@,
            ),
            FunctionExecutionStep::Finished(end) => step@ == StepView::<P>::Finished(end),
        },
{
}

} // verus!
