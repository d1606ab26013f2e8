//! What a run of an attached function is: its steps as values, and the step that
//! each reply leads to.

use crate::function_execution::{
    at_frontier, CompactionContext, CompactionError, CompactionResponse, DatabaseLookup,
    FunctionContext, FunctionExecutionInput, FunctionInputCollectionData,
    LogFetchOrchestratorResponse, Payloads,
};
use crate::ids::{AttachedFunctionUuid, CollectionUuid, JobId};
use vstd::prelude::*;

verus! {

/// What stays the same through a run.
pub ghost struct RunView<P: Payloads> {
    pub context: CompactionContext<P::ContextRest>,
    pub attached_function_id: AttachedFunctionUuid,
}

/// A request for the log of one input collection.
pub ghost struct LogRequestView<P: Payloads> {
    pub context: CompactionContext<P::ContextRest>,
    pub collection_id: CollectionUuid,
    pub database_name: Seq<char>,
    pub use_compacted_logs: bool,
    pub attached_function_id: AttachedFunctionUuid,
}

/// A call of the function over the data of its input collections.
pub ghost struct WorkflowView<P: Payloads> {
    pub context: CompactionContext<P::ContextRest>,
    pub input_collection_data: Seq<FunctionInputCollectionData<P>>,
    pub is_for_backfill: bool,
    pub attached_function_id: Option<AttachedFunctionUuid>,
}

/// A registration of what the function did.
pub ghost struct RegisterView<P: Payloads> {
    pub context: CompactionContext<P::ContextRest>,
    pub collections: Seq<P::RegisterInfo>,
    pub function_context: Option<FunctionContext<P>>,
}

/// A run that waits for its database; `todo` are the inputs to read.
pub ghost struct AwaitDatabaseView<P: Payloads> {
    pub run: RunView<P>,
    pub todo: Seq<FunctionExecutionInput>,
}

/// A run that waits for the log of `input`; `todo` are the inputs to read after it,
/// `collected` is the data of those before it.
pub ghost struct AwaitLogsView<P: Payloads> {
    pub run: RunView<P>,
    pub database_name: Seq<char>,
    pub input: FunctionExecutionInput,
    pub use_compacted_logs: bool,
    pub todo: Seq<FunctionExecutionInput>,
    pub collected: Seq<FunctionInputCollectionData<P>>,
}

/// A step of a run: a call and the run that waits for the reply, or the end.
pub ghost enum StepView<P: Payloads> {
    LookUpDatabase(DatabaseLookup<P>, AwaitDatabaseView<P>),
    FetchLogs(LogRequestView<P>, AwaitLogsView<P>),
    RunWorkflow(WorkflowView<P>, RunView<P>),
    Register(RegisterView<P>, RunView<P>),
    Finished(Result<CompactionResponse, CompactionError<P::Failure>>),
}

/// The inputs whose frontier has not been reached.
pub open spec fn unread(inputs: Seq<FunctionExecutionInput>) -> Seq<FunctionExecutionInput> {
    inputs.filter(
        |input: FunctionExecutionInput|
            !at_frontier(
                input.queue_completion_offset as int,
                input.queue_compaction_offset as int,
            ),
    )
}

/// The end of a run that met no failure.
pub open spec fn success<P: Payloads>(run: RunView<P>) -> Result<
    CompactionResponse,
    CompactionError<P::Failure>,
> {
    Ok(CompactionResponse::Success { job_id: JobId(run.attached_function_id.0) })
}

/// The end of a run in which `what` does not hold.
pub open spec fn violation<T, E>(what: &'static str) -> Result<T, CompactionError<E>> {
    Err(CompactionError::InvariantViolation(what))
}

/// The request for the log that a run waits for: with the run's settings, but from
/// where the queue says that the function has read this collection.
pub open spec fn log_request<P: Payloads>(wait: AwaitLogsView<P>) -> LogRequestView<P> {
    LogRequestView {
        context: CompactionContext {
            log_start_offset: Some(wait.input.queue_completion_offset),
            ..wait.run.context
        },
        collection_id: wait.input.collection_id,
        database_name: wait.database_name,
        use_compacted_logs: wait.use_compacted_logs,
        attached_function_id: wait.run.attached_function_id,
    }
}

/// The first step of a run over `inputs`.
pub open spec fn started<P: Payloads>(
    run: RunView<P>,
    inputs: Seq<FunctionExecutionInput>,
) -> StepView<P> {
    if inputs.len() == 0 {
        StepView::Finished(violation("Function execution requires at least one input collection"))
    } else {
        StepView::LookUpDatabase(
            DatabaseLookup { context: run.context, collection_id: inputs[0].collection_id },
            AwaitDatabaseView { run, todo: unread(inputs) },
        )
    }
}

/// The step after the data of some inputs has been collected and `todo` remain.
pub open spec fn proceeded<P: Payloads>(
    run: RunView<P>,
    database_name: Seq<char>,
    todo: Seq<FunctionExecutionInput>,
    collected: Seq<FunctionInputCollectionData<P>>,
) -> StepView<P> {
    if todo.len() > 0 {
        let wait = AwaitLogsView {
            run,
            database_name,
            input: todo[0],
            use_compacted_logs: false,
            todo: todo.drop_first(),
            collected,
        };
        StepView::FetchLogs(log_request(wait), wait)
    } else if collected.len() == 0 {
        StepView::Finished(success(run))
    } else {
        StepView::RunWorkflow(
            WorkflowView {
                context: run.context,
                input_collection_data: collected,
                is_for_backfill: false,
                attached_function_id: Some(run.attached_function_id),
            },
            run,
        )
    }
}

/// The database of a run, out of what was found under its first collection: a name
/// that is fit for a database, another name, or a failure.
pub open spec fn shared_database_name<E>(found: Result<Option<Seq<char>>, E>) -> Result<
    Seq<char>,
    CompactionError<E>,
> {
    match found {
        Ok(Some(name)) => Ok(name),
        Ok(None) => violation("Invalid function input collection database name"),
        Err(_) => violation("Failed to resolve function input collection database"),
    }
}

/// The step after the database was looked up.
pub open spec fn database_looked_up<P: Payloads>(
    wait: AwaitDatabaseView<P>,
    found: Result<Option<Seq<char>>, P::Failure>,
) -> StepView<P> {
    match shared_database_name(found) {
        Ok(name) => proceeded(wait.run, name, wait.todo, Seq::empty()),
        Err(error) => StepView::Finished(Err(error)),
    }
}

/// The data of an input collection out of a reply, `None` where the compacted log
/// is to be asked for. A compacted log is not asked for twice.
pub open spec fn collection_data<P: Payloads>(
    use_compacted_logs: bool,
    reply: Result<LogFetchOrchestratorResponse<P>, P::Failure>,
) -> Result<Option<FunctionInputCollectionData<P>>, CompactionError<P::Failure>> {
    match reply {
        Err(failure) => Err(CompactionError::Service(failure)),
        Ok(LogFetchOrchestratorResponse::Success(log)) => Ok(
            Some(
                FunctionInputCollectionData {
                    collection_info: log.collection_info,
                    materialized_log_data: log.materialized,
                    resolved_attached_functions: log.resolved_attached_functions,
                },
            ),
        ),
        Ok(_) if use_compacted_logs => violation(
            "Function execution backfill fetch should only return success",
        ),
        Ok(LogFetchOrchestratorResponse::RequireFunctionBackfill) => Ok(None),
        Ok(LogFetchOrchestratorResponse::RequireCompactionOffsetRepair) => violation(
            "Function execution does not support compaction offset repair",
        ),
    }
}

/// The step after a log was fetched.
pub open spec fn logs_fetched<P: Payloads>(
    wait: AwaitLogsView<P>,
    reply: Result<LogFetchOrchestratorResponse<P>, P::Failure>,
) -> StepView<P> {
    match collection_data(wait.use_compacted_logs, reply) {
        Err(error) => StepView::Finished(Err(error)),
        Ok(Some(data)) => proceeded(
            wait.run,
            wait.database_name,
            wait.todo,
            wait.collected.push(data),
        ),
        Ok(None) => {
            let again = AwaitLogsView { use_compacted_logs: true, ..wait };
            StepView::FetchLogs(log_request(again), again)
        },
    }
}

/// The step after the function ran.
pub open spec fn workflow_ran<P: Payloads>(
    run: RunView<P>,
    reply: Result<Option<(FunctionContext<P>, P::RegisterInfo)>, P::Failure>,
) -> StepView<P> {
    match reply {
        Err(failure) => StepView::Finished(Err(CompactionError::Service(failure))),
        Ok(None) => StepView::Finished(success(run)),
        Ok(Some((function_context, register_info))) => StepView::Register(
            RegisterView {
                context: run.context,
                collections: seq![register_info],
                function_context: Some(function_context),
            },
            run,
        ),
    }
}

/// The step after the outcome was registered.
pub open spec fn registered<P: Payloads>(
    run: RunView<P>,
    reply: Result<(), P::Failure>,
) -> StepView<P> {
    match reply {
        Err(failure) => StepView::Finished(Err(CompactionError::Service(failure))),
        Ok(_) => StepView::Finished(success(run)),
    }
}

} // verus!
