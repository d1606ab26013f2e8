//! The execution of an attached function over its input collections.
//!
//! A run alternates between the services of a worker and decisions. The decisions
//! stand here: `FunctionExecutionContext::run` gives the first step, and each step
//! but the last names a call to make and takes the reply to the next step.

use crate::execution_model::{
    collection_data, database_looked_up, log_request, logs_fetched, proceeded, registered,
    shared_database_name, started, unread, violation, workflow_ran, AwaitDatabaseView,
    AwaitLogsView, LogRequestView, RegisterView, RunView, StepView, WorkflowView,
};
use crate::ids::{AttachedFunctionUuid, CollectionUuid, JobId};
use std::collections::VecDeque;
use uuid::Uuid;
use vstd::prelude::*;

verus! {

/// What a worker's services hand to each other through a run, and which a run
/// carries without reading it.
pub trait Payloads {
    /// What compaction knows of a collection.
    type CollectionInfo;

    /// Materialized log records.
    type MaterializedLog;

    /// A function attached to collections.
    type AttachedFunction;

    /// What registers the outcome for a collection.
    type RegisterInfo;

    /// The settings and services of a compaction that a run does not set. A run
    /// hands them to every call it makes, so they are held by a copyable handle,
    /// such as a reference.
    type ContextRest: Copy;

    /// The failure of a service.
    type Failure;
}

/// A collection that a function reads, with the progress that the work queue
/// records for the two.
#[derive(Debug)]
pub struct FunctionExecutionInput {
    pub collection_id: CollectionUuid,
    /// Up to where the function has read the collection.
    pub queue_completion_offset: i64,
    /// Up to where the queue wants it read.
    pub queue_compaction_offset: i64,
}

impl Clone for FunctionExecutionInput {
    fn clone(&self) -> (copy: Self)
        ensures
            copy == *self,
    {
        FunctionExecutionInput {
            collection_id: self.collection_id,
            queue_completion_offset: self.queue_completion_offset,
            queue_compaction_offset: self.queue_compaction_offset,
        }
    }
}

/// What a function gets of one input collection.
#[derive(Debug)]
pub struct FunctionInputCollectionData<P: Payloads> {
    pub collection_info: P::CollectionInfo,
    pub materialized_log_data: Vec<P::MaterializedLog>,
    pub resolved_attached_functions: Vec<P::AttachedFunction>,
}

impl<P: Payloads> Clone for FunctionInputCollectionData<P> where
    P::CollectionInfo: Clone,
    P::MaterializedLog: Clone,
    P::AttachedFunction: Clone,
 {
    fn clone(&self) -> (copy: Self)
        ensures
            cloned(self.collection_info, copy.collection_info),
            copy.materialized_log_data@.len() == self.materialized_log_data@.len(),
            forall|i: int|
                0 <= i < self.materialized_log_data@.len() ==> cloned(
                    #[trigger] self.materialized_log_data@[i],
                    copy.materialized_log_data@[i],
                ),
            copy.resolved_attached_functions@.len() == self.resolved_attached_functions@.len(),
            forall|i: int|
                0 <= i < self.resolved_attached_functions@.len() ==> cloned(
                    #[trigger] self.resolved_attached_functions@[i],
                    copy.resolved_attached_functions@[i],
                ),
    {
        FunctionInputCollectionData {
            collection_info: self.collection_info.clone(),
            materialized_log_data: self.materialized_log_data.clone(),
            resolved_attached_functions: self.resolved_attached_functions.clone(),
        }
    }
}

/// How far a function has read one input collection.
#[derive(Debug)]
pub struct FunctionExecutionProgress {
    pub input_collection_id: CollectionUuid,
    pub updated_completion_offset: u64,
}

impl Clone for FunctionExecutionProgress {
    fn clone(&self) -> (copy: Self)
        ensures
            copy == *self,
    {
        FunctionExecutionProgress {
            input_collection_id: self.input_collection_id,
            updated_completion_offset: self.updated_completion_offset,
        }
    }
}

/// What is registered of a function after it ran.
#[derive(Debug)]
pub struct FunctionContext<P: Payloads> {
    pub attached_function_id: AttachedFunctionUuid,
    pub function_id: Uuid,
    pub input_progress: Vec<FunctionExecutionProgress>,
    pub is_async: bool,
    pub attached_function: P::AttachedFunction,
}

impl<P: Payloads> Clone for FunctionContext<P> where P::AttachedFunction: Clone {
    fn clone(&self) -> (copy: Self)
        ensures
            copy.attached_function_id == self.attached_function_id,
            copy.function_id == self.function_id,
            copy.input_progress@ == self.input_progress@,
            copy.is_async == self.is_async,
            cloned(self.attached_function, copy.attached_function),
    {
        let input_progress = self.input_progress.clone();
        assert(input_progress@ =~= self.input_progress@);
        FunctionContext {
            attached_function_id: self.attached_function_id,
            function_id: self.function_id,
            input_progress,
            is_async: self.is_async,
            attached_function: self.attached_function.clone(),
        }
    }
}

/// The name of a database that was accepted as such.
#[derive(Debug)]
pub struct DatabaseName(pub String);

/// The settings of a compaction.
#[derive(Debug)]
pub struct CompactionContext<R> {
    /// Where to start reading the log, in place of where compaction has got to.
    pub log_start_offset: Option<i64>,
    /// All the others.
    pub rest: R,
}

impl<R: Copy> Clone for CompactionContext<R> {
    fn clone(&self) -> (copy: Self)
        ensures
            copy == *self,
    {
        *self
    }
}

impl<R: Copy> Copy for CompactionContext<R> {

}

/// Why a run failed.
#[derive(Debug)]
pub enum CompactionError<E> {
    /// What must hold did not.
    InvariantViolation(&'static str),
    /// A service failed.
    Service(E),
}

/// How a run ended.
#[derive(Debug)]
pub enum CompactionResponse {
    Success { job_id: JobId },
}

/// The reply to a request for a collection's log.
pub enum LogFetchOrchestratorResponse<P: Payloads> {
    Success(LogFetchSuccess<P>),
    /// The log that was asked for has been compacted already.
    RequireFunctionBackfill,
    /// The compaction offset of the collection is wrong.
    RequireCompactionOffsetRepair,
}

/// A collection's log.
pub struct LogFetchSuccess<P: Payloads> {
    pub materialized: Vec<P::MaterializedLog>,
    pub collection_info: P::CollectionInfo,
    pub resolved_attached_functions: Vec<P::AttachedFunction>,
}

/// The queue's frontier lies at or before what the function has read.
pub open spec fn at_frontier(completion_offset: int, queue_compaction_offset: int) -> bool {
    0 < queue_compaction_offset <= completion_offset
}

/// Whether the function has read the collection up to the queue's frontier. A
/// frontier of zero, or below, is none.
pub fn has_reached_queue_frontier(completion_offset: i64, queue_compaction_offset: i64) -> (yes:
    bool)
    ensures
        yes == at_frontier(completion_offset as int, queue_compaction_offset as int),
        completion_offset < queue_compaction_offset ==> !yes,
        queue_compaction_offset > 0 && completion_offset >= queue_compaction_offset ==> yes,
        queue_compaction_offset <= 0 ==> !yes,
{
    queue_compaction_offset > 0 && completion_offset >= queue_compaction_offset
}

/// A request for the database of a collection, to be made with `context`.
#[derive(Debug)]
pub struct DatabaseLookup<P: Payloads> {
    pub context: CompactionContext<P::ContextRest>,
    pub collection_id: CollectionUuid,
}

/// A request for the log of one input collection, to be made with `context`.
pub struct LogFetchRequest<P: Payloads> {
    pub context: CompactionContext<P::ContextRest>,
    pub collection_id: CollectionUuid,
    pub database_name: DatabaseName,
    pub use_compacted_logs: bool,
    pub attached_function_id: AttachedFunctionUuid,
}

/// A call of the function over the data of its input collections.
pub struct WorkflowCall<P: Payloads> {
    pub context: CompactionContext<P::ContextRest>,
    pub input_collection_data: Vec<FunctionInputCollectionData<P>>,
    pub is_for_backfill: bool,
    pub attached_function_id: Option<AttachedFunctionUuid>,
}

/// A registration of what the function did.
pub struct RegisterCall<P: Payloads> {
    pub context: CompactionContext<P::ContextRest>,
    pub collections: Vec<P::RegisterInfo>,
    pub function_context: Option<FunctionContext<P>>,
}

/// A run that waits for the database of its first input collection.
pub struct AwaitDatabase<P: Payloads> {
    context: CompactionContext<P::ContextRest>,
    attached_function_id: AttachedFunctionUuid,
    inputs: VecDeque<FunctionExecutionInput>,
}

/// A run that waits for the log of an input collection.
pub struct AwaitLogs<P: Payloads> {
    context: CompactionContext<P::ContextRest>,
    attached_function_id: AttachedFunctionUuid,
    database_name: DatabaseName,
    input: FunctionExecutionInput,
    use_compacted_logs: bool,
    remaining: VecDeque<FunctionExecutionInput>,
    collected: Vec<FunctionInputCollectionData<P>>,
}

/// A run that waits for its function.
pub struct AwaitWorkflow<P: Payloads> {
    context: CompactionContext<P::ContextRest>,
    attached_function_id: AttachedFunctionUuid,
}

/// A run that waits for its registration.
pub struct AwaitRegistration<P: Payloads> {
    context: CompactionContext<P::ContextRest>,
    attached_function_id: AttachedFunctionUuid,
}

/// A step of a run: a call to make, with the run that takes the reply, or the end.
pub enum FunctionExecutionStep<P: Payloads> {
    /// Find the database of the collection.
    LookUpDatabase(DatabaseLookup<P>, AwaitDatabase<P>),
    /// Fetch a log.
    FetchLogs(LogFetchRequest<P>, AwaitLogs<P>),
    /// Run the function.
    RunWorkflow(WorkflowCall<P>, AwaitWorkflow<P>),
    /// Register what the function did.
    Register(RegisterCall<P>, AwaitRegistration<P>),
    Finished(Result<CompactionResponse, CompactionError<P::Failure>>),
}

impl View for DatabaseName {
    type V = Seq<char>;

    open spec fn view(&self) -> Seq<char> {
        self.0@
    }
}

impl<P: Payloads> View for LogFetchRequest<P> {
    type V = LogRequestView<P>;

    open spec fn view(&self) -> LogRequestView<P> {
        LogRequestView {
            context: self.context,
            collection_id: self.collection_id,
            database_name: self.database_name@,
            use_compacted_logs: self.use_compacted_logs,
            attached_function_id: self.attached_function_id,
        }
    }
}

impl<P: Payloads> View for WorkflowCall<P> {
    type V = WorkflowView<P>;

    open spec fn view(&self) -> WorkflowView<P> {
        WorkflowView {
            context: self.context,
            input_collection_data: self.input_collection_data@,
            is_for_backfill: self.is_for_backfill,
            attached_function_id: self.attached_function_id,
        }
    }
}

impl<P: Payloads> View for RegisterCall<P> {
    type V = RegisterView<P>;

    open spec fn view(&self) -> RegisterView<P> {
        RegisterView {
            context: self.context,
            collections: self.collections@,
            function_context: self.function_context,
        }
    }
}

impl<P: Payloads> View for AwaitDatabase<P> {
    type V = AwaitDatabaseView<P>;

    closed spec fn view(&self) -> AwaitDatabaseView<P> {
        AwaitDatabaseView {
            run: RunView {
                context: self.context,
                attached_function_id: self.attached_function_id,
            },
            todo: unread(self.inputs@),
        }
    }
}

impl<P: Payloads> View for AwaitLogs<P> {
    type V = AwaitLogsView<P>;

    closed spec fn view(&self) -> AwaitLogsView<P> {
        AwaitLogsView {
            run: RunView {
                context: self.context,
                attached_function_id: self.attached_function_id,
            },
            database_name: self.database_name@,
            input: self.input,
            use_compacted_logs: self.use_compacted_logs,
            todo: unread(self.remaining@),
            collected: self.collected@,
        }
    }
}

impl<P: Payloads> View for AwaitWorkflow<P> {
    type V = RunView<P>;

    closed spec fn view(&self) -> RunView<P> {
        RunView { context: self.context, attached_function_id: self.attached_function_id }
    }
}

impl<P: Payloads> View for AwaitRegistration<P> {
    type V = RunView<P>;

    closed spec fn view(&self) -> RunView<P> {
        RunView { context: self.context, attached_function_id: self.attached_function_id }
    }
}

impl<P: Payloads> View for FunctionExecutionStep<P> {
    type V = StepView<P>;

    open spec fn view(&self) -> StepView<P> {
        match *self {
            FunctionExecutionStep::LookUpDatabase(lookup, wait) => {
                StepView::LookUpDatabase(lookup, wait@)
            },
            FunctionExecutionStep::FetchLogs(request, wait) => StepView::FetchLogs(request@, wait@),
            FunctionExecutionStep::RunWorkflow(call, wait) => StepView::RunWorkflow(call@, wait@),
            FunctionExecutionStep::Register(call, wait) => StepView::Register(call@, wait@),
            FunctionExecutionStep::Finished(end) => StepView::Finished(end),
        }
    }
}

/// What was found under a collection, by views.
pub open spec fn found_view<E>(found: Result<Option<DatabaseName>, E>) -> Result<
    Option<Seq<char>>,
    E,
> {
    match found {
        Ok(Some(name)) => Ok(Some(name@)),
        Ok(None) => Ok(None),
        Err(error) => Err(error),
    }
}

/// The execution of attached functions within a compaction.
#[derive(Debug)]
pub struct FunctionExecutionContext<P: Payloads> {
    compaction_context: CompactionContext<P::ContextRest>,
}

impl<P: Payloads> FunctionExecutionContext<P> {
    /// The settings of the compaction.
    pub closed spec fn context(self) -> CompactionContext<P::ContextRest> {
        self.compaction_context
    }

    /// An execution with settings of its own, which start as `compaction_context`.
    pub fn new(compaction_context: &CompactionContext<P::ContextRest>) -> (execution: Self)
        ensures
            execution.context() == *compaction_context,
    {
        FunctionExecutionContext { compaction_context: compaction_context.clone() }
    }

    /// The request for a collection's log with the settings `log_fetch_context`.
    pub fn fetch_function_input_logs(
        log_fetch_context: CompactionContext<P::ContextRest>,
        collection_id: CollectionUuid,
        database_name: DatabaseName,
        use_compacted_logs: bool,
        attached_function_id: AttachedFunctionUuid,
    ) -> (request: LogFetchRequest<P>)
        ensures
            request@ == (LogRequestView::<P> {
                context: log_fetch_context,
                collection_id,
                database_name: database_name@,
                use_compacted_logs,
                attached_function_id,
            }),
    {
        LogFetchRequest {
            context: log_fetch_context,
            collection_id,
            database_name,
            use_compacted_logs,
            attached_function_id,
        }
    }

    /// The data of an input collection out of the reply to a request for its log.
    /// `None` says that the compacted log is to be asked for; where it was the
    /// compacted log that was asked for, anything but the log is an error.
    pub fn fetch_function_input_collection_data(
        use_compacted_logs: bool,
        reply: Result<LogFetchOrchestratorResponse<P>, P::Failure>,
    ) -> (data: Result<Option<FunctionInputCollectionData<P>>, CompactionError<P::Failure>>)
        ensures
            data == collection_data::<P>(use_compacted_logs, reply),
            reply matches Ok(LogFetchOrchestratorResponse::Success(log)) ==> {
                &&& data matches Ok(Some(d))
                &&& d.collection_info == log.collection_info
                &&& d.materialized_log_data == log.materialized
                &&& d.resolved_attached_functions == log.resolved_attached_functions
            },
            data matches Ok(None) <==> !use_compacted_logs && (reply matches Ok(
                LogFetchOrchestratorResponse::RequireFunctionBackfill,
            )),
    {
        match reply {
            Err(failure) => Err(CompactionError::Service(failure)),
            Ok(LogFetchOrchestratorResponse::Success(success)) => Ok(
                Some(
                    FunctionInputCollectionData {
                        collection_info: success.collection_info,
                        materialized_log_data: success.materialized,
                        resolved_attached_functions: success.resolved_attached_functions,
                    },
                ),
            ),
            Ok(LogFetchOrchestratorResponse::RequireFunctionBackfill) => {
                if use_compacted_logs {
                    Err(
                        CompactionError::InvariantViolation(
                            "Function execution backfill fetch should only return success",
                        ),
                    )
                } else {
                    Ok(None)
                }
            },
            Ok(LogFetchOrchestratorResponse::RequireCompactionOffsetRepair) => {
                if use_compacted_logs {
                    Err(
                        CompactionError::InvariantViolation(
                            "Function execution backfill fetch should only return success",
                        ),
                    )
                } else {
                    Err(
                        CompactionError::InvariantViolation(
                            "Function execution does not support compaction offset repair",
                        ),
                    )
                }
            },
        }
    }

    /// The request for the database that all inputs share: that of the first
    /// collection. There must be one.
    pub fn resolve_shared_input_database_name(
        compaction_context: CompactionContext<P::ContextRest>,
        fn_inputs: &[FunctionExecutionInput],
    ) -> (lookup: Result<DatabaseLookup<P>, CompactionError<P::Failure>>)
        ensures
            lookup == (if fn_inputs@.len() == 0 {
                violation::<DatabaseLookup<P>, P::Failure>(
                    "Function execution requires at least one input collection",
                )
            } else {
                Ok(
                    DatabaseLookup {
                        context: compaction_context,
                        collection_id: fn_inputs@[0].collection_id,
                    },
                )
            }),
    {
        if fn_inputs.len() == 0 {
            return Err(
                CompactionError::InvariantViolation(
                    "Function execution requires at least one input collection",
                ),
            );
        }
        Ok(
            DatabaseLookup {
                context: compaction_context,
                collection_id: fn_inputs[0].collection_id,
            },
        )
    }

    /// The database that all inputs share, out of what was found under the first
    /// collection: a database's name, `None` where the name is not fit for one, or
    /// the failure to find anything.
    pub fn shared_input_database_name(
        found: Result<Option<DatabaseName>, P::Failure>,
    ) -> (name: Result<DatabaseName, CompactionError<P::Failure>>)
        ensures
            match name {
                Ok(n) => shared_database_name(found_view(found)) == Ok::<
                    Seq<char>,
                    CompactionError<P::Failure>,
                >(n@),
                Err(error) => shared_database_name(found_view(found)) == Err::<
                    Seq<char>,
                    CompactionError<P::Failure>,
                >(error),
            },
            found matches Ok(Some(n)) ==> name == Ok::<DatabaseName, CompactionError<P::Failure>>(
                n,
            ),
            found matches Ok(None) ==> name == Err::<DatabaseName, CompactionError<P::Failure>>(
                CompactionError::InvariantViolation(
                    "Invalid function input collection database name",
                ),
            ),
            found is Err ==> name == Err::<DatabaseName, CompactionError<P::Failure>>(
                CompactionError::InvariantViolation(
                    "Failed to resolve function input collection database",
                ),
            ),
    {
        match found {
            Err(_) => Err(
                CompactionError::InvariantViolation(
                    "Failed to resolve function input collection database",
                ),
            ),
            Ok(None) => Err(
                CompactionError::InvariantViolation(
                    "Invalid function input collection database name",
                ),
            ),
            Ok(Some(name)) => Ok(name),
        }
    }

    /// Starts a run of the function over the inputs.
    pub fn run(
        self,
        attached_function_id: AttachedFunctionUuid,
        fn_inputs: Vec<FunctionExecutionInput>,
    ) -> (step: FunctionExecutionStep<P>)
        ensures
            step@ == started::<P>(
                RunView { context: self.context(), attached_function_id },
                fn_inputs@,
            ),
    {
        match Self::resolve_shared_input_database_name(
            self.compaction_context,
            fn_inputs.as_slice(),
        ) {
            Err(error) => FunctionExecutionStep::Finished(Err(error)),
            Ok(lookup) => FunctionExecutionStep::LookUpDatabase(
                lookup,
                AwaitDatabase {
                    context: self.compaction_context,
                    attached_function_id,
                    inputs: queue_of(fn_inputs),
                },
            ),
        }
    }
}

fn queue_of(inputs: Vec<FunctionExecutionInput>) -> (queue: VecDeque<FunctionExecutionInput>)
    ensures
        queue@ == inputs@,
{
    let mut queue: VecDeque<FunctionExecutionInput> = VecDeque::new();
    let ghost all = inputs@;
    for input in iter: inputs
        invariant
            queue@ == all.take(iter.index() as int),
            iter.seq() == all,
    {
        queue.push_back(input);
    }
    queue
}

/// The first input is unread before all others, or is passed over.
proof fn unread_from_the_front(inputs: Seq<FunctionExecutionInput>)
    requires
        inputs.len() > 0,
    ensures
        unread(inputs) == (if at_frontier(
            inputs[0].queue_completion_offset as int,
            inputs[0].queue_compaction_offset as int,
        ) {
            unread(inputs.drop_first())
        } else {
            seq![inputs[0]] + unread(inputs.drop_first())
        }),
{
    reveal(Seq::filter);
    let pred = |input: FunctionExecutionInput|
        !at_frontier(
            input.queue_completion_offset as int,
            input.queue_compaction_offset as int,
        );
    let first = seq![inputs[0]];
    Seq::filter_distributes_over_add(first, inputs.drop_first(), pred);
    assert(first + inputs.drop_first() =~= inputs);
    let none = Seq::<FunctionExecutionInput>::empty();
    assert(first.drop_last() =~= none);
    assert(none.filter(pred) =~= none);
    assert(first.filter(pred) =~= if pred(first[0]) {
        first
    } else {
        none
    });
    assert(none + inputs.drop_first().filter(pred) =~= inputs.drop_first().filter(pred));
}

/// Moves on to the next input that has something left to read, or to the function
/// where there is none left.
fn proceed<P: Payloads>(
    context: CompactionContext<P::ContextRest>,
    attached_function_id: AttachedFunctionUuid,
    database_name: DatabaseName,
    inputs: VecDeque<FunctionExecutionInput>,
    collected: Vec<FunctionInputCollectionData<P>>,
) -> (step: FunctionExecutionStep<P>)
    ensures
        step@ == proceeded(
            RunView { context, attached_function_id },
            database_name@,
            unread(inputs@),
            collected@,
        ),
{
    let mut remaining = inputs;
    while remaining.len() > 0
        invariant
            unread(remaining@) == unread(inputs@),
        decreases remaining@.len(),
    {
        proof {
            unread_from_the_front(remaining@);
        }
        if let Some(input) = remaining.pop_front() {
            if !has_reached_queue_frontier(
                input.queue_completion_offset,
                input.queue_compaction_offset,
            ) {
                assert(unread(inputs@).drop_first() =~= unread(remaining@));
                return ask_for_logs(
                    AwaitLogs {
                        context,
                        attached_function_id,
                        database_name,
                        input,
                        use_compacted_logs: false,
                        remaining,
                        collected,
                    },
                );
            }
        }
    }
    assert(unread(inputs@).len() == 0) by {
        reveal(Seq::filter);
    }
    if collected.len() == 0 {
        return FunctionExecutionStep::Finished(
            Ok(CompactionResponse::Success { job_id: JobId::from(attached_function_id) }),
        );
    }
    FunctionExecutionStep::RunWorkflow(
        WorkflowCall {
            context,
            input_collection_data: collected,
            is_for_backfill: false,
            attached_function_id: Some(attached_function_id),
        },
        AwaitWorkflow { context, attached_function_id },
    )
}

/// Asks for the log that the run waits for.
fn ask_for_logs<P: Payloads>(wait: AwaitLogs<P>) -> (step: FunctionExecutionStep<P>)
    ensures
        step@ == StepView::FetchLogs(log_request(wait@), wait@),
{
    let mut log_fetch_context = wait.context;
    log_fetch_context.log_start_offset = Some(wait.input.queue_completion_offset);
    let request = FunctionExecutionContext::<P>::fetch_function_input_logs(
        log_fetch_context,
        wait.input.collection_id,
        DatabaseName(wait.database_name.0.clone()),
        wait.use_compacted_logs,
        wait.attached_function_id,
    );
    FunctionExecutionStep::FetchLogs(request, wait)
}

impl<P: Payloads> AwaitDatabase<P> {
    /// Takes what was found of the database: its name, `None` where that is not fit
    /// for a database, or the failure.
    pub fn looked_up(self, found: Result<Option<DatabaseName>, P::Failure>) -> (step:
        FunctionExecutionStep<P>)
        ensures
            step@ == database_looked_up::<P>(self@, found_view(found)),
            step matches FunctionExecutionStep::FetchLogs(request, _) ==> {
                &&& found matches Ok(Some(name))
                &&& request.database_name.0@ == name.0@
            },
            !(found matches Ok(Some(_))) ==> (step matches FunctionExecutionStep::Finished(
                Err(_),
            )),
    {
        match FunctionExecutionContext::<P>::shared_input_database_name(found) {
            Err(error) => FunctionExecutionStep::Finished(Err(error)),
            Ok(name) => proceed(
                self.context,
                self.attached_function_id,
                name,
                self.inputs,
                Vec::new(),
            ),
        }
    }
}

impl<P: Payloads> AwaitLogs<P> {
    /// Takes the reply to the request.
    pub fn fetched(self, reply: Result<LogFetchOrchestratorResponse<P>, P::Failure>) -> (step:
        FunctionExecutionStep<P>)
        ensures
            step@ == logs_fetched(self@, reply),
            step matches FunctionExecutionStep::FetchLogs(request, _) ==> request.database_name.0@
                == self@.database_name,
    {
        match FunctionExecutionContext::<P>::fetch_function_input_collection_data(
            self.use_compacted_logs,
            reply,
        ) {
            Err(error) => FunctionExecutionStep::Finished(Err(error)),
            Ok(Some(data)) => {
                let mut collected = self.collected;
                collected.push(data);
                proceed(
                    self.context,
                    self.attached_function_id,
                    self.database_name,
                    self.remaining,
                    collected,
                )
            },
            Ok(None) => ask_for_logs(AwaitLogs { use_compacted_logs: true, ..self }),
        }
    }
}

impl<P: Payloads> AwaitWorkflow<P> {
    /// Takes what the function left to register, if anything.
    pub fn ran(
        self,
        reply: Result<Option<(FunctionContext<P>, P::RegisterInfo)>, P::Failure>,
    ) -> (step: FunctionExecutionStep<P>)
        ensures
            step@ == workflow_ran::<P>(self@, reply),
    {
        match reply {
            Err(failure) => FunctionExecutionStep::Finished(Err(CompactionError::Service(failure))),
            Ok(None) => FunctionExecutionStep::Finished(
                Ok(CompactionResponse::Success { job_id: JobId::from(self.attached_function_id) }),
            ),
            Ok(Some((function_context, collection_register_info))) => {
                let mut collections: Vec<P::RegisterInfo> = Vec::new();
                collections.push(collection_register_info);
                assert(collections@ =~= seq![collection_register_info]);
                FunctionExecutionStep::Register(
                    RegisterCall {
                        context: self.context,
                        collections,
                        function_context: Some(function_context),
                    },
                    AwaitRegistration {
                        context: self.context,
                        attached_function_id: self.attached_function_id,
                    },
                )
            },
        }
    }
}

impl<P: Payloads> AwaitRegistration<P> {
    /// Takes the outcome of the registration.
    pub fn registered(self, reply: Result<(), P::Failure>) -> (step:
        FunctionExecutionStep<P>)
        ensures
            step@ == registered::<P>(self@, reply),
    {
        match reply {
            Err(failure) => FunctionExecutionStep::Finished(Err(CompactionError::Service(failure))),
            Ok(_) => FunctionExecutionStep::Finished(
                Ok(CompactionResponse::Success { job_id: JobId::from(self.attached_function_id) }),
            ),
        }
    }
}

} // verus!
