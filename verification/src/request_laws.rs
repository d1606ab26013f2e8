//! What each route asks of the services and what it answers, request by request.

use crate::errors::{
    ErrorCodes, FoundationChromaClientError, TrajectoryError, TrajectoryOpError,
    TrajectoryRouteError,
};
use crate::reasoning::reasoning_of;
use crate::route_laws::{driven, RouteReplies};
use crate::route_model::{
    authz_for, begun, call_for, collection_resolved, collection_token, gone_stale, identified,
    loaded, metered, op_result, tags, written, ResponseView, RouteStepView,
};
use crate::routes::{
    AuthzAction, ReadTrajectoryQuery, ReadTrajectoryReasoningQuery, RouteEnd, RouteFailure,
    RoutePayloads, RouteRequest, RouteResponse, RouteStep, TrajectoryCall, TrajectoryWrite,
};
use crate::trajectory::GenerateTrajectoryFile;
use uuid::Uuid;
use vstd::prelude::*;

verus! {

/// Each request to write asks for its own write, of just what it carries: whatever
/// file it is, a save is a save, an open request creates an open trajectory, an append
/// goes to the trajectory that it names, and so does a finalization.
pub proof fn writes_ask_for_their_own_write<P: RoutePayloads>(
    file: GenerateTrajectoryFile<P::FileRest>,
    id: Uuid,
    entries: P::Entries,
)
    ensures
        call_for(RouteRequest::<P>::Save(file)) == Ok::<TrajectoryCall<P>, TrajectoryRouteError>(
            TrajectoryCall::Write(TrajectoryWrite::Save(file)),
        ),
        call_for(RouteRequest::<P>::Open(file)) == Ok::<TrajectoryCall<P>, TrajectoryRouteError>(
            TrajectoryCall::Write(TrajectoryWrite::CreateOpen(file)),
        ),
        call_for(RouteRequest::<P>::Append(id, entries)) == Ok::<
            TrajectoryCall<P>,
            TrajectoryRouteError,
        >(TrajectoryCall::Write(TrajectoryWrite::AppendOpen(id, entries))),
        call_for(RouteRequest::<P>::Finalize(id, file)) == Ok::<
            TrajectoryCall<P>,
            TrajectoryRouteError,
        >(TrajectoryCall::Write(TrajectoryWrite::FinalizeOpen(id, file))),
{
}

/// No two requests ask for the same: what is asked tells the request.
pub proof fn what_is_asked_tells_the_request<P: RoutePayloads>(
    request: RouteRequest<P>,
    other: RouteRequest<P>,
)
    requires
        call_for(request) is Ok,
        call_for(request) == call_for(other),
    ensures
        request == other,
{
}

/// Reads ask for a load under the id and the strictness that they carry, for the
/// reasoning behind a page where they are for reasoning; and only a request for
/// reasoning without a page asks for nothing.
pub proof fn reads_ask_for_their_own_load<P: RoutePayloads>(
    id: Uuid,
    query: ReadTrajectoryQuery,
    reasoning: ReadTrajectoryReasoningQuery,
)
    ensures
        call_for(RouteRequest::<P>::Get(id, query)) matches Ok(
            TrajectoryCall::Load { id: asked, require_finalized, slug },
        ) && asked == id && require_finalized == query.require_finalized && slug is None,
        match call_for(RouteRequest::<P>::Reasoning(id, reasoning)) {
            Ok(TrajectoryCall::Load { id: asked, require_finalized, slug }) => {
                &&& asked == id
                &&& require_finalized == reasoning.require_finalized
                &&& slug is Some
                &&& slug == reasoning.slug
            },
            Ok(TrajectoryCall::Write(_)) => false,
            Err(error) => error is MissingSlug && reasoning.slug is None,
        },
{
}

/// Who writes must be allowed to write; who reads, to view.
pub proof fn writers_upsert_and_readers_view<P: RoutePayloads>(request: RouteRequest<P>)
    ensures
        request is Save || request is Open || request is Append || request is Finalize
            ==> authz_for(request) == AuthzAction::UpsertFoundation,
        request is Get || request is Reasoning ==> authz_for(request)
            == AuthzAction::ViewFoundation,
{
}

/// A request is metered under two tags: the name of its operation and the tenant.
pub proof fn requests_are_metered_by_operation_and_tenant<P: RoutePayloads>(
    request: RouteRequest<P>,
    tenant: Seq<char>,
)
    ensures
        tags(request, tenant).len() == 2,
        tags(request, tenant)[1] == "tenant:"@ + tenant,
        request is Save ==> tags(request, tenant)[0] == "op:foundation_save_trajectory"@,
        request is Open ==> tags(request, tenant)[0] == "op:foundation_open_trajectory"@,
        request is Append ==> tags(request, tenant)[0]
            == "op:foundation_append_trajectory_entries"@,
        request is Finalize ==> tags(request, tenant)[0] == "op:foundation_finalize_trajectory"@,
        request is Get ==> tags(request, tenant)[0] == "op:foundation_get_trajectory"@,
        request is Reasoning ==> tags(request, tenant)[0]
            == "op:foundation_get_trajectory_reasoning"@,
{
}

/// The tags tell tenants apart.
pub proof fn tags_tell_tenants_apart<P: RoutePayloads>(
    request: RouteRequest<P>,
    tenant: Seq<char>,
    other: Seq<char>,
)
    requires
        tags(request, tenant) == tags(request, other),
    ensures
        tenant == other,
{
    let prefix = "tenant:"@;
    assert(tags(request, tenant)[1] == tags(request, other)[1]);
    assert((prefix + tenant).skip(prefix.len() as int) =~= tenant);
    assert((prefix + other).skip(prefix.len() as int) =~= other);
}

/// The token is the caller's own, and it is used exactly where there is a service to
/// ask and the caller has one. A server without a service says so first.
pub proof fn collection_is_asked_for_with_the_callers_token(
    client_configured: bool,
    token: Option<Seq<char>>,
)
    ensures
        match collection_token(client_configured, token) {
            Ok(used) => client_configured && token == Some(used),
            Err(TrajectoryRouteError::RouteDisabled) => !client_configured,
            Err(TrajectoryRouteError::MissingToken) => client_configured && token is None,
            Err(_) => false,
        },
{
}

/// A route first asks whether its caller may do what the request does, and keeps the
/// request.
pub proof fn route_begins_by_authorizing<P: RoutePayloads>(request: RouteRequest<P>)
    ensures
        begun(request) matches RouteStepView::Authorize(action, kept) && kept == request && (
        action == AuthzAction::UpsertFoundation <==> !(request is Get || request is Reasoning)),
{
}

/// A caller who is let in is metered as one of the tenant that was found; one who is
/// not ends the route, and so does a refusal of the scorecard, each with the reason
/// that was given.
pub proof fn refusals_are_passed_on<P: RoutePayloads>(
    request: RouteRequest<P>,
    tenant: Seq<char>,
    failure: P::Failure,
    client_configured: bool,
    token: Option<Seq<char>>,
)
    ensures
        identified(request, Ok(tenant)) matches RouteStepView::Meter(strings, kept, of) && strings
            == tags(request, tenant) && kept == request && of == tenant,
        identified(request, Err(failure)) matches RouteStepView::Finished(end) && end.result
            == Err::<ResponseView<P>, RouteFailure<P::Failure>>(RouteFailure::Refused(failure))
            && end.stale_tenant is None,
        metered(
            request,
            tenant,
            Err(failure),
            client_configured,
            token,
        ) matches RouteStepView::Finished(end) && end.result == Err::<
            ResponseView<P>,
            RouteFailure<P::Failure>,
        >(RouteFailure::Refused(failure)) && end.stale_tenant is None,
{
}

/// A request that was let on asks for the collection of its caller's tenant, with its
/// caller's token, to make the request's own call on it, where the request asks for
/// one, the server has a service and the caller a token; else the first of these that
/// is wanting is the error.
pub proof fn admitted_request_asks_for_its_collection<P: RoutePayloads>(
    request: RouteRequest<P>,
    tenant: Seq<char>,
    client_configured: bool,
    token: Option<Seq<char>>,
)
    ensures
        match metered(request, tenant, Ok(()), client_configured, token) {
            RouteStepView::Resolve { tenant: of, token: with, call, for_tenant } => {
                &&& of == tenant
                &&& for_tenant == tenant
                &&& client_configured
                &&& token == Some(with)
                &&& call_for(request) == Ok::<TrajectoryCall<P>, TrajectoryRouteError>(call)
                &&& request matches RouteRequest::Reasoning(_, query) ==> query.slug is Some
            },
            RouteStepView::Finished(end) => {
                let slugless = request matches RouteRequest::Reasoning(_, query)
                    && query.slug is None;
                &&& end.stale_tenant is None
                &&& end.result matches Err(RouteFailure::Route(error))
                &&& match error {
                    TrajectoryRouteError::MissingSlug => slugless,
                    TrajectoryRouteError::RouteDisabled => !slugless && !client_configured,
                    TrajectoryRouteError::MissingToken => !slugless && client_configured
                        && token is None,
                    _ => false,
                }
            },
            _ => false,
        },
{
}

/// The call that was asked for is made on the collection that was found, for the same
/// tenant; a collection that was not found ends the route with the client's error.
pub proof fn found_collection_gets_the_call<P: RoutePayloads>(
    call: TrajectoryCall<P>,
    tenant: Seq<char>,
    error: FoundationChromaClientError,
)
    ensures
        match collection_resolved(call, tenant, Ok(())) {
            RouteStepView::Write(write, for_tenant) => call == TrajectoryCall::<P>::Write(write)
                && for_tenant == tenant,
            RouteStepView::Load { id, require_finalized, for_tenant, slug } => {
                &&& call matches TrajectoryCall::Load {
                    id: asked,
                    require_finalized: strict,
                    slug: page,
                }
                &&& id == asked
                &&& require_finalized == strict
                &&& for_tenant == tenant
                &&& slug == match page {
                    Some(text) => Some(text@),
                    None => None,
                }
            },
            _ => false,
        },
        collection_resolved(call, tenant, Err(error)) matches RouteStepView::Finished(end)
            && end.result == Err::<ResponseView<P>, RouteFailure<P::Failure>>(
            RouteFailure::Route(TrajectoryRouteError::Resolve(error)),
        ) && end.stale_tenant is None,
{
}

/// An operation's own value or error is what the route has of it, and a collection is
/// forgotten exactly where the database did not know it.
pub proof fn operation_is_reported_as_it_went<T>(
    value: T,
    failed: TrajectoryOpError,
    tenant: Seq<char>,
)
    ensures
        op_result(Ok::<T, TrajectoryOpError>(value)) == Ok::<T, TrajectoryRouteError>(value),
        op_result(Err::<T, TrajectoryOpError>(failed)) == Err::<T, TrajectoryRouteError>(
            TrajectoryRouteError::Trajectory(failed.error),
        ),
        gone_stale(Ok::<T, TrajectoryOpError>(value), tenant) is None,
        failed.chroma_not_found ==> gone_stale(Err::<T, TrajectoryOpError>(failed), tenant)
            == Some(tenant),
        !failed.chroma_not_found ==> gone_stale(
            Err::<T, TrajectoryOpError>(failed),
            tenant,
        ) is None,
{
}

/// A write that went through is answered with what the store answered.
pub proof fn write_is_answered_with_its_response<P: RoutePayloads>(
    tenant: Seq<char>,
    response: P::Written,
)
    ensures
        written::<P>(tenant, Ok(response)) matches RouteStepView::Finished(end) && end.result
            == Ok::<ResponseView<P>, RouteFailure<P::Failure>>(ResponseView::Written(response))
            && end.stale_tenant is None,
{
}

/// A trajectory that was loaded is answered as it is where no page was asked for, and
/// with the reasoning behind the page where one was, the empty one too.
pub proof fn load_is_answered_with_the_file_or_its_reasoning<P: RoutePayloads>(
    tenant: Seq<char>,
    page: Seq<char>,
    file: GenerateTrajectoryFile<P::FileRest>,
)
    ensures
        loaded::<P>(tenant, None, Ok(file)) matches RouteStepView::Finished(end) && end.result
            == Ok::<ResponseView<P>, RouteFailure<P::Failure>>(ResponseView::File(file))
            && end.stale_tenant is None,
        loaded::<P>(tenant, Some(page), Ok(file)) matches RouteStepView::Finished(end)
            && end.result == Ok::<ResponseView<P>, RouteFailure<P::Failure>>(
            ResponseView::Reasoning(reasoning_of(file.entries(), page)),
        ) && end.stale_tenant is None,
{
}

/// An operation that failed is answered with its error, a write and a load alike.
pub proof fn failed_operation_is_answered_with_its_error<P: RoutePayloads>(
    tenant: Seq<char>,
    slug: Option<Seq<char>>,
    failed: TrajectoryOpError,
)
    ensures
        written::<P>(tenant, Err(failed)) == loaded::<P>(tenant, slug, Err(failed)),
        written::<P>(tenant, Err(failed)) matches RouteStepView::Finished(end) && end.result
            == Err::<ResponseView<P>, RouteFailure<P::Failure>>(
            RouteFailure::Route(TrajectoryRouteError::Trajectory(failed.error)),
        ) && end.stale_tenant == (if failed.chroma_not_found {
            Some(tenant)
        } else {
            None
        }),
{
}

/// Every service lets a caller of `tenant` on who may do `action` and whose request is
/// metered as `op`, and the collection is found with `token`.
pub open spec fn let_on<P: RoutePayloads>(
    replies: RouteReplies<P>,
    action: AuthzAction,
    op: Seq<char>,
    tenant: Seq<char>,
    token: Seq<char>,
) -> bool {
    &&& (replies.identity)(action) == Ok::<Seq<char>, P::Failure>(tenant)
    &&& (replies.scorecard)(seq![op, "tenant:"@ + tenant]) is Ok
    &&& replies.client_configured
    &&& replies.token == Some(token)
    &&& (replies.collection)(tenant, token) is Ok
}

/// What a caller is answered to a write that the store replied to.
pub open spec fn write_answer<P: RoutePayloads>(
    reply: Result<P::Written, TrajectoryOpError>,
) -> Result<ResponseView<P>, RouteFailure<P::Failure>> {
    match reply {
        Ok(response) => Ok(ResponseView::Written(response)),
        Err(failed) => Err(RouteFailure::Route(TrajectoryRouteError::Trajectory(failed.error))),
    }
}

/// From end to end, a save that is let on is answered with what the store replies to
/// saving just that file.
pub proof fn saving_saves_the_file<P: RoutePayloads>(
    file: GenerateTrajectoryFile<P::FileRest>,
    replies: RouteReplies<P>,
    tenant: Seq<char>,
    token: Seq<char>,
)
    requires
        let_on(
            replies,
            AuthzAction::UpsertFoundation,
            "op:foundation_save_trajectory"@,
            tenant,
            token,
        ),
    ensures
        driven(begun(RouteRequest::<P>::Save(file)), replies).result == write_answer::<P>(
            (replies.write)(TrajectoryWrite::Save(file)),
        ),
{
    reveal_with_fuel(driven, 5);
}

/// From end to end, an open request that is let on is answered with what the store
/// replies to creating just that trajectory open.
pub proof fn opening_creates_the_trajectory_open<P: RoutePayloads>(
    file: GenerateTrajectoryFile<P::FileRest>,
    replies: RouteReplies<P>,
    tenant: Seq<char>,
    token: Seq<char>,
)
    requires
        let_on(
            replies,
            AuthzAction::UpsertFoundation,
            "op:foundation_open_trajectory"@,
            tenant,
            token,
        ),
    ensures
        driven(begun(RouteRequest::<P>::Open(file)), replies).result == write_answer::<P>(
            (replies.write)(TrajectoryWrite::CreateOpen(file)),
        ),
{
    reveal_with_fuel(driven, 5);
}

/// From end to end, an append that is let on is answered with what the store replies
/// to appending just those entries to just that trajectory.
pub proof fn appending_appends_the_entries<P: RoutePayloads>(
    id: Uuid,
    entries: P::Entries,
    replies: RouteReplies<P>,
    tenant: Seq<char>,
    token: Seq<char>,
)
    requires
        let_on(
            replies,
            AuthzAction::UpsertFoundation,
            "op:foundation_append_trajectory_entries"@,
            tenant,
            token,
        ),
    ensures
        driven(begun(RouteRequest::<P>::Append(id, entries)), replies).result == write_answer::<P>(
            (replies.write)(TrajectoryWrite::AppendOpen(id, entries)),
        ),
{
    reveal_with_fuel(driven, 5);
}

/// From end to end, a finalization that is let on is answered with what the store
/// replies to finalizing just that trajectory with just that file.
pub proof fn finalizing_finalizes_the_trajectory<P: RoutePayloads>(
    id: Uuid,
    file: GenerateTrajectoryFile<P::FileRest>,
    replies: RouteReplies<P>,
    tenant: Seq<char>,
    token: Seq<char>,
)
    requires
        let_on(
            replies,
            AuthzAction::UpsertFoundation,
            "op:foundation_finalize_trajectory"@,
            tenant,
            token,
        ),
    ensures
        driven(begun(RouteRequest::<P>::Finalize(id, file)), replies).result == write_answer::<P>(
            (replies.write)(TrajectoryWrite::FinalizeOpen(id, file)),
        ),
{
    reveal_with_fuel(driven, 5);
}

/// From end to end, a read that is let on is answered with the trajectory that the
/// store loads under its id and its strictness.
pub proof fn getting_answers_the_trajectory<P: RoutePayloads>(
    id: Uuid,
    query: ReadTrajectoryQuery,
    replies: RouteReplies<P>,
    tenant: Seq<char>,
    token: Seq<char>,
)
    requires
        let_on(
            replies,
            AuthzAction::ViewFoundation,
            "op:foundation_get_trajectory"@,
            tenant,
            token,
        ),
    ensures
        driven(begun(RouteRequest::<P>::Get(id, query)), replies).result == match (replies.load)(
            id,
            query.require_finalized,
        ) {
            Ok(file) => Ok::<ResponseView<P>, RouteFailure<P::Failure>>(ResponseView::File(file)),
            Err(failed) => Err(RouteFailure::Route(TrajectoryRouteError::Trajectory(failed.error))),
        },
{
    reveal_with_fuel(driven, 5);
}

/// From end to end, a request for the reasoning behind a page that is let on is
/// answered with that reasoning in the trajectory which the store loads.
pub proof fn reasoning_is_answered_of_the_page_asked_for<P: RoutePayloads>(
    id: Uuid,
    query: ReadTrajectoryReasoningQuery,
    replies: RouteReplies<P>,
    tenant: Seq<char>,
    token: Seq<char>,
)
    requires
        query.slug is Some,
        let_on(
            replies,
            AuthzAction::ViewFoundation,
            "op:foundation_get_trajectory_reasoning"@,
            tenant,
            token,
        ),
    ensures
        driven(begun(RouteRequest::<P>::Reasoning(id, query)), replies).result == match (
        replies.load)(id, query.require_finalized) {
            Ok(file) => Ok::<ResponseView<P>, RouteFailure<P::Failure>>(
                ResponseView::Reasoning(reasoning_of(file.entries(), query.slug->0@)),
            ),
            Err(failed) => Err(RouteFailure::Route(TrajectoryRouteError::Trajectory(failed.error))),
        },
{
    reveal_with_fuel(driven, 5);
}

/// Each failure of an operation goes under the code of its kind; one that the store
/// gave a code keeps that code, to the route's caller too.
pub proof fn operation_failures_have_their_codes(error: TrajectoryError)
    ensures
        error is NotFound ==> error.spec_code() == ErrorCodes::NotFound,
        error is AlreadyExists ==> error.spec_code() == ErrorCodes::AlreadyExists,
        error is EmptyAppend || error is IdMismatch ==> error.spec_code()
            == ErrorCodes::InvalidArgument,
        error is FinalizedRequired || error is EntryCountMismatch || error is NotOpen
            ==> error.spec_code() == ErrorCodes::FailedPrecondition,
        error matches TrajectoryError::Other { code, .. } ==> error.spec_code() == code,
        TrajectoryRouteError::Trajectory(error).spec_code() == error.spec_code(),
{
}

/// A collection that the client says does not exist is `NotFound` to the caller; any
/// other client failure keeps the code that the client gave it, and a token that
/// cannot be sent on is an invalid argument.
pub proof fn client_failures_have_their_codes(
    message: String,
    not_found: bool,
    code: ErrorCodes,
)
    ensures
        (FoundationChromaClientError::Client { message, not_found, code }).says_not_found()
            == not_found,
        (FoundationChromaClientError::Client { message, not_found, code }).spec_code() == code,
        !FoundationChromaClientError::InvalidToken(message).says_not_found(),
        FoundationChromaClientError::InvalidToken(message).spec_code()
            == ErrorCodes::InvalidArgument,
        TrajectoryRouteError::Resolve(
            FoundationChromaClientError::Client { message, not_found: true, code },
        ).spec_code() == ErrorCodes::NotFound,
        TrajectoryRouteError::Resolve(
            FoundationChromaClientError::Client { message, not_found: false, code },
        ).spec_code() == code,
        TrajectoryRouteError::Resolve(
            FoundationChromaClientError::InvalidToken(message),
        ).spec_code() == ErrorCodes::InvalidArgument,
{
}

/// The route's own errors have codes and texts of their own; an error that another one
/// caused says what that one says.
pub proof fn route_errors_speak_for_themselves(
    error: TrajectoryRouteError,
    source: Seq<char>,
)
    ensures
        error is RouteDisabled ==> error.spec_code() == ErrorCodes::Internal && error.spec_message(
            source,
        ) == "trajectory record I/O is not configured"@,
        error is MissingToken ==> error.spec_code() == ErrorCodes::InvalidArgument
            && error.spec_message(source) == "missing or invalid x-chroma-token header"@,
        error is MissingSlug ==> error.spec_code() == ErrorCodes::InvalidArgument
            && error.spec_message(source) == "missing slug query parameter"@,
        error is Resolve || error is Trajectory ==> error.spec_message(source) == source,
{
}

/// Steps are seen as they are: the call that a step makes is the one that it carries,
/// to the last field.
pub proof fn steps_are_seen_as_they_are<P: RoutePayloads>(step: RouteStep<P>)
    ensures
        match step {
            RouteStep::Authorize(action, wait) => step@ == RouteStepView::Authorize(
                action,
                wait.request(),
            ),
            RouteStep::Meter(strings, wait) => {
                &&& step@ matches RouteStepView::Meter(seen, request, tenant)
                &&& seen.len() == strings@.len()
                &&& forall|i: int| 0 <= i < seen.len() ==> #[trigger] seen[i] == strings@[i]@
                &&& request == wait.request()
                &&& tenant == wait.tenant()
            },
            RouteStep::Resolve(request, wait) => {
                &&& step@ matches RouteStepView::Resolve { tenant, token, call, for_tenant }
                &&& tenant == request.tenant@
                &&& token == request.token@
                &&& call == wait.call()
                &&& for_tenant == wait.tenant()
            },
            RouteStep::Write(write, wait) => step@ == RouteStepView::Write(write, wait.tenant()),
            RouteStep::Load(load, wait) => {
                &&& step@ matches RouteStepView::Load { id, require_finalized, for_tenant, slug }
                &&& id == load.id
                &&& require_finalized == load.require_finalized
                &&& for_tenant == wait.tenant()
                &&& slug == wait.slug()
            },
            RouteStep::Finished(end) => step@ == RouteStepView::Finished(end@),
        },
{
}

/// Ends are seen as they are: the answer or the failure, and the tenant by name.
pub proof fn ends_are_seen_as_they_are<P: RoutePayloads>(end: RouteEnd<P>)
    ensures
        match end.result {
            Err(failure) => end@.result == Err::<ResponseView<P>, RouteFailure<P::Failure>>(
                failure,
            ),
            Ok(RouteResponse::Written(response)) => end@.result == Ok::<
                ResponseView<P>,
                RouteFailure<P::Failure>,
            >(ResponseView::Written(response)),
            Ok(RouteResponse::File(file)) => end@.result == Ok::<
                ResponseView<P>,
                RouteFailure<P::Failure>,
            >(ResponseView::File(file)),
            Ok(RouteResponse::Reasoning(responses)) => {
                &&& end@.result matches Ok(ResponseView::Reasoning(seen))
                &&& seen.len() == responses@.len()
                &&& forall|i: int| 0 <= i < seen.len() ==> #[trigger] seen[i] == responses@[i]@
            },
        },
        match end.stale_tenant {
            Some(tenant) => end@.stale_tenant == Some(tenant@),
            None => end@.stale_tenant is None,
        },
{
}

} // verus!
