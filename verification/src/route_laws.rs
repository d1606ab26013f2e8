//! What holds of every trajectory route, whatever the services reply.

use crate::errors::{
    ErrorCodes, FoundationChromaClientError, TrajectoryOpError, TrajectoryRouteError,
};
use crate::reasoning::reasoning_of;
use crate::route_model::{
    authz_for, begun, call_for, collection_resolved, collection_token, gone_stale, identified,
    loaded, metered, tags, written, EndView, ResponseView, RouteStepView,
};
use crate::routes::{
    AuthzAction, ReadTrajectoryQuery, ReadTrajectoryReasoningQuery, RouteFailure, RoutePayloads,
    RouteRequest, TrajectoryCall, TrajectoryWrite,
};
use crate::trajectory::GenerateTrajectoryFile;
use uuid::Uuid;
use vstd::prelude::*;

verus! {

/// What the services reply to the calls of a route, with what the route reads of the
/// server and of the request.
#[verifier::reject_recursive_types(P)]
pub ghost struct RouteReplies<P: RoutePayloads> {
    pub identity: spec_fn(AuthzAction) -> Result<Seq<char>, P::Failure>,
    pub scorecard: spec_fn(Seq<Seq<char>>) -> Result<(), P::Failure>,
    pub client_configured: bool,
    pub token: Option<Seq<char>>,
    pub collection: spec_fn(Seq<char>, Seq<char>) -> Result<(), FoundationChromaClientError>,
    pub write: spec_fn(TrajectoryWrite<P>) -> Result<P::Written, TrajectoryOpError>,
    pub load: spec_fn(Uuid, bool) -> Result<GenerateTrajectoryFile<P::FileRest>, TrajectoryOpError>,
}

/// How many calls a route can still make.
pub open spec fn calls_left<P: RoutePayloads>(step: RouteStepView<P>) -> nat {
    match step {
        RouteStepView::Authorize(_, _) => 4,
        RouteStepView::Meter(_, _, _) => 3,
        RouteStepView::Resolve { .. } => 2,
        RouteStepView::Write(_, _) => 1,
        RouteStepView::Load { .. } => 1,
        RouteStepView::Finished(_) => 0,
    }
}

/// How a route ends that is at `step` and gets these replies.
pub open spec fn driven<P: RoutePayloads>(
    step: RouteStepView<P>,
    replies: RouteReplies<P>,
) -> EndView<P>
    decreases calls_left(step),
{
    match step {
        RouteStepView::Authorize(action, request) => driven(
            identified(request, (replies.identity)(action)),
            replies,
        ),
        RouteStepView::Meter(strings, request, tenant) => driven(
            metered(
                request,
                tenant,
                (replies.scorecard)(strings),
                replies.client_configured,
                replies.token,
            ),
            replies,
        ),
        RouteStepView::Resolve { tenant, token, call, for_tenant } => driven(
            collection_resolved(call, for_tenant, (replies.collection)(tenant, token)),
            replies,
        ),
        RouteStepView::Write(write, tenant) => driven(
            written(tenant, (replies.write)(write)),
            replies,
        ),
        RouteStepView::Load { id, require_finalized, for_tenant, slug } => driven(
            loaded(for_tenant, slug, (replies.load)(id, require_finalized)),
            replies,
        ),
        RouteStepView::Finished(end) => end,
    }
}

/// An end in failure at which nothing is to be forgotten.
pub open spec fn failed<P: RoutePayloads>(failure: RouteFailure<P::Failure>) -> EndView<P> {
    EndView { result: Err(failure), stale_tenant: None }
}

/// How the operation on a tenant's trajectories ends.
pub open spec fn performed<P: RoutePayloads>(
    call: TrajectoryCall<P>,
    tenant: Seq<char>,
    replies: RouteReplies<P>,
) -> EndView<P> {
    match call {
        TrajectoryCall::Write(write) => {
            let reply = (replies.write)(write);
            EndView {
                result: match reply {
                    Ok(response) => Ok(ResponseView::Written(response)),
                    Err(failed) => Err(
                        RouteFailure::Route(TrajectoryRouteError::Trajectory(failed.error)),
                    ),
                },
                stale_tenant: gone_stale(reply, tenant),
            }
        },
        TrajectoryCall::Load { id, require_finalized, slug } => {
            let reply = (replies.load)(id, require_finalized);
            EndView {
                result: match (reply, slug) {
                    (Err(failed), _) => Err(
                        RouteFailure::Route(TrajectoryRouteError::Trajectory(failed.error)),
                    ),
                    (Ok(file), None) => Ok(ResponseView::File(file)),
                    (Ok(file), Some(s)) => Ok(
                        ResponseView::Reasoning(reasoning_of(file.entries(), s@)),
                    ),
                },
                stale_tenant: gone_stale(reply, tenant),
            }
        },
    }
}

/// How a route ends, told at one go.
pub open spec fn answer<P: RoutePayloads>(
    request: RouteRequest<P>,
    replies: RouteReplies<P>,
) -> EndView<P> {
    match (replies.identity)(authz_for(request)) {
        Err(failure) => failed(RouteFailure::Refused(failure)),
        Ok(tenant) => match (replies.scorecard)(tags(request, tenant)) {
            Err(failure) => failed(RouteFailure::Refused(failure)),
            Ok(_) => match call_for(request) {
                Err(error) => failed(RouteFailure::Route(error)),
                Ok(call) => match collection_token(replies.client_configured, replies.token) {
                    Err(error) => failed(RouteFailure::Route(error)),
                    Ok(token) => match (replies.collection)(tenant, token) {
                        Err(error) => failed(
                            RouteFailure::Route(TrajectoryRouteError::Resolve(error)),
                        ),
                        Ok(_) => performed(call, tenant, replies),
                    },
                },
            },
        },
    }
}

/// Step by step or told at one go, a route makes the same calls in the same order
/// and ends the same way: the caller is identified and authorized, then metered,
/// then the request is looked at, then the server and the token, then the collection
/// is resolved, and only then is the operation performed.
pub proof fn route_ends_as_its_replies_say<P: RoutePayloads>(
    request: RouteRequest<P>,
    replies: RouteReplies<P>,
)
    ensures
        driven(begun(request), replies) == answer(request, replies),
{
    reveal_with_fuel(driven, 5);
}

/// How the operation that a request asks for fails, where it does.
pub open spec fn op_failure<P: RoutePayloads>(
    call: TrajectoryCall<P>,
    replies: RouteReplies<P>,
) -> Option<TrajectoryOpError> {
    match call {
        TrajectoryCall::Write(write) => match (replies.write)(write) {
            Ok(_) => None,
            Err(failed) => Some(failed),
        },
        TrajectoryCall::Load { id, require_finalized, .. } => match (replies.load)(
            id,
            require_finalized,
        ) {
            Ok(_) => None,
            Err(failed) => Some(failed),
        },
    }
}

/// A remembered collection is forgotten exactly where the operation was made and the
/// database did not know the collection, and it is the caller's own tenant's. The
/// operation's error is answered either way.
pub proof fn only_a_stale_collection_is_forgotten<P: RoutePayloads>(
    request: RouteRequest<P>,
    replies: RouteReplies<P>,
)
    ensures
        match driven(begun(request), replies).stale_tenant {
            Some(tenant) => {
                &&& (replies.identity)(authz_for(request)) == Ok::<Seq<char>, P::Failure>(tenant)
                &&& call_for(request) matches Ok(call)
                &&& op_failure(call, replies) matches Some(failed)
                &&& failed.chroma_not_found
                &&& driven(begun(request), replies).result == Err::<
                    ResponseView<P>,
                    RouteFailure<P::Failure>,
                >(RouteFailure::Route(TrajectoryRouteError::Trajectory(failed.error)))
            },
            None => driven(begun(request), replies).result matches Err(
                RouteFailure::Route(TrajectoryRouteError::Trajectory(error)),
            ) ==> {
                &&& call_for(request) matches Ok(call)
                &&& op_failure(call, replies) == Some(
                    TrajectoryOpError { error, chroma_not_found: false },
                )
            },
        },
{
    route_ends_as_its_replies_say(request, replies);
}

/// A request for reasoning without a page is turned down as soon as its caller has
/// been let in, under the code of an invalid argument, whatever the server's settings,
/// the caller's token and the collections are.
pub proof fn missing_slug_is_answered_first<P: RoutePayloads>(
    id: Uuid,
    query: ReadTrajectoryReasoningQuery,
    replies: RouteReplies<P>,
    tenant: Seq<char>,
)
    requires
        query.slug is None,
        (replies.identity)(AuthzAction::ViewFoundation) == Ok::<Seq<char>, P::Failure>(tenant),
        (replies.scorecard)(tags(RouteRequest::<P>::Reasoning(id, query), tenant)) is Ok,
    ensures
        driven(begun(RouteRequest::<P>::Reasoning(id, query)), replies) == failed::<P>(
            RouteFailure::Route(TrajectoryRouteError::MissingSlug),
        ),
        TrajectoryRouteError::MissingSlug.spec_code() == ErrorCodes::InvalidArgument,
{
    route_ends_as_its_replies_say(RouteRequest::<P>::Reasoning(id, query), replies);
}

/// A trajectory is read as its query says: only a query that requires it turns down
/// an open trajectory.
pub proof fn read_asks_for_what_its_query_says<P: RoutePayloads>(
    id: Uuid,
    query: ReadTrajectoryQuery,
)
    ensures
        call_for(RouteRequest::<P>::Get(id, query)) == Ok::<
            TrajectoryCall<P>,
            TrajectoryRouteError,
        >(
            TrajectoryCall::Load { id, require_finalized: query.require_finalized, slug: None },
        ),
{
}

/// Any slug names a page, the empty one too.
pub proof fn every_slug_names_a_page<P: RoutePayloads>(
    id: Uuid,
    query: ReadTrajectoryReasoningQuery,
)
    requires
        query.slug is Some,
    ensures
        call_for(RouteRequest::<P>::Reasoning(id, query)) == Ok::<
            TrajectoryCall<P>,
            TrajectoryRouteError,
        >(
            TrajectoryCall::Load {
                id,
                require_finalized: query.require_finalized,
                slug: query.slug,
            },
        ),
{
}

/// Who is not let in, or not served, learns that alone: the end does not depend on
/// any collection, token or setting.
pub proof fn refused_caller_reaches_nothing<P: RoutePayloads>(
    request: RouteRequest<P>,
    replies: RouteReplies<P>,
    others: RouteReplies<P>,
)
    requires
        replies.identity == others.identity,
        replies.scorecard == others.scorecard,
        match (replies.identity)(authz_for(request)) {
            Err(_) => true,
            Ok(tenant) => (replies.scorecard)(tags(request, tenant)) is Err,
        },
    ensures
        driven(begun(request), replies) == driven(begun(request), others),
        driven(begun(request), replies).result matches Err(RouteFailure::Refused(_)),
{
    route_ends_as_its_replies_say(request, replies);
    route_ends_as_its_replies_say(request, others);
}

/// A collection that does not exist is `NotFound` to the caller, whatever code its
/// client gave; any other failure keeps its own code.
pub proof fn missing_collection_is_not_found(error: FoundationChromaClientError)
    ensures
        TrajectoryRouteError::Resolve(error).spec_code() == (if error.says_not_found() {
            ErrorCodes::NotFound
        } else {
            error.spec_code()
        }),
{
}

} // verus!
