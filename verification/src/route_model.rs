//! What a trajectory route is: its steps as values, and the step that each reply
//! leads to.

use crate::errors::{FoundationChromaClientError, TrajectoryOpError, TrajectoryRouteError};
use crate::reasoning::{reasoning_of, ReasoningView};
use crate::routes::{
    AuthzAction, RouteFailure, RoutePayloads, RouteRequest, TrajectoryCall, TrajectoryWrite,
};
use crate::text::text_of;
use crate::trajectory::GenerateTrajectoryFile;
use uuid::Uuid;
use vstd::prelude::*;

verus! {

/// What a route answers.
pub ghost enum ResponseView<P: RoutePayloads> {
    Written(P::Written),
    File(GenerateTrajectoryFile<P::FileRest>),
    Reasoning(Seq<ReasoningView>),
}

/// How a route ends; `stale_tenant` is the tenant whose remembered collection is to
/// be forgotten.
pub ghost struct EndView<P: RoutePayloads> {
    pub result: Result<ResponseView<P>, RouteFailure<P::Failure>>,
    pub stale_tenant: Option<Seq<char>>,
}

/// A step of a route: a call, with what the route keeps until the reply, or the end.
pub ghost enum RouteStepView<P: RoutePayloads> {
    /// The action to authorize, and the request.
    Authorize(AuthzAction, RouteRequest<P>),
    /// The tags, the request and the tenant.
    Meter(Seq<Seq<char>>, RouteRequest<P>, Seq<char>),
    /// The collection asked for, the call to make on it and the tenant.
    Resolve {
        tenant: Seq<char>,
        token: Seq<char>,
        call: TrajectoryCall<P>,
        for_tenant: Seq<char>,
    },
    /// The write and the tenant.
    Write(TrajectoryWrite<P>, Seq<char>),
    /// The trajectory asked for, the tenant and the page whose reasoning to answer.
    Load {
        id: Uuid,
        require_finalized: bool,
        for_tenant: Seq<char>,
        slug: Option<Seq<char>>,
    },
    Finished(EndView<P>),
}

/// What a request's caller must be allowed to do: to write what it writes, to view
/// what it reads.
pub open spec fn authz_for<P: RoutePayloads>(request: RouteRequest<P>) -> AuthzAction {
    match request {
        RouteRequest::Save(_) => AuthzAction::UpsertFoundation,
        RouteRequest::Open(_) => AuthzAction::UpsertFoundation,
        RouteRequest::Append(_, _) => AuthzAction::UpsertFoundation,
        RouteRequest::Finalize(_, _) => AuthzAction::UpsertFoundation,
        RouteRequest::Get(_, _) => AuthzAction::ViewFoundation,
        RouteRequest::Reasoning(_, _) => AuthzAction::ViewFoundation,
    }
}

/// The operation under which a request is metered.
pub open spec fn scorecard_op<P: RoutePayloads>(request: RouteRequest<P>) -> Seq<char> {
    match request {
        RouteRequest::Save(_) => "op:foundation_save_trajectory"@,
        RouteRequest::Open(_) => "op:foundation_open_trajectory"@,
        RouteRequest::Append(_, _) => "op:foundation_append_trajectory_entries"@,
        RouteRequest::Finalize(_, _) => "op:foundation_finalize_trajectory"@,
        RouteRequest::Get(_, _) => "op:foundation_get_trajectory"@,
        RouteRequest::Reasoning(_, _) => "op:foundation_get_trajectory_reasoning"@,
    }
}

/// The tags under which a tenant's request is metered.
pub open spec fn tags<P: RoutePayloads>(request: RouteRequest<P>, tenant: Seq<char>) -> Seq<
    Seq<char>,
> {
    seq![scorecard_op(request), "tenant:"@ + tenant]
}

/// What a request asks of the trajectories. Reasoning is asked of a page: without
/// one there is nothing to do.
pub open spec fn call_for<P: RoutePayloads>(request: RouteRequest<P>) -> Result<
    TrajectoryCall<P>,
    TrajectoryRouteError,
> {
    match request {
        RouteRequest::Save(file) => Ok(TrajectoryCall::Write(TrajectoryWrite::Save(file))),
        RouteRequest::Open(file) => Ok(TrajectoryCall::Write(TrajectoryWrite::CreateOpen(file))),
        RouteRequest::Append(id, entries) => Ok(
            TrajectoryCall::Write(TrajectoryWrite::AppendOpen(id, entries)),
        ),
        RouteRequest::Finalize(id, file) => Ok(
            TrajectoryCall::Write(TrajectoryWrite::FinalizeOpen(id, file)),
        ),
        RouteRequest::Get(id, query) => Ok(
            TrajectoryCall::Load {
                id,
                require_finalized: query.require_finalized,
                slug: None,
            },
        ),
        RouteRequest::Reasoning(id, query) => match query.slug {
            Some(slug) => Ok(
                TrajectoryCall::Load {
                    id,
                    require_finalized: query.require_finalized,
                    slug: Some(slug),
                },
            ),
            None => Err(TrajectoryRouteError::MissingSlug),
        },
    }
}

/// The token to ask for the collection with. A server that proxies nowhere comes
/// first, a caller without a token second.
pub open spec fn collection_token(client_configured: bool, token: Option<Seq<char>>) -> Result<
    Seq<char>,
    TrajectoryRouteError,
> {
    if !client_configured {
        Err(TrajectoryRouteError::RouteDisabled)
    } else {
        match token {
            Some(t) => Ok(t),
            None => Err(TrajectoryRouteError::MissingToken),
        }
    }
}

/// An end at which nothing is to be forgotten.
pub open spec fn ended<P: RoutePayloads>(
    result: Result<ResponseView<P>, RouteFailure<P::Failure>>,
) -> RouteStepView<P> {
    RouteStepView::Finished(EndView { result, stale_tenant: None })
}

/// The first step of a route.
pub open spec fn begun<P: RoutePayloads>(request: RouteRequest<P>) -> RouteStepView<P> {
    RouteStepView::Authorize(authz_for(request), request)
}

/// The step after the caller was identified as one of a tenant, or refused.
pub open spec fn identified<P: RoutePayloads>(
    request: RouteRequest<P>,
    identity: Result<Seq<char>, P::Failure>,
) -> RouteStepView<P> {
    match identity {
        Err(failure) => ended(Err(RouteFailure::Refused(failure))),
        Ok(tenant) => RouteStepView::Meter(tags(request, tenant), request, tenant),
    }
}

/// The step after the scorecard let the request on, or refused it.
pub open spec fn metered<P: RoutePayloads>(
    request: RouteRequest<P>,
    tenant: Seq<char>,
    reply: Result<(), P::Failure>,
    client_configured: bool,
    token: Option<Seq<char>>,
) -> RouteStepView<P> {
    match reply {
        Err(failure) => ended(Err(RouteFailure::Refused(failure))),
        Ok(_) => match call_for(request) {
            Err(error) => ended(Err(RouteFailure::Route(error))),
            Ok(call) => match collection_token(client_configured, token) {
                Err(error) => ended(Err(RouteFailure::Route(error))),
                Ok(t) => RouteStepView::Resolve { tenant, token: t, call, for_tenant: tenant },
            },
        },
    }
}

/// The step after the collection was found, or not.
pub open spec fn collection_resolved<P: RoutePayloads>(
    call: TrajectoryCall<P>,
    tenant: Seq<char>,
    reply: Result<(), FoundationChromaClientError>,
) -> RouteStepView<P> {
    match reply {
        Err(error) => ended(Err(RouteFailure::Route(TrajectoryRouteError::Resolve(error)))),
        Ok(_) => match call {
            TrajectoryCall::Write(write) => RouteStepView::Write(write, tenant),
            TrajectoryCall::Load { id, require_finalized, slug } => RouteStepView::Load {
                id,
                require_finalized,
                for_tenant: tenant,
                slug: text_of(slug),
            },
        },
    }
}

/// The outcome of an operation on a trajectory as the route has it.
pub open spec fn op_result<T>(result: Result<T, TrajectoryOpError>) -> Result<
    T,
    TrajectoryRouteError,
> {
    match result {
        Ok(value) => Ok(value),
        Err(failed) => Err(TrajectoryRouteError::Trajectory(failed.error)),
    }
}

/// The tenant, where the database does not know the collection that the operation
/// was made on.
pub open spec fn gone_stale<T>(result: Result<T, TrajectoryOpError>, tenant: Seq<char>) -> Option<
    Seq<char>,
> {
    match result {
        Err(failed) if failed.chroma_not_found => Some(tenant),
        _ => None,
    }
}

/// The end after a write.
pub open spec fn written<P: RoutePayloads>(
    tenant: Seq<char>,
    reply: Result<P::Written, TrajectoryOpError>,
) -> RouteStepView<P> {
    RouteStepView::Finished(
        EndView {
            result: match op_result(reply) {
                Ok(response) => Ok(ResponseView::Written(response)),
                Err(error) => Err(RouteFailure::Route(error)),
            },
            stale_tenant: gone_stale(reply, tenant),
        },
    )
}

/// The end after a trajectory was loaded.
pub open spec fn loaded<P: RoutePayloads>(
    tenant: Seq<char>,
    slug: Option<Seq<char>>,
    reply: Result<GenerateTrajectoryFile<P::FileRest>, TrajectoryOpError>,
) -> RouteStepView<P> {
    RouteStepView::Finished(
        EndView {
            result: match op_result(reply) {
                Ok(file) => Ok(
                    match slug {
                        None => ResponseView::File(file),
                        Some(s) => ResponseView::Reasoning(reasoning_of(file.entries(), s)),
                    },
                ),
                Err(error) => Err(RouteFailure::Route(error)),
            },
            stale_tenant: gone_stale(reply, tenant),
        },
    )
}

} // verus!
