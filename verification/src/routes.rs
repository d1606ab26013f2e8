//! The routes that store and read generated wiki trajectories.
//!
//! A route alternates between the services of the server and decisions. The
//! decisions stand here: each route's function gives its first step, and each step
//! but the last names a call to make and takes the reply to the next step.

use crate::errors::{FoundationChromaClientError, TrajectoryOpError, TrajectoryRouteError};
use crate::reasoning::{reasoning_for_slug, response_views, TrajectoryReasoningResponse};
use crate::route_model::{
    authz_for, begun, call_for, collection_resolved, collection_token, gone_stale, identified,
    loaded, metered, op_result, tags, written, EndView, ResponseView, RouteStepView,
};
use crate::text::{text_of, texts};
use crate::trajectory::GenerateTrajectoryFile;
use uuid::Uuid;
use vstd::prelude::*;
use vstd::string::StringExecFns;

verus! {

/// What the services of the server hand to each other through a route, and which a
/// route carries without reading it.
pub trait RoutePayloads {
    /// What a trajectory file holds besides its trajectory.
    type FileRest;

    /// A request to append entries.
    type Entries;

    /// What is answered to a write.
    type Written;

    /// Why a caller is not let in or not served.
    type Failure;
}

/// Query parameters for `GET /api/trajectories/{id}`.
#[derive(Debug, PartialEq, Eq)]
pub struct ReadTrajectoryQuery {
    /// Reject open trajectories when true. Defaults false so callers can
    /// inspect a partial trajectory while it executes.
    pub require_finalized: bool,
}

impl Default for ReadTrajectoryQuery {
    fn default() -> (query: Self)
        ensures
            !query.require_finalized,
    {
        ReadTrajectoryQuery { require_finalized: false }
    }
}

impl ReadTrajectoryQuery {
    /// The query out of the parameters that a request carries: a partial trajectory
    /// is read unless the request asks otherwise.
    pub fn from_parameters(require_finalized: Option<bool>) -> (query: Self)
        ensures
            query.require_finalized == (require_finalized == Some(true)),
    {
        match require_finalized {
            Some(required) => ReadTrajectoryQuery { require_finalized: required },
            None => ReadTrajectoryQuery::default(),
        }
    }
}

/// Query parameters for `GET /api/trajectories/{id}/reasoning`.
#[derive(Debug, PartialEq, Eq)]
pub struct ReadTrajectoryReasoningQuery {
    /// Wiki page slug to find in trajectory write calls. Present-but-empty is
    /// valid and targets the wiki root page.
    pub slug: Option<String>,
    /// Reject open trajectories when true. Defaults false so callers can
    /// inspect a partial trajectory while it executes.
    pub require_finalized: bool,
}

impl Default for ReadTrajectoryReasoningQuery {
    fn default() -> (query: Self)
        ensures
            query.slug is None,
            !query.require_finalized,
    {
        ReadTrajectoryReasoningQuery { slug: None, require_finalized: false }
    }
}

impl ReadTrajectoryReasoningQuery {
    /// The query out of the parameters that a request carries.
    pub fn from_parameters(slug: Option<String>, require_finalized: Option<bool>) -> (query: Self)
        ensures
            query.slug == slug,
            query.require_finalized == (require_finalized == Some(true)),
    {
        ReadTrajectoryReasoningQuery {
            slug,
            require_finalized: match require_finalized {
                Some(required) => required,
                None => false,
            },
        }
    }
}

/// What a caller must be allowed to do.
#[derive(Debug, Clone, Copy, PartialEq, Eq, Structural)]
pub enum AuthzAction {
    UpsertFoundation,
    ViewFoundation,
}

/// A request to one of the routes.
pub enum RouteRequest<P: RoutePayloads> {
    Save(GenerateTrajectoryFile<P::FileRest>),
    Open(GenerateTrajectoryFile<P::FileRest>),
    Append(Uuid, P::Entries),
    Finalize(Uuid, GenerateTrajectoryFile<P::FileRest>),
    Get(Uuid, ReadTrajectoryQuery),
    Reasoning(Uuid, ReadTrajectoryReasoningQuery),
}

/// A write to a trajectory.
pub enum TrajectoryWrite<P: RoutePayloads> {
    /// Save a complete finalized trajectory.
    Save(GenerateTrajectoryFile<P::FileRest>),
    /// Create an open trajectory.
    CreateOpen(GenerateTrajectoryFile<P::FileRest>),
    /// Append entries to an open trajectory.
    AppendOpen(Uuid, P::Entries),
    /// Finalize an open trajectory.
    FinalizeOpen(Uuid, GenerateTrajectoryFile<P::FileRest>),
}

/// What a route does with a tenant's trajectories.
pub enum TrajectoryCall<P: RoutePayloads> {
    Write(TrajectoryWrite<P>),
    /// Load a trajectory, to answer it as it is or, where there is a slug, to answer
    /// the reasoning behind that page.
    Load { id: Uuid, require_finalized: bool, slug: Option<String> },
}

/// What a route answers.
pub enum RouteResponse<P: RoutePayloads> {
    Written(P::Written),
    File(GenerateTrajectoryFile<P::FileRest>),
    Reasoning(Vec<TrajectoryReasoningResponse>),
}

/// Why a route fails.
pub enum RouteFailure<E> {
    /// The caller is not let in or not served.
    Refused(E),
    /// The route itself failed.
    Route(TrajectoryRouteError),
}

/// How a route ends.
pub struct RouteEnd<P: RoutePayloads> {
    pub result: Result<RouteResponse<P>, RouteFailure<P::Failure>>,
    /// The tenant whose collection is no longer where it was remembered to be.
    pub stale_tenant: Option<String>,
}

/// A request for the collection of a tenant's trajectories, in the caller's name.
pub struct CollectionRequest {
    pub tenant: String,
    pub token: String,
}

/// A trajectory to load.
pub struct TrajectoryLoad {
    pub id: Uuid,
    pub require_finalized: bool,
}

/// A route that waits for the caller's identity.
pub struct AwaitIdentity<P: RoutePayloads> {
    request: RouteRequest<P>,
}

/// A route that waits to be let on by the scorecard.
pub struct AwaitScorecard<P: RoutePayloads> {
    request: RouteRequest<P>,
    tenant: String,
}

/// A route that waits for the tenant's collection.
pub struct AwaitCollection<P: RoutePayloads> {
    call: TrajectoryCall<P>,
    tenant: String,
}

/// A route that waits for its write.
pub struct AwaitWrite {
    tenant: String,
}

/// A route that waits for a trajectory.
pub struct AwaitTrajectory {
    tenant: String,
    slug: Option<String>,
}

/// A step of a route: a call to make, with the route that takes the reply, or the end.
pub enum RouteStep<P: RoutePayloads> {
    /// Find out who calls, and whether that caller may do this.
    Authorize(AuthzAction, AwaitIdentity<P>),
    /// Ask the scorecard under these tags.
    Meter(Vec<String>, AwaitScorecard<P>),
    /// Find the tenant's collection.
    Resolve(CollectionRequest, AwaitCollection<P>),
    /// Write to the collection.
    Write(TrajectoryWrite<P>, AwaitWrite),
    /// Load from the collection.
    Load(TrajectoryLoad, AwaitTrajectory),
    Finished(RouteEnd<P>),
}

impl<P: RoutePayloads> AwaitIdentity<P> {
    /// What was requested.
    pub closed spec fn request(self) -> RouteRequest<P> {
        self.request
    }
}

impl<P: RoutePayloads> AwaitScorecard<P> {
    /// What was requested.
    pub closed spec fn request(self) -> RouteRequest<P> {
        self.request
    }

    /// For whom.
    pub closed spec fn tenant(self) -> Seq<char> {
        self.tenant@
    }
}

impl<P: RoutePayloads> AwaitCollection<P> {
    /// What to do with the collection.
    pub closed spec fn call(self) -> TrajectoryCall<P> {
        self.call
    }

    /// For whom.
    pub closed spec fn tenant(self) -> Seq<char> {
        self.tenant@
    }
}

impl AwaitWrite {
    /// For whom.
    pub closed spec fn tenant(self) -> Seq<char> {
        self.tenant@
    }
}

impl AwaitTrajectory {
    /// For whom.
    pub closed spec fn tenant(self) -> Seq<char> {
        self.tenant@
    }

    /// The page whose reasoning is asked for, if that is what is asked for.
    pub closed spec fn slug(self) -> Option<Seq<char>> {
        text_of(self.slug)
    }
}

impl<P: RoutePayloads> View for RouteResponse<P> {
    type V = ResponseView<P>;

    open spec fn view(&self) -> ResponseView<P> {
        match *self {
            RouteResponse::Written(response) => ResponseView::Written(response),
            RouteResponse::File(file) => ResponseView::File(file),
            RouteResponse::Reasoning(responses) => ResponseView::Reasoning(
                response_views(responses@),
            ),
        }
    }
}

impl<P: RoutePayloads> View for RouteEnd<P> {
    type V = EndView<P>;

    open spec fn view(&self) -> EndView<P> {
        EndView {
            result: match self.result {
                Ok(response) => Ok(response@),
                Err(failure) => Err(failure),
            },
            stale_tenant: text_of(self.stale_tenant),
        }
    }
}

impl<P: RoutePayloads> View for RouteStep<P> {
    type V = RouteStepView<P>;

    open spec fn view(&self) -> RouteStepView<P> {
        match *self {
            RouteStep::Authorize(action, wait) => RouteStepView::Authorize(action, wait.request()),
            RouteStep::Meter(tags, wait) => RouteStepView::Meter(
                texts(tags@),
                wait.request(),
                wait.tenant(),
            ),
            RouteStep::Resolve(request, wait) => RouteStepView::Resolve {
                tenant: request.tenant@,
                token: request.token@,
                call: wait.call(),
                for_tenant: wait.tenant(),
            },
            RouteStep::Write(write, wait) => RouteStepView::Write(write, wait.tenant()),
            RouteStep::Load(load, wait) => RouteStepView::Load {
                id: load.id,
                require_finalized: load.require_finalized,
                for_tenant: wait.tenant(),
                slug: wait.slug(),
            },
            RouteStep::Finished(end) => RouteStepView::Finished(end@),
        }
    }
}

impl<P: RoutePayloads> RouteRequest<P> {
    /// What the caller must be allowed to do.
    pub fn authz_action(&self) -> (action: AuthzAction)
        ensures
            action == authz_for(*self),
            self is Get || self is Reasoning ==> action == AuthzAction::ViewFoundation,
            !(self is Get || self is Reasoning) ==> action == AuthzAction::UpsertFoundation,
    {
        match self {
            RouteRequest::Save(_)
            | RouteRequest::Open(_)
            | RouteRequest::Append(_, _)
            | RouteRequest::Finalize(_, _) => AuthzAction::UpsertFoundation,
            RouteRequest::Get(_, _) | RouteRequest::Reasoning(_, _) => AuthzAction::ViewFoundation,
        }
    }

    /// The tags under which the request is metered.
    pub fn scorecard_tags(&self, tenant: &str) -> (strings: Vec<String>)
        ensures
            texts(strings@) == tags(*self, tenant@),
    {
        let op: &str = match self {
            RouteRequest::Save(_) => "op:foundation_save_trajectory",
            RouteRequest::Open(_) => "op:foundation_open_trajectory",
            RouteRequest::Append(_, _) => "op:foundation_append_trajectory_entries",
            RouteRequest::Finalize(_, _) => "op:foundation_finalize_trajectory",
            RouteRequest::Get(_, _) => "op:foundation_get_trajectory",
            RouteRequest::Reasoning(_, _) => "op:foundation_get_trajectory_reasoning",
        };
        let mut strings: Vec<String> = Vec::new();
        strings.push(op.to_owned());
        strings.push("tenant:".to_owned().concat(tenant));
        assert(texts(strings@) =~= tags(*self, tenant@));
        strings
    }

    /// What the request asks of the trajectories.
    pub fn into_call(self) -> (call: Result<TrajectoryCall<P>, TrajectoryRouteError>)
        ensures
            call == call_for(self),
            self matches RouteRequest::Save(file) ==> call matches Ok(
                TrajectoryCall::Write(TrajectoryWrite::Save(asked)),
            ) && asked == file,
            self matches RouteRequest::Open(file) ==> call matches Ok(
                TrajectoryCall::Write(TrajectoryWrite::CreateOpen(asked)),
            ) && asked == file,
            self matches RouteRequest::Append(id, entries) ==> call matches Ok(
                TrajectoryCall::Write(TrajectoryWrite::AppendOpen(to, asked)),
            ) && to == id && asked == entries,
            self matches RouteRequest::Finalize(id, file) ==> call matches Ok(
                TrajectoryCall::Write(TrajectoryWrite::FinalizeOpen(to, asked)),
            ) && to == id && asked == file,
    {
        match self {
            RouteRequest::Save(file) => Ok(TrajectoryCall::Write(TrajectoryWrite::Save(file))),
            RouteRequest::Open(file) => Ok(
                TrajectoryCall::Write(TrajectoryWrite::CreateOpen(file)),
            ),
            RouteRequest::Append(id, entries) => Ok(
                TrajectoryCall::Write(TrajectoryWrite::AppendOpen(id, entries)),
            ),
            RouteRequest::Finalize(id, file) => Ok(
                TrajectoryCall::Write(TrajectoryWrite::FinalizeOpen(id, file)),
            ),
            RouteRequest::Get(id, query) => Ok(
                TrajectoryCall::Load {
                    id,
                    require_finalized: query.require_finalized,
                    slug: None,
                },
            ),
            RouteRequest::Reasoning(id, query) => {
                let require_finalized: bool = query.require_finalized;
                match query.slug {
                    Some(slug) => Ok(
                        TrajectoryCall::Load { id, require_finalized, slug: Some(slug) },
                    ),
                    None => Err(TrajectoryRouteError::MissingSlug),
                }
            },
        }
    }
}

fn begin<P: RoutePayloads>(request: RouteRequest<P>) -> (step: RouteStep<P>)
    ensures
        step@ == begun(request),
{
    RouteStep::Authorize(request.authz_action(), AwaitIdentity { request })
}

/// `POST /api/trajectories/save` writes a complete finalized trajectory.
pub fn foundation_save_trajectory<P: RoutePayloads>(
    file: GenerateTrajectoryFile<P::FileRest>,
) -> (step: RouteStep<P>)
    ensures
        step@ == begun(RouteRequest::<P>::Save(file)),
{
    begin(RouteRequest::Save(file))
}

/// `POST /api/trajectories/open` creates an open trajectory with zero entries.
pub fn foundation_open_trajectory<P: RoutePayloads>(
    file: GenerateTrajectoryFile<P::FileRest>,
) -> (step: RouteStep<P>)
    ensures
        step@ == begun(RouteRequest::<P>::Open(file)),
{
    begin(RouteRequest::Open(file))
}

/// `POST /api/trajectories/{id}/entries` appends complete entries.
pub fn foundation_append_trajectory_entries<P: RoutePayloads>(
    id: Uuid,
    request: P::Entries,
) -> (step: RouteStep<P>)
    ensures
        step@ == begun(RouteRequest::<P>::Append(id, request)),
{
    begin(RouteRequest::Append(id, request))
}

/// `POST /api/trajectories/{id}/finalize` finalizes an open trajectory.
pub fn foundation_finalize_trajectory<P: RoutePayloads>(
    id: Uuid,
    file: GenerateTrajectoryFile<P::FileRest>,
) -> (step: RouteStep<P>)
    ensures
        step@ == begun(RouteRequest::<P>::Finalize(id, file)),
{
    begin(RouteRequest::Finalize(id, file))
}

/// `GET /api/trajectories/{id}` returns a full or partial trajectory.
pub fn foundation_get_trajectory<P: RoutePayloads>(
    id: Uuid,
    query: ReadTrajectoryQuery,
) -> (step: RouteStep<P>)
    ensures
        step@ == begun(RouteRequest::<P>::Get(id, query)),
{
    begin(RouteRequest::Get(id, query))
}

/// `GET /api/trajectories/{id}/reasoning` returns reasoning for one page write.
pub fn foundation_get_trajectory_reasoning<P: RoutePayloads>(
    id: Uuid,
    query: ReadTrajectoryReasoningQuery,
) -> (step: RouteStep<P>)
    ensures
        step@ == begun(RouteRequest::<P>::Reasoning(id, query)),
{
    begin(RouteRequest::Reasoning(id, query))
}

/// The token with which to ask for the tenant's collection. `client_configured` says
/// whether the server has a service to ask, `token` is the caller's.
pub fn trajectory_collection(client_configured: bool, token: Option<String>) -> (usable: Result<
    String,
    TrajectoryRouteError,
>)
    ensures
        match usable {
            Ok(t) => collection_token(client_configured, text_of(token)) == Ok::<
                Seq<char>,
                TrajectoryRouteError,
            >(t@),
            Err(error) => collection_token(client_configured, text_of(token)) == Err::<
                Seq<char>,
                TrajectoryRouteError,
            >(error),
        },
        usable is Ok <==> client_configured && token is Some,
        usable matches Ok(t) ==> token == Some(t),
        !client_configured ==> usable matches Err(TrajectoryRouteError::RouteDisabled),
        client_configured && token is None ==> usable matches Err(
            TrajectoryRouteError::MissingToken,
        ),
{
    if !client_configured {
        return Err(TrajectoryRouteError::RouteDisabled);
    }
    match token {
        Some(t) => Ok(t),
        None => Err(TrajectoryRouteError::MissingToken),
    }
}

/// The outcome of an operation on a trajectory as the route has it, and the tenant
/// where the database does not know the tenant's collection.
pub fn trajectory_op<T>(tenant: String, result: Result<T, TrajectoryOpError>) -> (outcome: (
    Result<T, TrajectoryRouteError>,
    Option<String>,
))
    ensures
        outcome.0 == op_result(result),
        text_of(outcome.1) == gone_stale(result, tenant@),
        result matches Ok(value) ==> outcome.0 == Ok::<T, TrajectoryRouteError>(value)
            && outcome.1 is None,
        result matches Err(failed) ==> outcome.0 == Err::<T, TrajectoryRouteError>(
            TrajectoryRouteError::Trajectory(failed.error),
        ) && outcome.1 == (if failed.chroma_not_found {
            Some(tenant)
        } else {
            None
        }),
{
    match result {
        Ok(value) => (Ok(value), None),
        Err(failed) => {
            let stale: Option<String> = if failed.chroma_not_found {
                Some(tenant)
            } else {
                None
            };
            (Err(TrajectoryRouteError::Trajectory(failed.error)), stale)
        },
    }
}

fn end<P: RoutePayloads>(result: Result<RouteResponse<P>, RouteFailure<P::Failure>>) -> (step:
    RouteStep<P>)
    ensures
        step@ == RouteStepView::Finished((RouteEnd::<P> { result, stale_tenant: None })@),
{
    RouteStep::Finished(RouteEnd { result, stale_tenant: None })
}

impl<P: RoutePayloads> AwaitIdentity<P> {
    /// Takes the caller's tenant, or why the caller is not let in.
    pub fn identified(self, identity: Result<String, P::Failure>) -> (step: RouteStep<P>)
        ensures
            step@ == identified(
                self.request(),
                match identity {
                    Ok(tenant) => Ok(tenant@),
                    Err(failure) => Err(failure),
                },
            ),
    {
        match identity {
            Err(failure) => end(Err(RouteFailure::Refused(failure))),
            Ok(tenant) => {
                let strings = self.request.scorecard_tags(tenant.as_str());
                RouteStep::Meter(strings, AwaitScorecard { request: self.request, tenant })
            },
        }
    }
}

impl<P: RoutePayloads> AwaitScorecard<P> {
    /// Takes the scorecard's leave, or its refusal; and with it whether the server
    /// has a service to ask for collections, and the caller's token.
    pub fn metered(
        self,
        reply: Result<(), P::Failure>,
        client_configured: bool,
        token: Option<String>,
    ) -> (step: RouteStep<P>)
        ensures
            step@ == metered(
                self.request(),
                self.tenant(),
                reply,
                client_configured,
                text_of(token),
            ),
    {
        if let Err(failure) = reply {
            return end(Err(RouteFailure::Refused(failure)));
        }
        let call = match self.request.into_call() {
            Err(error) => return end(Err(RouteFailure::Route(error))),
            Ok(call) => call,
        };
        match trajectory_collection(client_configured, token) {
            Err(error) => end(Err(RouteFailure::Route(error))),
            Ok(token) => RouteStep::Resolve(
                CollectionRequest { tenant: self.tenant.clone(), token },
                AwaitCollection { call, tenant: self.tenant },
            ),
        }
    }
}

impl<P: RoutePayloads> AwaitCollection<P> {
    /// Takes whether the collection was found.
    pub fn resolved(self, reply: Result<(), FoundationChromaClientError>) -> (step: RouteStep<P>)
        ensures
            step@ == collection_resolved(self.call(), self.tenant(), reply),
    {
        match reply {
            Err(error) => end(Err(RouteFailure::Route(TrajectoryRouteError::Resolve(error)))),
            Ok(_) => match self.call {
                TrajectoryCall::Write(write) => RouteStep::Write(
                    write,
                    AwaitWrite { tenant: self.tenant },
                ),
                TrajectoryCall::Load { id, require_finalized, slug } => RouteStep::Load(
                    TrajectoryLoad { id, require_finalized },
                    AwaitTrajectory { tenant: self.tenant, slug },
                ),
            },
        }
    }
}

impl AwaitWrite {
    /// Takes the outcome of the write.
    pub fn written<P: RoutePayloads>(self, reply: Result<P::Written, TrajectoryOpError>) -> (step:
        RouteStep<P>)
        ensures
            step@ == written::<P>(self.tenant(), reply),
    {
        let (result, stale_tenant) = trajectory_op(self.tenant, reply);
        RouteStep::Finished(
            RouteEnd {
                result: match result {
                    Ok(response) => Ok(RouteResponse::Written(response)),
                    Err(error) => Err(RouteFailure::Route(error)),
                },
                stale_tenant,
            },
        )
    }
}

impl AwaitTrajectory {
    /// Takes the trajectory, or why it could not be loaded.
    pub fn loaded<P: RoutePayloads>(
        self,
        reply: Result<GenerateTrajectoryFile<P::FileRest>, TrajectoryOpError>,
    ) -> (step: RouteStep<P>)
        ensures
            step@ == loaded::<P>(self.tenant(), self.slug(), reply),
    {
        let (result, stale_tenant) = trajectory_op(self.tenant, reply);
        RouteStep::Finished(
            RouteEnd {
                result: match result {
                    Ok(file) => Ok(
                        match self.slug {
                            None => RouteResponse::File(file),
                            Some(slug) => RouteResponse::Reasoning(
                                reasoning_for_slug(&file, slug.as_str()),
                            ),
                        },
                    ),
                    Err(error) => Err(RouteFailure::Route(error)),
                },
                stale_tenant,
            },
        )
    }
}

} // verus!
