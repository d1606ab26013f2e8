//! The errors of the trajectory routes and the codes under which callers see them.

use uuid::Uuid;
use vstd::prelude::*;

verus! {

/// The code of an outcome, by the names that RPC services give them.
#[derive(Debug, Clone, Copy, PartialEq, Eq, Structural)]
pub enum ErrorCodes {
    Success,
    Cancelled,
    Unknown,
    InvalidArgument,
    DeadlineExceeded,
    NotFound,
    AlreadyExists,
    PermissionDenied,
    ResourceExhausted,
    FailedPrecondition,
    Aborted,
    OutOfRange,
    Unimplemented,
    Internal,
    Unavailable,
    DataLoss,
    Unauthenticated,
    VersionMismatch,
    UnprocessableEntity,
}

/// A failure to find the collection of a tenant's trajectories.
#[derive(Debug)]
pub enum FoundationChromaClientError {
    /// The caller's token cannot be sent on.
    InvalidToken(String),
    /// A request failed. The client says whether what was asked for does not exist,
    /// and under which code the failure goes.
    Client { message: String, not_found: bool, code: ErrorCodes },
}

/// Whether a trajectory still takes entries.
#[derive(Debug, Clone, Copy, PartialEq, Eq, Structural)]
pub enum WriteState {
    Open,
    Finalized,
}

/// A failed operation on a trajectory.
#[derive(Debug)]
pub enum TrajectoryError {
    NotFound { tid: Uuid },
    AlreadyExists { tid: Uuid },
    /// An append without entries.
    EmptyAppend { tid: Uuid },
    /// The id in the path is not the id in the body.
    IdMismatch { path: Uuid, body: Uuid },
    /// A finalized trajectory was asked for and this one is open.
    FinalizedRequired { tid: Uuid },
    EntryCountMismatch { tid: Uuid, expected: u64, actual: u64 },
    NotOpen { tid: Uuid, write_state: WriteState },
    /// The store failed in any other way, under the code that it gives the failure.
    Other { message: String, code: ErrorCodes },
}

/// A failed operation on a trajectory, with what the store says of the collection.
#[derive(Debug)]
pub struct TrajectoryOpError {
    pub error: TrajectoryError,
    /// Set where the database answered that it does not know the collection.
    pub chroma_not_found: bool,
}

/// Errors raised while running trajectory routes after request extraction.
#[derive(Debug)]
pub enum TrajectoryRouteError {
    /// No service is configured to proxy to.
    RouteDisabled,
    /// The caller's request carried no usable `x-chroma-token`.
    MissingToken,
    /// Resolving the trajectory collection through the proxy failed.
    Resolve(FoundationChromaClientError),
    /// The trajectory operation failed.
    Trajectory(TrajectoryError),
    /// The reasoning route requires a slug query parameter.
    MissingSlug,
}

impl FoundationChromaClientError {
    pub open spec fn says_not_found(self) -> bool {
        self matches FoundationChromaClientError::Client { not_found, .. } && not_found
    }

    pub open spec fn spec_code(self) -> ErrorCodes {
        match self {
            FoundationChromaClientError::InvalidToken(_) => ErrorCodes::InvalidArgument,
            FoundationChromaClientError::Client { code, .. } => code,
        }
    }

    /// Whether the collection, or what it stands in, does not exist.
    pub fn is_not_found(&self) -> (yes: bool)
        ensures
            yes == self.says_not_found(),
    {
        match self {
            FoundationChromaClientError::InvalidToken(_) => false,
            FoundationChromaClientError::Client { not_found, .. } => *not_found,
        }
    }

    /// The code of the failure.
    pub fn code(&self) -> (code: ErrorCodes)
        ensures
            code == self.spec_code(),
    {
        match self {
            FoundationChromaClientError::InvalidToken(_) => ErrorCodes::InvalidArgument,
            FoundationChromaClientError::Client { code, .. } => *code,
        }
    }
}

impl TrajectoryError {
    pub open spec fn spec_code(self) -> ErrorCodes {
        match self {
            TrajectoryError::NotFound { .. } => ErrorCodes::NotFound,
            TrajectoryError::AlreadyExists { .. } => ErrorCodes::AlreadyExists,
            TrajectoryError::EmptyAppend { .. } => ErrorCodes::InvalidArgument,
            TrajectoryError::IdMismatch { .. } => ErrorCodes::InvalidArgument,
            TrajectoryError::FinalizedRequired { .. } => ErrorCodes::FailedPrecondition,
            TrajectoryError::EntryCountMismatch { .. } => ErrorCodes::FailedPrecondition,
            TrajectoryError::NotOpen { .. } => ErrorCodes::FailedPrecondition,
            TrajectoryError::Other { code, .. } => code,
        }
    }

    /// The code of the failure.
    pub fn code(&self) -> (code: ErrorCodes)
        ensures
            code == self.spec_code(),
    {
        match self {
            TrajectoryError::NotFound { .. } => ErrorCodes::NotFound,
            TrajectoryError::AlreadyExists { .. } => ErrorCodes::AlreadyExists,
            TrajectoryError::EmptyAppend { .. } | TrajectoryError::IdMismatch { .. } => {
                ErrorCodes::InvalidArgument
            },
            TrajectoryError::FinalizedRequired { .. }
            | TrajectoryError::EntryCountMismatch { .. }
            | TrajectoryError::NotOpen { .. } => ErrorCodes::FailedPrecondition,
            TrajectoryError::Other { code, .. } => *code,
        }
    }
}

impl TrajectoryRouteError {
    pub open spec fn spec_code(self) -> ErrorCodes {
        match self {
            TrajectoryRouteError::RouteDisabled => ErrorCodes::Internal,
            TrajectoryRouteError::MissingToken => ErrorCodes::InvalidArgument,
            TrajectoryRouteError::MissingSlug => ErrorCodes::InvalidArgument,
            TrajectoryRouteError::Resolve(error) => if error.says_not_found() {
                ErrorCodes::NotFound
            } else {
                error.spec_code()
            },
            TrajectoryRouteError::Trajectory(error) => error.spec_code(),
        }
    }

    /// The code under which the caller sees the error. A collection that does not
    /// exist is `NotFound`, whatever code its client gave.
    pub fn code(&self) -> (code: ErrorCodes)
        ensures
            code == self.spec_code(),
    {
        match self {
            TrajectoryRouteError::RouteDisabled => ErrorCodes::Internal,
            TrajectoryRouteError::MissingToken | TrajectoryRouteError::MissingSlug => {
                ErrorCodes::InvalidArgument
            },
            TrajectoryRouteError::Resolve(error) => if error.is_not_found() {
                ErrorCodes::NotFound
            } else {
                error.code()
            },
            TrajectoryRouteError::Trajectory(error) => error.code(),
        }
    }

    pub open spec fn spec_message(self, source: Seq<char>) -> Seq<char> {
        match self {
            TrajectoryRouteError::RouteDisabled => "trajectory record I/O is not configured"@,
            TrajectoryRouteError::MissingToken => "missing or invalid x-chroma-token header"@,
            TrajectoryRouteError::MissingSlug => "missing slug query parameter"@,
            TrajectoryRouteError::Resolve(_) => source,
            TrajectoryRouteError::Trajectory(_) => source,
        }
    }

    /// What the caller reads of the error. An error that another one caused says
    /// what that one says of itself, which is `source`.
    pub fn message(&self, source: &str) -> (message: String)
        ensures
            message@ == self.spec_message(source@),
    {
        match self {
            TrajectoryRouteError::RouteDisabled => {
                "trajectory record I/O is not configured".to_owned()
            },
            TrajectoryRouteError::MissingToken => {
                "missing or invalid x-chroma-token header".to_owned()
            },
            TrajectoryRouteError::MissingSlug => "missing slug query parameter".to_owned(),
            TrajectoryRouteError::Resolve(_) | TrajectoryRouteError::Trajectory(_) => {
                source.to_owned()
            },
        }
    }
}

} // verus!
