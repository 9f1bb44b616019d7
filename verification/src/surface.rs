//! The faces a request shows to a client: the status that answers each
//! result, and the stages a request passes through.

use vstd::prelude::*;
use crate::record::{ErrorKind, ErrorView, Record, RecordView, ServiceError, result_view};

verus! {

/// Status of a request that succeeded.
pub const STATUS_OK: u16 = 200;

/// The status that answers a failure of each kind.
pub open spec fn status_of(kind: ErrorKind) -> u16 {
    match kind {
        ErrorKind::MalformedRequest => 400,
        ErrorKind::NotFound => 404,
        ErrorKind::Conflict => 409,
        ErrorKind::StorageFailure => 500,
        ErrorKind::CorruptPayload => 500,
    }
}

/// The status that answers a result.
pub open spec fn status_of_result(r: Result<RecordView, ErrorView>) -> u16 {
    match r {
        Ok(_) => 200,
        Err(error) => status_of(error.kind),
    }
}

/// The status that answers a failure of the given kind.
pub fn status_code(kind: ErrorKind) -> (status: u16)
    ensures
        status == status_of(kind),
{
    match kind {
        ErrorKind::MalformedRequest => 400,
        ErrorKind::NotFound => 404,
        ErrorKind::Conflict => 409,
        ErrorKind::StorageFailure => 500,
        ErrorKind::CorruptPayload => 500,
    }
}

/// The status that answers a result: 200 for a record, else the status
/// of the failure's kind.
pub fn response_status(result: &Result<Record, ServiceError>) -> (status: u16)
    ensures
        status == status_of_result(result_view(*result)),
{
    match result {
        Ok(_) => STATUS_OK,
        Err(error) => status_code(error.kind),
    }
}

/// Where a request stands. A request is received, decoded, serviced,
/// encoded and sent, in this order; at any step before it is sent it may
/// fail instead, with the status of the failure.
#[derive(Debug, Clone, Copy, PartialEq, Eq, Structural)]
pub enum RequestStage {
    Received,
    Decoded,
    Serviced,
    Encoded,
    Sent,
    Failed(u16),
}

impl RequestStage {
    /// Nothing follows a request that was sent or that failed.
    pub open spec fn is_final(self) -> bool {
        self == RequestStage::Sent || self is Failed
    }

    /// The stage after a step that went well.
    pub open spec fn successor(self) -> RequestStage {
        match self {
            RequestStage::Received => RequestStage::Decoded,
            RequestStage::Decoded => RequestStage::Serviced,
            RequestStage::Serviced => RequestStage::Encoded,
            RequestStage::Encoded => RequestStage::Sent,
            RequestStage::Sent => RequestStage::Sent,
            RequestStage::Failed(status) => RequestStage::Failed(status),
        }
    }

    /// Steps still to take until the request is sent, where every one of
    /// them goes well.
    pub open spec fn steps_left(self) -> nat {
        match self {
            RequestStage::Received => 4,
            RequestStage::Decoded => 3,
            RequestStage::Serviced => 2,
            RequestStage::Encoded => 1,
            RequestStage::Sent => 0,
            RequestStage::Failed(_) => 0,
        }
    }

    /// The stage after one step: a final stage stays, a failure leads to
    /// `Failed` with its status, anything else to the successor.
    pub open spec fn after(self, failure: Option<ErrorKind>) -> RequestStage {
        if self.is_final() {
            self
        } else {
            match failure {
                Some(kind) => RequestStage::Failed(status_of(kind)),
                None => self.successor(),
            }
        }
    }

    /// Whether nothing follows this stage.
    pub fn finished(&self) -> (r: bool)
        ensures
            r == self.is_final(),
    {
        match self {
            RequestStage::Sent => true,
            RequestStage::Failed(_) => true,
            _ => false,
        }
    }

    /// Takes one step: `failure` tells whether the step failed, and how.
    pub fn advance(self, failure: Option<ErrorKind>) -> (next: RequestStage)
        ensures
            next == self.after(failure),
    {
        match self {
            RequestStage::Sent => self,
            RequestStage::Failed(_) => self,
            _ => match failure {
                Some(kind) => RequestStage::Failed(status_code(kind)),
                None => match self {
                    RequestStage::Received => RequestStage::Decoded,
                    RequestStage::Decoded => RequestStage::Serviced,
                    RequestStage::Serviced => RequestStage::Encoded,
                    _ => RequestStage::Sent,
                },
            },
        }
    }
}

/// A step that goes well brings a request that is under way one step
/// nearer to being sent, and never makes it fail.
pub proof fn good_step_nears_the_end(stage: RequestStage)
    requires
        !stage.is_final(),
    ensures
        stage.after(None).steps_left() + 1 == stage.steps_left(),
        !(stage.after(None) is Failed),
        stage.after(None).steps_left() == 0 <==> stage.after(None) == RequestStage::Sent,
{
}

/// A step that fails ends the request with the status of the failure,
/// which is never that of a success.
pub proof fn failed_step_ends_the_request(stage: RequestStage, kind: ErrorKind)
    requires
        !stage.is_final(),
    ensures
        stage.after(Some(kind)) == RequestStage::Failed(status_of(kind)),
        stage.after(Some(kind)).is_final(),
        400 <= status_of(kind) <= 500,
{
}

/// The stage after `n` steps that all go well.
pub open spec fn after_good_steps(stage: RequestStage, n: nat) -> RequestStage
    decreases n,
{
    if n == 0 {
        stage
    } else {
        after_good_steps(stage.after(None), (n - 1) as nat)
    }
}

/// A request that has not failed is sent after as many good steps as it
/// has left: four for one that was just received.
pub proof fn good_steps_send(stage: RequestStage)
    requires
        !(stage is Failed),
    ensures
        after_good_steps(stage, stage.steps_left()) == RequestStage::Sent,
    decreases stage.steps_left(),
{
    if stage.steps_left() > 0 {
        good_steps_send(stage.after(None));
    }
}

} // verus!
