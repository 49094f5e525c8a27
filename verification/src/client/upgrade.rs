//! How a client turns a plain stream into a Loqui stream: it sends a request and awaits the
//! response. Each step takes what the stream did and says what it means.

use crate::error::{Failure, LoquiError};
use crate::frames::UpgradeFrame;
use vstd::prelude::*;

verus! {

/// The upgrade request is on its way.
pub struct UpgradeRequested {}

/// The upgrade request went out, and its answer is awaited.
pub struct UpgradeAwaited {}

/// What the upgrade comes to once the stream has been read for the answer.
pub open spec fn upgrade_result<E>(received: Option<Result<UpgradeFrame, E>>) -> Result<
    (),
    Failure<E>,
> {
    match received {
        Some(Ok(UpgradeFrame::Response)) => Ok(()),
        Some(Ok(frame)) => Err(Failure::Loqui(LoquiError::InvalidUpgradeFrame { frame })),
        Some(Err(e)) => Err(Failure::Other(e)),
        None => Err(Failure::Loqui(LoquiError::TcpStreamClosed)),
    }
}

impl UpgradeRequested {
    /// The stream was asked to write the request. If it failed to, it counts as closed, whatever
    /// its error was.
    pub fn written<E>(self, result: Result<(), E>) -> (r: Result<UpgradeAwaited, LoquiError>)
        ensures
            result is Ok ==> r is Ok,
            result is Err ==> r == Err::<UpgradeAwaited, LoquiError>(LoquiError::TcpStreamClosed),
    {
        match result {
            Ok(()) => Ok(UpgradeAwaited {  }),
            Err(_e) => Err(LoquiError::TcpStreamClosed),
        }
    }
}

impl UpgradeAwaited {
    /// The stream was read for the answer. The stream is upgraded if it was a response.
    pub fn received<E>(self, received: Option<Result<UpgradeFrame, E>>) -> (r: Result<
        (),
        Failure<E>,
    >)
        ensures
            r == upgrade_result(received),
    {
        match received {
            Some(Ok(UpgradeFrame::Response)) => Ok(()),
            Some(Ok(frame)) => Err(Failure::Loqui(LoquiError::InvalidUpgradeFrame { frame })),
            Some(Err(e)) => Err(Failure::Other(e)),
            None => Err(Failure::Loqui(LoquiError::TcpStreamClosed)),
        }
    }
}

} // verus!
