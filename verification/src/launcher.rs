//! The HTTP/WS server launcher: bind first, then run.
//!
//! Binding and serving are two observable stages — a caller can
//! inspect a bound-but-not-yet-serving server before committing to an
//! accept loop that runs for the life of the process. A failed bind is
//! reported to the caller, never fatal. The socket work itself lives
//! outside the library; the stage transitions are decided here.

use vstd::prelude::*;

verus! {

/// Stage of the HTTP/WS server's lifecycle.
#[derive(Clone, Copy, Debug, PartialEq, Eq, Structural)]
pub enum ServerStage {
    /// Built with an address, a backend handle and a configuration;
    /// no socket exists yet.
    Configured,
    /// The listening socket is bound; the accept loop has not started.
    Bound,
    /// The accept loop is running; it runs until the process ends or
    /// the listener errors.
    Serving,
    /// The bind failed; the server never ran.
    Failed,
}

/// What the socket layer reported when asked to bind.
#[derive(Clone, Copy, Debug, PartialEq, Eq, Structural)]
pub enum BindOutcome {
    /// The address was bound.
    Bound,
    /// The address is already in use.
    AddressInUse,
    /// The address is invalid.
    InvalidAddress,
    /// Binding the address was not permitted.
    PermissionDenied,
}

/// An error reported to the caller when the server could not bind.
#[derive(Clone, Copy, Debug, PartialEq, Eq, Structural)]
pub enum BindError {
    /// The address is already in use.
    AddressInUse,
    /// The address is invalid.
    InvalidAddress,
    /// Binding the address was not permitted.
    PermissionDenied,
}

/// The HTTP/WS server, reduced to the stage of its lifecycle.
#[derive(Clone, Copy, Debug)]
pub struct ServerLauncher {
    /// Current stage; moves `Configured` to `Bound` to `Serving`, or
    /// `Configured` to `Failed`.
    pub stage: ServerStage,
}

/// The error that a bind outcome is reported as, when it is a failure.
pub open spec fn spec_bind_error(r: BindOutcome) -> BindError {
    match r {
        BindOutcome::AddressInUse => BindError::AddressInUse,
        BindOutcome::InvalidAddress => BindError::InvalidAddress,
        _ => BindError::PermissionDenied,
    }
}

impl ServerLauncher {
    /// A server that holds its configuration and has not touched the
    /// network.
    pub fn new() -> (r: ServerLauncher)
        ensures
            r.stage == ServerStage::Configured,
    {
        ServerLauncher { stage: ServerStage::Configured }
    }

    /// Record what binding the listening socket came to. Success makes
    /// the server bound — observable before it serves anything — and
    /// each failure is reported as the matching error, exactly when
    /// the socket layer reported one.
    pub fn on_bind(&mut self, r: BindOutcome) -> (res: Result<(), BindError>)
        requires
            old(self).stage == ServerStage::Configured,
        ensures
            res is Ok <==> r == BindOutcome::Bound,
            res is Ok <==> final(self).stage == ServerStage::Bound,
            res is Err <==> final(self).stage == ServerStage::Failed,
            res matches Err(e) ==> e == spec_bind_error(r),
    {
        match r {
            BindOutcome::Bound => {
                self.stage = ServerStage::Bound;
                Ok(())
            },
            BindOutcome::AddressInUse => {
                self.stage = ServerStage::Failed;
                Err(BindError::AddressInUse)
            },
            BindOutcome::InvalidAddress => {
                self.stage = ServerStage::Failed;
                Err(BindError::InvalidAddress)
            },
            BindOutcome::PermissionDenied => {
                self.stage = ServerStage::Failed;
                Err(BindError::PermissionDenied)
            },
        }
    }

    /// Commit a bound server to its accept loop: only a server that
    /// was first observed bound can start serving.
    pub fn start(&mut self)
        requires
            old(self).stage == ServerStage::Bound,
        ensures
            final(self).stage == ServerStage::Serving,
    {
        self.stage = ServerStage::Serving;
    }
}

} // verus!
