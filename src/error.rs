use vstd::prelude::*;

verus! {

/// Failures reported by the session, the swapchains and the frame loop.
#[derive(Clone, Copy, Debug, PartialEq, Eq, Structural)]
pub enum XrError {
    /// A requested extension is not offered by the runtime.
    ExtensionNotSupported,
    /// A runtime event or a request that the session state table does not allow.
    InvalidStateTransition,
    /// The session is not in a state that allows the request.
    SessionNotReady,
    /// The instance is being lost or is gone; no further frame work is possible.
    SessionLost,
    /// An image was acquired twice for one eye without a release in between.
    AlreadyAcquired,
    /// An image was waited on or released for an eye that holds none.
    NotAcquired,
    /// Waiting for an acquired image ran out of time.
    AcquireTimeout,
    /// The runtime handed over a swapchain with no images.
    EmptyImagePool,
    /// A frame loop report arrived that does not answer the pending request.
    OutOfOrder,
    /// The runtime rejected the start of a frame.
    BeginFrameFailed,
    /// The runtime rejected the submission of a frame.
    EndFrameFailed,
}

} // verus!
