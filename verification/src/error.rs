use vstd::prelude::*;

verus! {

/// Every failure a runtime operation can report.
///
/// The boundary layer is the only place that turns one of these into a
/// protocol status code; inside the library each operation states exactly
/// which variant it returns and on which inputs.
#[derive(Clone, Copy, Debug, PartialEq, Eq, Structural)]
pub enum Error {
    /// Malformed or missing required argument.
    Validation,
    /// A null or otherwise unusable handle was passed.
    HandleInvalid,
    /// The instance handle does not name a live instance.
    InstanceLost,
    /// The session handle does not name a live session.
    SessionLost,
    /// A handle does not name a live object of the queried family.
    ObjectDoesNotExist,
    /// Operation attempted outside its required state-machine state.
    CallOrderInvalid,
    /// Enumeration called with a non-zero but wrong output capacity.
    SizeInsufficient,
    /// Functionally unimplemented stub.
    Unsupported,
    /// The requested form factor is not the simulated head-mounted display.
    FormFactorUnsupported,
    /// The system id does not match the simulated head-mounted display.
    SystemInvalid,
    /// No usable graphics binding was supplied at session creation.
    GraphicsDeviceInvalid,
    /// Session begin attempted while the session is already running.
    SessionRunning,
    /// Session begin attempted while the session is not in the ready state.
    SessionNotReady,
    /// Operation requires a running session.
    SessionNotRunning,
    /// Session end attempted while the session is not stopping.
    SessionNotStopping,
    /// An action set or swapchain was attached twice.
    ActionSetsAlreadyAttached,
    /// An action's action set is not attached to the session.
    ActionSetNotAttached,
    /// The action stores a value of a different type than requested.
    ActionTypeMismatch,
    /// The path id was never registered with the instance.
    PathInvalid,
    /// The path is outside the supported top-level user paths.
    PathUnsupported,
    /// The requested swapchain format is not in the supported list.
    SwapchainFormatUnsupported,
    /// Only the primary stereo view configuration is supported.
    ViewConfigurationTypeUnsupported,
    /// Reference space bounds are never available in the simulator.
    SpaceBoundsUnavailable,
    /// Creating an instance from an existing instance is refused.
    RuntimeUnavailable,
    /// The instance is not in the state this operation requires.
    InstanceStateInvalid,
    /// The loader and runtime share no interface version.
    InitializationFailed,
    /// An unexpected internal failure.
    RuntimeFailure,
}

} // verus!
