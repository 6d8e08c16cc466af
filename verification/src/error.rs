use vstd::prelude::*;
use vstd::string::*;

verus! {

/// Failures of the platform layer, each with a description.
#[derive(Debug, Clone)]
pub enum PlatformError {
    WaylandConnection(String),
    EventLoop(String),
    FdError(String),
}

/// Result of a platform operation.
pub type PlatformResult<T> = Result<T, PlatformError>;

impl PlatformError {
    /// Text of the error as the platform reports it.
    pub fn message(&self) -> (r: String)
        ensures
            r@ == match self {
                PlatformError::WaylandConnection(m) => "Wayland connection failed: "@ + m@,
                PlatformError::EventLoop(m) => "Event loop error: "@ + m@,
                PlatformError::FdError(m) => "File descriptor error: "@ + m@,
            },
    {
        match self {
            PlatformError::WaylandConnection(m) => String::from_str("Wayland connection failed: ").concat(
                m.as_str(),
            ),
            PlatformError::EventLoop(m) => String::from_str("Event loop error: ").concat(m.as_str()),
            PlatformError::FdError(m) => String::from_str("File descriptor error: ").concat(m.as_str()),
        }
    }
}

} // verus!
