//! The error value that every stage of the initialization chain returns.

use vstd::prelude::*;
use vstd::string::*;

verus! {

/// The closed set of failure kinds.
#[derive(Debug, Clone, Copy, PartialEq, Eq, Structural)]
pub enum RHIErrorEnum {
    /// Instance, device or queue discovery failed, or a mandatory capability is missing.
    InitializationError,
    /// Device, queue, swapchain or render pass creation failed after device selection.
    LogicalDeviceError,
}

impl RHIErrorEnum {
    /// The kind's name as it is printed.
    pub open spec fn name(self) -> Seq<char> {
        match self {
            RHIErrorEnum::InitializationError => "InitializationError"@,
            RHIErrorEnum::LogicalDeviceError => "LogicalDeviceError"@,
        }
    }

    /// The kind's name as it is printed.
    pub fn as_str(self) -> (s: &'static str)
        ensures
            s@ == self.name(),
    {
        match self {
            RHIErrorEnum::InitializationError => "InitializationError",
            RHIErrorEnum::LogicalDeviceError => "LogicalDeviceError",
        }
    }
}

/// A failure: the backend that reported it, its kind, and a message.
#[derive(Debug, Clone, Copy, PartialEq, Eq)]
pub struct RHIError {
    pub rhi: &'static str,
    pub kind: RHIErrorEnum,
    pub message: &'static str,
}

impl RHIError {
    /// The text of an error: backend, kind and message.
    pub open spec fn text(self) -> Seq<char> {
        self.rhi@ + " -|- "@ + self.kind.name() + ": "@ + self.message@
    }

    /// Whether this error has the given kind and message.
    pub open spec fn says(self, kind: RHIErrorEnum, message: Seq<char>) -> bool {
        self.kind == kind && self.message@ == message
    }

    /// An error of the given backend, kind and message.
    pub fn new(rhi: &'static str, kind: RHIErrorEnum, message: &'static str) -> (e: Self)
        ensures
            e.rhi == rhi,
            e.kind == kind,
            e.message == message,
    {
        Self { rhi, kind, message }
    }

    /// Renders the error as `<backend> -|- <kind>: <message>`.
    pub fn to_string(&self) -> (s: String)
        ensures
            s@ == self.text(),
    {
        let mut s = String::from_str(self.rhi);
        s.append(" -|- ");
        s.append(self.kind.as_str());
        s.append(": ");
        s.append(self.message);
        s
    }
}

} // verus!
