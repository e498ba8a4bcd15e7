//! Errors surfaced by the session to the client-facing caller.

use vstd::prelude::*;

verus! {

/// Why a session operation was rejected.
///
/// Validation failures are detected locally, before any device RPC is
/// issued; `Remote` carries the reason string reported by the
/// device-service thread; `NotAvailable` means the device-service thread
/// could not be reached at all.
#[derive(PartialEq, Eq, Debug)]
pub enum VRError {
    /// The display's capabilities report that it cannot present.
    CannotPresent,
    /// `request_present` was called with a layer sequence whose length is not 1.
    WrongLayerCount,
    /// A layer bounds array had a length other than 0 or 4.
    InvalidBounds,
    /// The layer's source did not resolve to a usable rendering surface.
    NoWebGLContext,
    /// `exit_present` was called while the session was idle.
    NotPresenting,
    /// The device-service thread is not reachable.
    NotAvailable,
    /// The device-service thread replied with a failure, carrying its reason.
    Remote(String),
}

impl VRError {
    /// The human-readable message used to reject the caller's promise.
    pub fn message(&self) -> (r: String)
        ensures
            r@ == self.message_spec(),
    {
        match self {
            VRError::CannotPresent => "VRDisplay canPresent is false".to_owned(),
            VRError::WrongLayerCount => "The number of layers must be 1".to_owned(),
            VRError::InvalidBounds => {
                "The number of values in the leftBounds/rightBounds arrays must be 0 or 4".to_owned()
            },
            VRError::NoWebGLContext => "VRLayer source must be a WebGL Context".to_owned(),
            VRError::NotPresenting => "VRDisplay is not presenting".to_owned(),
            VRError::NotAvailable => "Not available".to_owned(),
            VRError::Remote(reason) => reason.clone(),
        }
    }

    /// The message each variant carries, as a sequence of characters.
    pub open spec fn message_spec(&self) -> Seq<char> {
        match self {
            VRError::CannotPresent => "VRDisplay canPresent is false"@,
            VRError::WrongLayerCount => "The number of layers must be 1"@,
            VRError::InvalidBounds => {
                "The number of values in the leftBounds/rightBounds arrays must be 0 or 4"@
            },
            VRError::NoWebGLContext => "VRLayer source must be a WebGL Context"@,
            VRError::NotPresenting => "VRDisplay is not presenting"@,
            VRError::NotAvailable => "Not available"@,
            VRError::Remote(reason) => reason@,
        }
    }
}

} // verus!
