//! The message protocol spoken with the device-service thread, the
//! commands sent to the compositor/render thread, and the device events
//! fanned back out to sessions.
//!
//! On the wire each request that expects an answer carries a one-shot
//! reply channel. The channel endpoints belong to the transport, not to
//! the protocol's meaning, so the variants here carry only the request
//! data; the session API pairs each request with the reply value the
//! transport eventually delivers.

use vstd::prelude::*;

use crate::display_data::WebVRDisplayData;

verus! {

/// Every reply channel delivers exactly one message: the value, or a
/// failure reason from the driver.
pub type WebVRResult<T> = Result<T, String>;

/// A request to the device-service thread.
///
/// Pipeline identifiers name the client context; display identifiers
/// name the device. Depth values travel as 64-bit float bit patterns.
#[derive(PartialEq, Eq, Structural, Debug)]
pub enum WebVRMsg {
    /// Associate a client context with event fan-out. Fire-and-forget.
    RegisterContext(u64),
    /// Remove a client context from event fan-out. Fire-and-forget.
    UnregisterContext(u64),
    /// Ask whether events are pending; replies with a boolean.
    PollEvents,
    /// Enumerate the currently known displays; replies with descriptors.
    GetVRDisplays,
    /// Pull the latest pose for (pipeline, display, depth-near bits,
    /// depth-far bits); the device computes projections from the depth
    /// range. Replies with frame data.
    GetFrameData(u64, u64, u64, u64),
    /// Recenter the device-reported pose for (pipeline, display).
    /// Sent fire-and-forget by the session.
    ResetPose(u64, u64),
    /// Claim exclusive presentation rights on (pipeline, display);
    /// replies with the compositor device identifier.
    RequestPresent(u64, u64),
    /// Release presentation rights on (pipeline, display); replies with
    /// unit.
    ExitPresent(u64, u64),
    /// Shut the device-service thread down. Fire-and-forget.
    Exit,
}

/// Whether a request owes its sender exactly one reply.
pub open spec fn expects_reply(msg: WebVRMsg) -> bool {
    match msg {
        WebVRMsg::RegisterContext(_) => false,
        WebVRMsg::UnregisterContext(_) => false,
        WebVRMsg::ResetPose(_, _) => false,
        WebVRMsg::Exit => false,
        _ => true,
    }
}

/// The kind of compositor a presenting session is bound to. The
/// underlying driver exposes it as a small integer.
#[derive(Clone, Copy, PartialEq, Eq, Structural, Debug)]
pub struct WebVRDeviceType(pub u32);

impl WebVRDeviceType {
    /// The wire form of the device type.
    pub fn as_u32(&self) -> (r: u32)
        ensures
            r == self.0,
    {
        self.0
    }
}

/// A command to the compositor/render thread. All are fire-and-forget
/// except `SyncPoses`, which on the wire carries a reply channel.
#[verifier::ext_equal]
#[derive(Debug)]
pub enum VRCompositorCommand {
    /// Create the compositor session for this device.
    Create(u32),
    /// Synchronize poses for the coming frame; the compositor answers
    /// once the device is ready.
    SyncPoses(u32),
    /// Present the frame just rendered: device, left-eye bounds and
    /// right-eye bounds (four 32-bit float bit patterns each).
    SubmitFrame(u32, Vec<u32>, Vec<u32>),
    /// Release the compositor session.
    Release(u32),
}

/// Why a display was activated or deactivated.
#[derive(Clone, Copy, PartialEq, Eq, Structural, Debug)]
pub enum VRDisplayEventReason {
    /// The user navigated to the content.
    Navigation,
    /// The headset was put on.
    Mounted,
    /// The headset was taken off.
    Unmounted,
}

/// An asynchronous device event fanned out from the device-service
/// thread to a session. Each carries the fresh display descriptor it was
/// observed with, except `Disconnect`, which names the display.
#[verifier::ext_equal]
#[derive(Debug)]
pub enum VRDisplayEvent {
    /// A display was connected.
    Connect(WebVRDisplayData),
    /// The display with this identifier was disconnected.
    Disconnect(u64),
    /// The display was activated.
    Activate(WebVRDisplayData, VRDisplayEventReason),
    /// The display was deactivated.
    Deactivate(WebVRDisplayData, VRDisplayEventReason),
    /// The display lost focus.
    Blur(WebVRDisplayData),
    /// The display regained focus.
    Focus(WebVRDisplayData),
    /// The display's presenting state changed.
    PresentChange(WebVRDisplayData, bool),
    /// The descriptor changed without a client-visible event: the
    /// session updates its snapshot silently.
    Change(WebVRDisplayData),
}

} // verus!
