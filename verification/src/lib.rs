//! Verified core of a WebVR display session.
//!
//! The library models the client-side state machine that coordinates
//! exclusive presentation rights on a virtual-reality display: layer
//! validation, the idle/presenting transition, the request/reply protocol
//! spoken with the device-service thread, the per-session animation-frame
//! callback registry, and the frame-synchronization loop that paces
//! callback dispatch to the compositor.
//!
//! Floating-point quantities (depth range, layer bounds, matrices, poses)
//! are carried as their IEEE 754 bit patterns (`u32` for 32-bit values,
//! `u64` for 64-bit values): the session logic never does arithmetic on
//! them, it only validates, stores and forwards them, so the bit pattern
//! carries the value exactly.

pub mod bits;
pub mod display_data;
pub mod error;
pub mod frame_data;
pub mod layer;
pub mod protocol;
pub mod router;
pub mod sync_loop;
pub mod vrdisplay;

pub use error::VRError;
pub use frame_data::VRFrameData;
pub use sync_loop::FrameSyncLoop;
pub use vrdisplay::VRDisplay;
