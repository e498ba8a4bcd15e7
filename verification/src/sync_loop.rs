//! The frame-synchronization loop: the state machine of the background
//! thread that paces callback dispatch to the compositor while a
//! session presents.
//!
//! The thread itself belongs to the host; this type decides every step.
//! It encodes the back-pressure guarantee by construction: a new
//! pose-sync command can only be produced in the `AwaitingSync` phase,
//! and the only way back to `AwaitingSync` after a successful sync is
//! `on_dispatch_complete` — so the next frame's sync is never requested
//! before the previous frame's callbacks have fully drained.

use vstd::prelude::*;

use crate::protocol::{VRCompositorCommand, WebVRResult};

verus! {

/// Where the loop stands.
#[derive(Clone, Copy, PartialEq, Eq, Structural, Debug)]
pub enum SyncPhase {
    /// A pose-sync command should be sent and its reply awaited.
    AwaitingSync,
    /// Poses are synchronized; the control thread is draining the
    /// callback registry and will signal completion.
    AwaitingDispatch,
    /// A pose sync failed — the compositor session was released or the
    /// compositor hit an unrecoverable error — and the loop is over for
    /// good. This is the only termination path.
    Terminated,
}

/// What the loop thread must do next after a pose-sync reply.
#[derive(Clone, Copy, PartialEq, Eq, Structural, Debug)]
pub enum SyncAction {
    /// Ask the control thread to dispatch the pending frame callbacks,
    /// then block on its completion signal.
    DispatchCallbacks,
    /// Stop the loop thread permanently.
    Stop,
}

/// One presenting session's synchronization loop.
#[derive(Clone, Copy, PartialEq, Eq, Structural, Debug)]
pub struct FrameSyncLoop {
    /// The compositor session this loop drives.
    pub compositor_id: u32,
    /// Where the loop stands.
    pub phase: SyncPhase,
}

impl FrameSyncLoop {
    /// Start a loop for a freshly acquired compositor session.
    pub fn new(compositor_id: u32) -> (r: FrameSyncLoop)
        ensures
            r.compositor_id == compositor_id,
            r.phase == SyncPhase::AwaitingSync,
    {
        FrameSyncLoop { compositor_id, phase: SyncPhase::AwaitingSync }
    }

    /// The command sent exactly once, before the first sync: create the
    /// compositor session.
    pub fn create_command(&self) -> (r: VRCompositorCommand)
        ensures
            r == VRCompositorCommand::Create(self.compositor_id),
    {
        VRCompositorCommand::Create(self.compositor_id)
    }

    /// The pose-sync command for the coming frame. Only available while
    /// a sync is due, which enforces one sync in flight at a time.
    pub fn sync_poses_command(&self) -> (r: VRCompositorCommand)
        requires
            self.phase == SyncPhase::AwaitingSync,
        ensures
            r == VRCompositorCommand::SyncPoses(self.compositor_id),
    {
        VRCompositorCommand::SyncPoses(self.compositor_id)
    }

    /// Take the compositor's reply to a pose sync. Success moves on to
    /// callback dispatch; failure terminates the loop permanently.
    pub fn on_sync_reply(&mut self, reply: WebVRResult<()>) -> (r: SyncAction)
        requires
            old(self).phase == SyncPhase::AwaitingSync,
        ensures
            final(self).compositor_id == old(self).compositor_id,
            match reply {
                Ok(_) => r == SyncAction::DispatchCallbacks && final(self).phase
                    == SyncPhase::AwaitingDispatch,
                Err(_) => r == SyncAction::Stop && final(self).phase == SyncPhase::Terminated,
            },
    {
        match reply {
            Ok(()) => {
                self.phase = SyncPhase::AwaitingDispatch;
                SyncAction::DispatchCallbacks
            },
            Err(_e) => {
                self.phase = SyncPhase::Terminated;
                SyncAction::Stop
            },
        }
    }

    /// Take the control thread's signal that the callback batch has
    /// fully drained: the next frame's sync becomes due.
    pub fn on_dispatch_complete(&mut self)
        requires
            old(self).phase == SyncPhase::AwaitingDispatch,
        ensures
            final(self).compositor_id == old(self).compositor_id,
            final(self).phase == SyncPhase::AwaitingSync,
    {
        self.phase = SyncPhase::AwaitingSync;
    }

    /// Whether the loop is still alive.
    pub fn is_running(&self) -> (r: bool)
        ensures
            r == (self.phase != SyncPhase::Terminated),
    {
        match self.phase {
            SyncPhase::Terminated => false,
            _ => true,
        }
    }
}

} // verus!
