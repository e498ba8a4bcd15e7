//! The device-service router's client registry.
//!
//! A single dedicated thread owns all device handles and processes one
//! request at a time; the thread and the drivers belong to the host.
//! What is modeled here is the state that thread owns for event
//! fan-out: which client contexts are registered, in registration
//! order. Asynchronous device events are delivered to every registered
//! context; the per-client occurrence order is preserved by the
//! ordered, reliable channel each client is reached over.

use vstd::prelude::*;

use crate::protocol::{expects_reply, WebVRMsg};

verus! {

/// A registry of client contexts after removing one: the order of the
/// others is kept.
pub open spec fn without(l: Seq<u64>, v: u64) -> Seq<u64>
    decreases l.len(),
{
    if l.len() == 0 {
        Seq::empty()
    } else {
        let rest = without(l.drop_last(), v);
        if l.last() == v {
            rest
        } else {
            rest.push(l.last())
        }
    }
}

/// The state the device-service thread owns for event fan-out.
#[verifier::ext_equal]
#[derive(Debug)]
pub struct WebVRThread {
    /// Registered client contexts, in registration order, each at most
    /// once.
    pub contexts: Vec<u64>,
}

impl WebVRThread {
    /// The registry invariant: each context is registered at most once.
    pub open spec fn well_formed(&self) -> bool {
        forall|i: int, j: int| 0 <= i < j < self.contexts@.len() ==> self.contexts@[i]
            != self.contexts@[j]
    }

    /// A router with no registered clients.
    pub fn new() -> (r: WebVRThread)
        ensures
            r.well_formed(),
            r.contexts@.len() == 0,
    {
        WebVRThread { contexts: Vec::new() }
    }

    /// Whether a context is registered.
    pub fn is_registered(&self, pipeline_id: u64) -> (r: bool)
        ensures
            r == self.contexts@.contains(pipeline_id),
    {
        let mut i: usize = 0;
        while i < self.contexts.len()
            invariant
                i <= self.contexts@.len(),
                forall|j: int| 0 <= j < i ==> self.contexts@[j] != pipeline_id,
            decreases self.contexts@.len() - i,
        {
            if self.contexts[i] == pipeline_id {
                return true;
            }
            i = i + 1;
        }
        false
    }

    /// Associate a client context with event fan-out. Registering a
    /// context twice leaves the registry as it was.
    pub fn register_context(&mut self, pipeline_id: u64)
        requires
            old(self).well_formed(),
        ensures
            final(self).well_formed(),
            old(self).contexts@.contains(pipeline_id) ==> final(self).contexts@
                == old(self).contexts@,
            !old(self).contexts@.contains(pipeline_id) ==> final(self).contexts@
                == old(self).contexts@.push(pipeline_id),
    {
        if !self.is_registered(pipeline_id) {
            self.contexts.push(pipeline_id);
        }
    }

    /// Remove a client context from event fan-out. The order of the
    /// remaining contexts is kept; an unknown context leaves the
    /// registry as it was.
    pub fn unregister_context(&mut self, pipeline_id: u64)
        requires
            old(self).well_formed(),
        ensures
            final(self).well_formed(),
            final(self).contexts@ == without(old(self).contexts@, pipeline_id),
    {
        let ghost pre = self.contexts@;
        let mut kept: Vec<u64> = Vec::new();
        let mut i: usize = 0;
        while i < self.contexts.len()
            invariant
                i <= self.contexts@.len(),
                self.contexts@ == pre,
                kept@ == without(pre.take(i as int), pipeline_id),
                forall|a: int, b: int| 0 <= a < b < pre.len() ==> pre[a] != pre[b],
                forall|a: int, b: int| 0 <= a < b < kept@.len() ==> kept@[a] != kept@[b],
                forall|a: int| 0 <= a < kept@.len() ==> exists|b: int|
                    0 <= b < i && pre[b] == #[trigger] kept@[a],
            decreases self.contexts@.len() - i,
        {
            proof {
                assert(pre.take(i + 1).drop_last() =~= pre.take(i as int));
                assert(pre.take(i + 1).last() == pre[i as int]);
            }
            let c = self.contexts[i];
            if c != pipeline_id {
                proof {
                    assert forall|a: int| 0 <= a < kept@.len() implies #[trigger] kept@[a]
                        != pre[i as int] by {
                        let b = choose|b: int| 0 <= b < i && pre[b] == kept@[a];
                        assert(pre[b] != pre[i as int]);
                    }
                }
                kept.push(c);
            }
            i = i + 1;
        }
        proof {
            assert(pre.take(pre.len() as int) =~= pre);
        }
        self.contexts = kept;
    }

    /// The contexts an event is fanned out to, in registration order.
    pub fn event_targets(&self) -> (r: &Vec<u64>)
        ensures
            r@ == self.contexts@,
    {
        &self.contexts
    }

    /// Apply one of the registry's own fire-and-forget requests and say
    /// whether it was one. Requests that need a device driver or a
    /// reply channel are not handled here.
    pub fn handle_control_message(&mut self, msg: &WebVRMsg) -> (handled: bool)
        requires
            old(self).well_formed(),
        ensures
            final(self).well_formed(),
            match *msg {
                WebVRMsg::RegisterContext(p) => {
                    &&& handled
                    &&& old(self).contexts@.contains(p) ==> final(self).contexts@
                        == old(self).contexts@
                    &&& !old(self).contexts@.contains(p) ==> final(self).contexts@
                        == old(self).contexts@.push(p)
                },
                WebVRMsg::UnregisterContext(p) => {
                    &&& handled
                    &&& final(self).contexts@ == without(old(self).contexts@, p)
                },
                _ => !handled && *final(self) == *old(self),
            },
    {
        match msg {
            WebVRMsg::RegisterContext(p) => {
                self.register_context(*p);
                true
            },
            WebVRMsg::UnregisterContext(p) => {
                self.unregister_context(*p);
                true
            },
            _ => false,
        }
    }
}

/// Whether a request owes exactly one reply over its caller's one-shot
/// channel; the executable mirror of `expects_reply`.
pub fn request_expects_reply(msg: &WebVRMsg) -> (r: bool)
    ensures
        r == expects_reply(*msg),
{
    match msg {
        WebVRMsg::RegisterContext(_) => false,
        WebVRMsg::UnregisterContext(_) => false,
        WebVRMsg::ResetPose(_, _) => false,
        WebVRMsg::Exit => false,
        WebVRMsg::PollEvents => true,
        WebVRMsg::GetVRDisplays => true,
        WebVRMsg::GetFrameData(_, _, _, _) => true,
        WebVRMsg::RequestPresent(_, _) => true,
        WebVRMsg::ExitPresent(_, _) => true,
    }
}

} // verus!
