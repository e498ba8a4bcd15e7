//! The per-display, per-client session state machine.
//!
//! A session is exclusively owned by its control thread: every mutation
//! happens there. Operations that need the device-service thread are
//! split in two: a local step that validates and says which request to
//! send (or that none is needed), and a completion step that takes the
//! reply and performs the transition. The split makes "no RPC is issued"
//! facts part of the contract: a request value exists only when the
//! local step returns one.

use vstd::prelude::*;

use crate::display_data::{VRDisplayCapabilities, VREye, VRStageParameters, WebVRDisplayData,
    WebVREyeParameters};
use crate::error::VRError;
use crate::frame_data::{pose_eq, VRFrameData, VRPose, WebVRFrameData};
use crate::layer::{default_left_bounds, default_right_bounds, layer_valid, parsed_bounds,
    validate_layer, VRLayer, WebVRLayer};
use crate::protocol::{VRCompositorCommand, VRDisplayEvent, WebVRDeviceType, WebVRMsg, WebVRResult};
use crate::bits::copy_bits32;

verus! {

/// Bit pattern of the 64-bit float 0.01, the default near depth.
pub const DEFAULT_DEPTH_NEAR_BITS: u64 = 0x3F84_7AE1_47AE_147B;

/// Bit pattern of the 64-bit float 10000.0, the default far depth.
pub const DEFAULT_DEPTH_FAR_BITS: u64 = 0x40C3_8800_0000_0000;

/// Whether a 64-bit float bit pattern denotes a finite value: its
/// exponent field is not all ones.
pub open spec fn f64_bits_finite(bits: u64) -> bool {
    (bits >> 52) & 0x7ff != 0x7ff
}

/// What the local step of `request_present` decided.
#[derive(Debug)]
pub enum RequestPresentStep {
    /// Validation failed: the caller's promise is rejected with this
    /// error and no request is sent.
    Rejected(VRError),
    /// The session was already presenting: the new layer is stored and
    /// the caller's promise resolves immediately; no request is sent.
    LayerUpdated,
    /// The session is idle and the layer is valid: send the request,
    /// then hand the reply together with the validated layer and surface
    /// handle to `request_present_complete`.
    RpcNeeded(WebVRLayer, u32, WebVRMsg),
}

/// Where an animation-frame registration went.
#[derive(Clone, Copy, PartialEq, Eq, Structural, Debug)]
pub enum RafOutcome {
    /// The session is presenting: the callback joined the session
    /// registry under this handle.
    Scheduled(u32),
    /// The session is idle: the hosting surface's generic scheduler is
    /// responsible.
    Delegated,
}

/// Where an animation-frame cancellation went.
#[derive(Clone, Copy, PartialEq, Eq, Structural, Debug)]
pub enum CancelOutcome {
    /// The session is presenting: the registry entry, if any, was
    /// cleared.
    Handled,
    /// The session is idle: the hosting surface's generic scheduler is
    /// responsible.
    Delegated,
}

/// The callback registry after clearing one handle: entries keep their
/// place, the matching entry loses its payload.
pub open spec fn clear_handle(l: Seq<(u32, Option<u64>)>, handle: u32) -> Seq<(u32, Option<u64>)> {
    l.map(|i: int, e: (u32, Option<u64>)| if e.0 == handle {
        (e.0, None::<u64>)
    } else {
        e
    })
}

/// Whether any entry carries this handle.
pub open spec fn has_handle(l: Seq<(u32, Option<u64>)>, handle: u32) -> bool {
    exists|i: int| 0 <= i < l.len() && l[i].0 == handle
}

/// Whether the entry with this handle would still fire in a drain.
pub open spec fn will_dispatch(l: Seq<(u32, Option<u64>)>, handle: u32) -> bool {
    exists|i: int| 0 <= i < l.len() && l[i].0 == handle && l[i].1 is Some
}

/// The registry entries that a drain dispatches: those whose payload is
/// still present, as (handle, callback), in registration order.
pub open spec fn live_entries(l: Seq<(u32, Option<u64>)>) -> Seq<(u32, u64)>
    decreases l.len(),
{
    if l.len() == 0 {
        Seq::empty()
    } else {
        let rest = live_entries(l.drop_last());
        match l.last().1 {
            Some(cb) => rest.push((l.last().0, cb)),
            None => rest,
        }
    }
}

/// The callbacks a drain dispatches, in registration order.
pub open spec fn live_tokens(l: Seq<(u32, Option<u64>)>) -> Seq<u64> {
    live_entries(l).map_values(|e: (u32, u64)| e.1)
}

/// The callback registry's shape: handles were allocated below
/// `next_raf_id` and in strictly increasing order.
pub open spec fn raf_list_well_formed(l: Seq<(u32, Option<u64>)>, next_raf_id: u32) -> bool {
    &&& forall|i: int| 0 <= i < l.len() ==> #[trigger] l[i].0 < next_raf_id
    &&& forall|i: int, j: int| 0 <= i < j < l.len() ==> #[trigger] l[i].0 < #[trigger] l[j].0
}

/// One client's session on one display.
#[verifier::ext_equal]
#[derive(Debug)]
pub struct VRDisplay {
    /// The client context this session belongs to, named in every
    /// request to the device-service thread.
    pub pipeline_id: u64,
    /// The latest display descriptor, replaced wholesale on device
    /// events.
    pub display: WebVRDisplayData,
    /// Near depth, as 64-bit float bits. Always finite.
    pub depth_near_bits: u64,
    /// Far depth, as 64-bit float bits. Always finite.
    pub depth_far_bits: u64,
    /// Whether this session holds exclusive presentation rights.
    pub presenting: bool,
    /// The layer shown while presenting.
    pub layer: WebVRLayer,
    /// Handle of the rendering surface backing the layer.
    pub layer_ctx: Option<u32>,
    /// The last successfully fetched frame data; stale but served when a
    /// refresh fails.
    pub frame_data: WebVRFrameData,
    /// The compositor session, present exactly while presenting.
    pub compositor_id: Option<WebVRDeviceType>,
    /// The next animation-frame handle to hand out.
    pub next_raf_id: u32,
    /// The callback registry: (handle, callback), cancellation clears
    /// the payload but keeps the entry.
    pub raf_callback_list: Vec<(u32, Option<u64>)>,
}

impl VRDisplay {
    /// The session invariant: the stored layer is complete, a compositor
    /// session exists exactly while presenting, a presenting session has
    /// a rendering surface, depths are finite, and callback handles were
    /// handed out in order starting at 1.
    pub open spec fn well_formed(&self) -> bool {
        &&& self.layer.well_formed()
        &&& (self.presenting <==> self.compositor_id is Some)
        &&& (self.presenting ==> self.layer_ctx is Some)
        &&& f64_bits_finite(self.depth_near_bits)
        &&& f64_bits_finite(self.depth_far_bits)
        &&& self.next_raf_id >= 1
        &&& raf_list_well_formed(self.raf_callback_list@, self.next_raf_id)
    }

    /// Create an idle session for one display and one client context.
    pub fn new(pipeline_id: u64, display: WebVRDisplayData) -> (r: VRDisplay)
        ensures
            r.well_formed(),
            r.pipeline_id == pipeline_id,
            r.display == display,
            r.depth_near_bits == DEFAULT_DEPTH_NEAR_BITS,
            r.depth_far_bits == DEFAULT_DEPTH_FAR_BITS,
            !r.presenting,
            r.layer_ctx is None,
            r.compositor_id is None,
            r.next_raf_id == 1,
            r.raf_callback_list@.len() == 0,
            r.frame_data.timestamp == 0,
            r.frame_data.well_formed(),
    {
        proof {
            assert(f64_bits_finite(DEFAULT_DEPTH_NEAR_BITS)) by (bit_vector);
            assert(f64_bits_finite(DEFAULT_DEPTH_FAR_BITS)) by (bit_vector);
        }
        VRDisplay {
            pipeline_id,
            display,
            depth_near_bits: DEFAULT_DEPTH_NEAR_BITS,
            depth_far_bits: DEFAULT_DEPTH_FAR_BITS,
            presenting: false,
            layer: WebVRLayer::default(),
            layer_ctx: None,
            frame_data: WebVRFrameData::empty(),
            compositor_id: None,
            next_raf_id: 1,
            raf_callback_list: Vec::new(),
        }
    }

    /// Whether the device is currently connected.
    pub fn is_connected(&self) -> (r: bool)
        ensures
            r == self.display.connected,
    {
        self.display.connected
    }

    /// Whether this session is presenting.
    pub fn is_presenting(&self) -> (r: bool)
        ensures
            r == self.presenting,
    {
        self.presenting
    }

    /// The display's capability flags.
    pub fn capabilities(&self) -> (r: VRDisplayCapabilities)
        ensures
            r == self.display.capabilities,
    {
        self.display.capabilities
    }

    /// The display's stage parameters, when it defines a play area.
    pub fn stage_parameters(&self) -> (r: &Option<VRStageParameters>)
        ensures
            *r == self.display.stage_parameters,
    {
        &self.display.stage_parameters
    }

    /// The rendering parameters of one eye.
    pub fn get_eye_parameters(&self, eye: VREye) -> (r: &WebVREyeParameters)
        ensures
            eye == VREye::Left ==> *r == self.display.left_eye_parameters,
            eye == VREye::Right ==> *r == self.display.right_eye_parameters,
    {
        match eye {
            VREye::Left => &self.display.left_eye_parameters,
            VREye::Right => &self.display.right_eye_parameters,
        }
    }

    /// The display's stable identifier.
    pub fn get_display_id(&self) -> (r: u64)
        ensures
            r == self.display.display_id,
    {
        self.display.display_id
    }

    /// The display's human-readable name.
    pub fn display_name(&self) -> (r: &String)
        ensures
            r@ == self.display.display_name@,
    {
        &self.display.display_name
    }

    /// The near depth, as 64-bit float bits.
    pub fn depth_near(&self) -> (r: u64)
        ensures
            r == self.depth_near_bits,
    {
        self.depth_near_bits
    }

    /// Set the near depth. Non-finite values are rejected before they
    /// reach the session, so only finite bit patterns arrive here.
    pub fn set_depth_near(&mut self, value: u64)
        requires
            old(self).well_formed(),
            f64_bits_finite(value),
        ensures
            final(self).well_formed(),
            *final(self) == (VRDisplay { depth_near_bits: value, ..*old(self) }),
    {
        self.depth_near_bits = value;
    }

    /// The far depth, as 64-bit float bits.
    pub fn depth_far(&self) -> (r: u64)
        ensures
            r == self.depth_far_bits,
    {
        self.depth_far_bits
    }

    /// Set the far depth. Non-finite values are rejected before they
    /// reach the session, so only finite bit patterns arrive here.
    pub fn set_depth_far(&mut self, value: u64)
        requires
            old(self).well_formed(),
            f64_bits_finite(value),
        ensures
            final(self).well_formed(),
            *final(self) == (VRDisplay { depth_far_bits: value, ..*old(self) }),
    {
        self.depth_far_bits = value;
    }

    /// Replace the display descriptor wholesale.
    pub fn update_display(&mut self, display: WebVRDisplayData)
        requires
            old(self).well_formed(),
        ensures
            final(self).well_formed(),
            *final(self) == (VRDisplay { display, ..*old(self) }),
    {
        self.display = display;
    }

    /// Apply one asynchronous device event and say whether the client
    /// must be notified.
    ///
    /// Every event replaces the descriptor snapshot; `Disconnect` only
    /// clears the connected flag. `Change` is deliberately silent: it
    /// updates the descriptor without a client-visible event. A
    /// `PresentChange` that reports presentation can only confirm a
    /// presentation this session itself started: without a compositor
    /// session the flag is left alone, which keeps the invariant that a
    /// compositor session exists exactly while presenting.
    pub fn handle_webvr_event(&mut self, event: VRDisplayEvent) -> (notify: bool)
        requires
            old(self).well_formed(),
        ensures
            final(self).well_formed(),
            match event {
                VRDisplayEvent::Connect(d) => {
                    &&& !notify
                    &&& *final(self) == (VRDisplay { display: d, ..*old(self) })
                },
                VRDisplayEvent::Disconnect(_) => {
                    &&& !notify
                    &&& *final(self) == (VRDisplay {
                        display: (WebVRDisplayData { connected: false, ..old(self).display }),
                        ..*old(self)
                    })
                },
                VRDisplayEvent::Activate(d, _) => {
                    &&& notify
                    &&& *final(self) == (VRDisplay { display: d, ..*old(self) })
                },
                VRDisplayEvent::Deactivate(d, _) => {
                    &&& notify
                    &&& *final(self) == (VRDisplay { display: d, ..*old(self) })
                },
                VRDisplayEvent::Blur(d) => {
                    &&& notify
                    &&& *final(self) == (VRDisplay { display: d, ..*old(self) })
                },
                VRDisplayEvent::Focus(d) => {
                    &&& notify
                    &&& *final(self) == (VRDisplay { display: d, ..*old(self) })
                },
                VRDisplayEvent::PresentChange(d, p) => {
                    &&& notify
                    &&& *final(self) == (VRDisplay {
                        display: d,
                        presenting: p && old(self).presenting,
                        compositor_id: if p {
                            old(self).compositor_id
                        } else {
                            None
                        },
                        ..*old(self)
                    })
                },
                VRDisplayEvent::Change(d) => {
                    &&& !notify
                    &&& *final(self) == (VRDisplay { display: d, ..*old(self) })
                },
            },
    {
        match event {
            VRDisplayEvent::Connect(d) => {
                self.display = d;
                false
            },
            VRDisplayEvent::Disconnect(_id) => {
                self.display.connected = false;
                false
            },
            VRDisplayEvent::Activate(d, _reason) => {
                self.display = d;
                true
            },
            VRDisplayEvent::Deactivate(d, _reason) => {
                self.display = d;
                true
            },
            VRDisplayEvent::Blur(d) => {
                self.display = d;
                true
            },
            VRDisplayEvent::Focus(d) => {
                self.display = d;
                true
            },
            VRDisplayEvent::PresentChange(d, p) => {
                self.display = d;
                if !p {
                    self.presenting = false;
                    self.compositor_id = None;
                } else {
                    if self.compositor_id.is_some() {
                        self.presenting = true;
                    }
                }
                true
            },
            VRDisplayEvent::Change(d) => {
                self.display = d;
                false
            },
        }
    }

    /// The request that refreshes the cached frame data: the device
    /// computes projections from the session's current depth range.
    pub fn frame_data_request(&self) -> (r: WebVRMsg)
        ensures
            r == WebVRMsg::GetFrameData(
                self.pipeline_id,
                self.display.display_id,
                self.depth_near_bits,
                self.depth_far_bits,
            ),
    {
        WebVRMsg::GetFrameData(
            self.pipeline_id,
            self.display.display_id,
            self.depth_near_bits,
            self.depth_far_bits,
        )
    }

    /// Apply the reply to a frame-data request: a success overwrites the
    /// cache wholesale, a failure leaves the previously cached data
    /// untouched. The refresh is best-effort; the failure is reported
    /// to nobody but the log.
    pub fn apply_frame_data_reply(&mut self, reply: WebVRResult<WebVRFrameData>)
        requires
            old(self).well_formed(),
        ensures
            final(self).well_formed(),
            match reply {
                Ok(d) => *final(self) == (VRDisplay { frame_data: d, ..*old(self) }),
                Err(_) => *final(self) == *old(self),
            },
    {
        match reply {
            Ok(d) => {
                self.frame_data = d;
            },
            Err(_e) => {},
        }
    }

    /// Copy the cached frame data into the caller's object. The caller
    /// always receives the (possibly stale) cache, so the operation
    /// always reports success.
    pub fn get_frame_data(&self, frame_data: &mut VRFrameData) -> (r: bool)
        ensures
            r,
            final(frame_data).timestamp == self.frame_data.timestamp,
            final(frame_data).left_projection_matrix@ == self.frame_data.left_projection_matrix@,
            final(frame_data).left_view_matrix@ == self.frame_data.left_view_matrix@,
            final(frame_data).right_projection_matrix@ == self.frame_data.right_projection_matrix@,
            final(frame_data).right_view_matrix@ == self.frame_data.right_view_matrix@,
            pose_eq(final(frame_data).pose, self.frame_data.pose),
    {
        frame_data.update(&self.frame_data);
        true
    }

    /// The pose of the cached frame data.
    pub fn get_pose(&self) -> (r: &VRPose)
        ensures
            *r == self.frame_data.pose,
    {
        &self.frame_data.pose
    }

    /// The fire-and-forget request that recenters the device-reported
    /// pose.
    pub fn reset_pose_request(&self) -> (r: WebVRMsg)
        ensures
            r == WebVRMsg::ResetPose(self.pipeline_id, self.display.display_id),
    {
        WebVRMsg::ResetPose(self.pipeline_id, self.display.display_id)
    }

    /// Register a frame callback while presenting: the callback joins
    /// the session registry under the next handle, and is dispatched at
    /// the sync loop's cadence. While idle the hosting surface's generic
    /// scheduler is responsible instead.
    pub fn request_animation_frame(&mut self, callback: u64) -> (r: RafOutcome)
        requires
            old(self).well_formed(),
            old(self).next_raf_id < u32::MAX,
        ensures
            final(self).well_formed(),
            old(self).presenting ==> r == RafOutcome::Scheduled(old(self).next_raf_id)
                && raf_scheduled(*old(self), *final(self), callback, old(self).next_raf_id),
            !old(self).presenting ==> r == RafOutcome::Delegated && *final(self) == *old(self),
    {
        if self.presenting {
            let raf_id = self.next_raf_id;
            self.next_raf_id = raf_id + 1;
            self.raf_callback_list.push((raf_id, Some(callback)));
            RafOutcome::Scheduled(raf_id)
        } else {
            RafOutcome::Delegated
        }
    }

    /// Cancel a frame callback while presenting: the entry stays in
    /// place — preserving positions for an in-flight drain — but loses
    /// its payload. A handle that is no longer in the registry (its
    /// batch was already drained) matches no entry, and the registry is
    /// left as it was. While idle the hosting surface's generic
    /// scheduler is responsible instead.
    pub fn cancel_animation_frame(&mut self, handle: u32) -> (r: CancelOutcome)
        requires
            old(self).well_formed(),
        ensures
            final(self).well_formed(),
            old(self).presenting ==> r == CancelOutcome::Handled
                && cancel_applied(*old(self), *final(self), handle),
            !old(self).presenting ==> r == CancelOutcome::Delegated && *final(self) == *old(self),
    {
        if self.presenting {
            let ghost pre = self.raf_callback_list@;
            let mut i: usize = 0;
            while i < self.raf_callback_list.len()
                invariant
                    i <= self.raf_callback_list@.len(),
                    self.raf_callback_list@.len() == pre.len(),
                    *self == (VRDisplay {
                        raf_callback_list: self.raf_callback_list,
                        ..*old(self)
                    }),
                    forall|j: int| 0 <= j < i ==> self.raf_callback_list@[j]
                        == clear_handle(pre, handle)[j],
                    forall|j: int| i <= j < pre.len() ==> self.raf_callback_list@[j] == pre[j],
                decreases pre.len() - i,
            {
                let entry = self.raf_callback_list[i];
                if entry.0 == handle {
                    self.raf_callback_list.set(i, (entry.0, None));
                }
                i = i + 1;
            }
            proof {
                let cleared = clear_handle(pre, handle);
                assert(self.raf_callback_list@ =~= cleared);
                assert forall|j: int| 0 <= j < cleared.len() implies (#[trigger] cleared[j]).0
                    == pre[j].0 by {}
                assert(raf_list_well_formed(cleared, self.next_raf_id));
            }
            CancelOutcome::Handled
        } else {
            CancelOutcome::Delegated
        }
    }

    /// Swap the registry with an empty one and hand back the callbacks
    /// that are still present, in registration order. Callbacks
    /// registered during the dispatch that follows land in the next
    /// batch, and each registered callback fires at most once per
    /// dispatch.
    pub fn drain_raf_callbacks(&mut self) -> (r: Vec<u64>)
        requires
            old(self).well_formed(),
        ensures
            final(self).well_formed(),
            r@ == live_tokens(old(self).raf_callback_list@),
            *final(self) == (VRDisplay { raf_callback_list: final(self).raf_callback_list, ..*old(self) }),
            final(self).raf_callback_list@.len() == 0,
    {
        let mut tokens: Vec<u64> = Vec::new();
        let list = &self.raf_callback_list;
        let mut i: usize = 0;
        while i < list.len()
            invariant
                i <= list@.len(),
                tokens@ == live_tokens(list@.take(i as int)),
            decreases list@.len() - i,
        {
            proof {
                assert(list@.take(i + 1).drop_last() =~= list@.take(i as int));
                assert(list@.take(i + 1).last() == list@[i as int]);
            }
            match list[i].1 {
                Some(cb) => {
                    tokens.push(cb);
                    proof {
                        assert(live_tokens(list@.take(i + 1)) =~= live_tokens(
                            list@.take(i as int),
                        ).push(list@[i as int].1->Some_0));
                    }
                },
                None => {
                    proof {
                        assert(live_tokens(list@.take(i + 1)) =~= live_tokens(
                            list@.take(i as int),
                        ));
                    }
                },
            }
            i = i + 1;
        }
        proof {
            assert(list@.take(list@.len() as int) =~= list@);
        }
        self.raf_callback_list = Vec::new();
        tokens
    }

    /// Validate a presentation request and decide what must happen, with
    /// no device round-trip.
    ///
    /// A display that cannot present, a layer count other than one, or a
    /// bad layer reject without touching the session. While presenting,
    /// a valid request is a layer update, resolved on the spot. While
    /// idle, the caller receives the request to send and completes the
    /// transition with `request_present_complete` once the reply is in.
    pub fn request_present(&mut self, layers: &Vec<VRLayer>) -> (r: RequestPresentStep)
        requires
            old(self).well_formed(),
        ensures
            final(self).well_formed(),
            !old(self).display.capabilities.can_present ==> r
                == RequestPresentStep::Rejected(VRError::CannotPresent)
                && *final(self) == *old(self),
            old(self).display.capabilities.can_present && layers@.len() != 1 ==> r
                == RequestPresentStep::Rejected(VRError::WrongLayerCount)
                && *final(self) == *old(self),
            old(self).display.capabilities.can_present && layers@.len() == 1 && !layer_valid(
                layers@[0],
            ) ==> r == RequestPresentStep::Rejected(
                if layers@[0].source is None {
                    VRError::NoWebGLContext
                } else {
                    VRError::InvalidBounds
                },
            ) && *final(self) == *old(self),
            old(self).display.capabilities.can_present && layers@.len() == 1 && layer_valid(
                layers@[0],
            ) && old(self).presenting ==> r == RequestPresentStep::LayerUpdated && stores_layer(
                *old(self),
                *final(self),
                layers@[0],
            ),
            old(self).display.capabilities.can_present && layers@.len() == 1 && layer_valid(
                layers@[0],
            ) && !old(self).presenting ==> *final(self) == *old(self) && (r matches
                RequestPresentStep::RpcNeeded(lay, ctx, msg) && {
                &&& lay.left_bounds@ == parsed_bounds(layers@[0].left_bounds, default_left_bounds())
                &&& lay.right_bounds@ == parsed_bounds(
                    layers@[0].right_bounds,
                    default_right_bounds(),
                )
                &&& lay.well_formed()
                &&& Some(ctx) == layers@[0].source
                &&& msg == WebVRMsg::RequestPresent(
                    old(self).pipeline_id,
                    old(self).display.display_id,
                )
            }),
    {
        if !self.display.capabilities.can_present {
            return RequestPresentStep::Rejected(VRError::CannotPresent);
        }
        if layers.len() != 1 {
            return RequestPresentStep::Rejected(VRError::WrongLayerCount);
        }
        match validate_layer(&layers[0]) {
            Err(e) => RequestPresentStep::Rejected(e),
            Ok((stored, ctx)) => {
                if self.presenting {
                    self.layer = stored;
                    self.layer_ctx = Some(ctx);
                    RequestPresentStep::LayerUpdated
                } else {
                    let msg = WebVRMsg::RequestPresent(self.pipeline_id, self.display.display_id);
                    RequestPresentStep::RpcNeeded(stored, ctx, msg)
                }
            },
        }
    }

    /// Complete an idle-to-presenting transition with the device's
    /// reply.
    ///
    /// On success the session stores the validated layer and surface
    /// handle, records the compositor session and becomes presenting;
    /// the caller then starts the frame-synchronization loop. On failure
    /// nothing changes and the reply's reason is surfaced.
    pub fn request_present_complete(
        &mut self,
        layer: WebVRLayer,
        ctx: u32,
        reply: WebVRResult<WebVRDeviceType>,
    ) -> (r: Result<(), VRError>)
        requires
            old(self).well_formed(),
            !old(self).presenting,
            layer.well_formed(),
        ensures
            final(self).well_formed(),
            match reply {
                Ok(id) => r is Ok && *final(self) == (VRDisplay {
                    presenting: true,
                    layer,
                    layer_ctx: Some(ctx),
                    compositor_id: Some(id),
                    ..*old(self)
                }),
                Err(e) => r == Err::<(), VRError>(VRError::Remote(e))
                    && *final(self) == *old(self),
            },
    {
        match reply {
            Ok(id) => {
                self.layer = layer;
                self.layer_ctx = Some(ctx);
                self.presenting = true;
                self.compositor_id = Some(id);
                Ok(())
            },
            Err(e) => Err(VRError::Remote(e)),
        }
    }

    /// Ask to leave the presenting state: rejected on the spot while
    /// idle, otherwise the caller receives the request to send and
    /// completes the transition with `exit_present_complete`.
    pub fn exit_present(&self) -> (r: Result<WebVRMsg, VRError>)
        ensures
            self.presenting ==> r == Ok::<WebVRMsg, VRError>(
                WebVRMsg::ExitPresent(self.pipeline_id, self.display.display_id),
            ),
            !self.presenting ==> r == Err::<WebVRMsg, VRError>(VRError::NotPresenting),
    {
        if !self.presenting {
            return Err(VRError::NotPresenting);
        }
        Ok(WebVRMsg::ExitPresent(self.pipeline_id, self.display.display_id))
    }

    /// Complete a presenting-to-idle transition with the device's reply.
    ///
    /// On success the session becomes idle and hands back the command
    /// that releases the compositor session; the sync loop notices its
    /// next failed pose sync and terminates on its own. On failure
    /// nothing changes and the reply's reason is surfaced.
    pub fn exit_present_complete(&mut self, reply: WebVRResult<()>) -> (r: Result<
        VRCompositorCommand,
        VRError,
    >)
        requires
            old(self).well_formed(),
            old(self).presenting,
        ensures
            final(self).well_formed(),
            match reply {
                Ok(_) => r == Ok::<VRCompositorCommand, VRError>(
                    VRCompositorCommand::Release(old(self).compositor_id->Some_0.0),
                ) && *final(self) == (VRDisplay {
                    presenting: false,
                    compositor_id: None,
                    ..*old(self)
                }),
                Err(e) => r == Err::<VRCompositorCommand, VRError>(VRError::Remote(e))
                    && *final(self) == *old(self),
            },
    {
        match reply {
            Ok(()) => {
                let id = match &self.compositor_id {
                    Some(d) => d.as_u32(),
                    // A presenting session always has a compositor session.
                    None => {
                        proof {
                            assert(false);
                        }
                        0
                    },
                };
                self.presenting = false;
                self.compositor_id = None;
                Ok(VRCompositorCommand::Release(id))
            },
            Err(e) => Err(VRError::Remote(e)),
        }
    }

    /// The command that presents the frame just rendered: the stored
    /// bounds and the compositor session. While idle there is nothing to
    /// submit and no command is produced; the caller logs a warning.
    pub fn submit_frame(&self) -> (r: Option<VRCompositorCommand>)
        requires
            self.well_formed(),
        ensures
            !self.presenting ==> r is None,
            self.presenting ==> (r matches Some(c) && c matches VRCompositorCommand::SubmitFrame(
                id,
                lb,
                rb,
            ) && {
                &&& id == self.compositor_id->Some_0.0
                &&& lb@ == self.layer.left_bounds@
                &&& rb@ == self.layer.right_bounds@
            }),
    {
        if !self.presenting {
            return None;
        }
        let id = match &self.compositor_id {
            Some(d) => d.as_u32(),
            // A presenting session always has a compositor session.
            None => {
                proof {
                    assert(false);
                }
                0
            },
        };
        Some(
            VRCompositorCommand::SubmitFrame(
                id,
                copy_bits32(&self.layer.left_bounds),
                copy_bits32(&self.layer.right_bounds),
            ),
        )
    }
}

/// The relation between the session before and after registering a
/// frame callback while presenting: the callback joined the registry
/// under handle `h`, the counter advanced, nothing else moved.
pub open spec fn raf_scheduled(pre: VRDisplay, post: VRDisplay, callback: u64, h: u32) -> bool {
    &&& pre.presenting
    &&& h == pre.next_raf_id
    &&& post.next_raf_id == pre.next_raf_id + 1
    &&& post.raf_callback_list@ == pre.raf_callback_list@.push((h, Some(callback)))
    &&& post == (VRDisplay {
        next_raf_id: post.next_raf_id,
        raf_callback_list: post.raf_callback_list,
        ..pre
    })
}

/// The relation between the session before and after cancelling a
/// handle while presenting: the matching entry lost its payload, nothing
/// else moved.
pub open spec fn cancel_applied(pre: VRDisplay, post: VRDisplay, handle: u32) -> bool {
    &&& pre.presenting
    &&& post.raf_callback_list@ == clear_handle(pre.raf_callback_list@, handle)
    &&& post == (VRDisplay { raf_callback_list: post.raf_callback_list, ..pre })
}

/// The relation between the session before and after a layer update:
/// the validated layer and its surface handle are stored, nothing else
/// moves.
pub open spec fn stores_layer(pre: VRDisplay, post: VRDisplay, input: VRLayer) -> bool {
    &&& post.layer.left_bounds@ == parsed_bounds(input.left_bounds, default_left_bounds())
    &&& post.layer.right_bounds@ == parsed_bounds(input.right_bounds, default_right_bounds())
    &&& post.layer_ctx == input.source
    &&& post == (VRDisplay { layer: post.layer, layer_ctx: post.layer_ctx, ..pre })
}

/// Animation-frame handles are handed out strictly increasing, starting
/// at 1: of two callbacks registered in turn, the second's handle is
/// strictly greater, and no handle is below 1.
pub proof fn lemma_raf_handles_strictly_increase(
    s0: VRDisplay,
    s1: VRDisplay,
    s2: VRDisplay,
    cb1: u64,
    cb2: u64,
    h1: u32,
    h2: u32,
)
    requires
        s0.well_formed(),
        raf_scheduled(s0, s1, cb1, h1),
        raf_scheduled(s1, s2, cb2, h2),
    ensures
        1 <= h1 < h2,
{
}

/// Cancelling a handle whose batch has already been drained — so that
/// no registry entry carries it any more — is a no-op: the registry and
/// every other part of the session are left exactly as they were.
pub proof fn lemma_cancel_after_drain_is_noop(pre: VRDisplay, post: VRDisplay, handle: u32)
    requires
        cancel_applied(pre, post, handle),
        !has_handle(pre.raf_callback_list@, handle),
    ensures
        post.raf_callback_list@ == pre.raf_callback_list@,
        post == (VRDisplay { raf_callback_list: post.raf_callback_list, ..pre }),
{
    assert forall|j: int| 0 <= j < pre.raf_callback_list@.len() implies #[trigger] clear_handle(
        pre.raf_callback_list@,
        handle,
    )[j] == pre.raf_callback_list@[j] by {
        assert(pre.raf_callback_list@[j].0 != handle);
    }
    assert(clear_handle(pre.raf_callback_list@, handle) =~= pre.raf_callback_list@);
}

/// No entry that a drain would dispatch carries a cancelled handle.
pub proof fn lemma_cleared_handle_not_live(l: Seq<(u32, Option<u64>)>, handle: u32)
    ensures
        forall|k: int| 0 <= k < live_entries(clear_handle(l, handle)).len() ==> (
        #[trigger] live_entries(clear_handle(l, handle))[k]).0 != handle,
    decreases l.len(),
{
    let c = clear_handle(l, handle);
    if l.len() == 0 {
    } else {
        lemma_cleared_handle_not_live(l.drop_last(), handle);
        assert(c.drop_last() =~= clear_handle(l.drop_last(), handle));
        let rest = live_entries(c.drop_last());
        assert(c.last() == (if l.last().0 == handle {
            (l.last().0, None::<u64>)
        } else {
            l.last()
        }));
        assert forall|k: int| 0 <= k < live_entries(c).len() implies (#[trigger] live_entries(
            c,
        )[k]).0 != handle by {
            match c.last().1 {
                Some(cb) => {
                    assert(live_entries(c) == rest.push((c.last().0, cb)));
                    if k < rest.len() {
                        assert(rest[k].0 != handle);
                    } else {
                        assert(c.last().0 != handle);
                    }
                },
                None => {
                    assert(live_entries(c) == rest);
                },
            }
        }
    }
}

/// A callback cancelled before the drain is guaranteed not to execute
/// in it: after the cancellation its handle's entry would not be
/// dispatched.
pub proof fn lemma_cancel_prevents_dispatch(pre: VRDisplay, post: VRDisplay, handle: u32)
    requires
        cancel_applied(pre, post, handle),
    ensures
        !will_dispatch(post.raf_callback_list@, handle),
{
    let l = pre.raf_callback_list@;
    assert forall|i: int| 0 <= i < post.raf_callback_list@.len() implies !((
    #[trigger] post.raf_callback_list@[i]).0 == handle && post.raf_callback_list@[i].1 is Some) by {
        assert(post.raf_callback_list@[i] == (if l[i].0 == handle {
            (l[i].0, None::<u64>)
        } else {
            l[i]
        }));
    }
}

} // verus!

