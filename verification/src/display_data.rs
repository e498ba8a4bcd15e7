//! Plain value types describing a VR display: capabilities, per-eye
//! rendering parameters, stage parameters and the display descriptor
//! snapshot that the device-service thread hands out.

use vstd::prelude::*;

verus! {

/// Capability flags reported by the device driver.
#[derive(Clone, Copy, PartialEq, Eq, Structural, Debug)]
pub struct VRDisplayCapabilities {
    /// Whether the display can enter the presenting state.
    pub can_present: bool,
    /// Whether the device reports orientation.
    pub has_orientation: bool,
    /// Whether the device reports position.
    pub has_position: bool,
    /// Whether the device drives an external display.
    pub has_external_display: bool,
}

/// A field of view: up/right/down/left degrees, each the bit pattern of a
/// 64-bit float.
#[derive(Clone, Copy, PartialEq, Eq, Structural, Debug)]
pub struct VRFieldOfView {
    /// Degrees above the center line, as 64-bit float bits.
    pub up_degrees: u64,
    /// Degrees to the right of the center line, as 64-bit float bits.
    pub right_degrees: u64,
    /// Degrees below the center line, as 64-bit float bits.
    pub down_degrees: u64,
    /// Degrees to the left of the center line, as 64-bit float bits.
    pub left_degrees: u64,
}

/// Per-eye rendering parameters from the device driver.
#[verifier::ext_equal]
#[derive(Debug)]
pub struct WebVREyeParameters {
    /// Displacement from the head center to the eye, three 32-bit float
    /// bit patterns.
    pub offset: Vec<u32>,
    /// The eye's field of view.
    pub field_of_view: VRFieldOfView,
    /// Width in pixels of the per-eye render target.
    pub render_width: u32,
    /// Height in pixels of the per-eye render target.
    pub render_height: u32,
}

impl WebVREyeParameters {
    /// An eye-parameters value is well formed when its offset holds one
    /// 32-bit pattern per spatial axis.
    pub open spec fn well_formed(&self) -> bool {
        self.offset@.len() == 3
    }
}

/// The client-facing eye-parameters object: a snapshot of the driver's
/// per-eye parameters.
#[verifier::ext_equal]
#[derive(Debug)]
pub struct VREyeParameters {
    /// The wrapped driver parameters.
    pub parameters: WebVREyeParameters,
}

impl VREyeParameters {
    /// Wrap a snapshot of per-eye parameters.
    pub fn new(parameters: WebVREyeParameters) -> (r: VREyeParameters)
        ensures
            r.parameters == parameters,
    {
        VREyeParameters { parameters }
    }

    /// Width in pixels of the per-eye render target.
    pub fn render_width(&self) -> (r: u32)
        ensures
            r == self.parameters.render_width,
    {
        self.parameters.render_width
    }

    /// Height in pixels of the per-eye render target.
    pub fn render_height(&self) -> (r: u32)
        ensures
            r == self.parameters.render_height,
    {
        self.parameters.render_height
    }

    /// The eye offset, three 32-bit float bit patterns.
    pub fn offset(&self) -> (r: &Vec<u32>)
        ensures
            r@ == self.parameters.offset@,
    {
        &self.parameters.offset
    }

    /// The eye's field of view.
    pub fn field_of_view(&self) -> (r: &VRFieldOfView)
        ensures
            *r == self.parameters.field_of_view,
    {
        &self.parameters.field_of_view
    }
}

/// Play-area ("stage") parameters: a seated-to-standing transform and the
/// extent of the play area.
#[verifier::ext_equal]
#[derive(Debug)]
pub struct VRStageParameters {
    /// Column-major 4x4 transform, sixteen 32-bit float bit patterns.
    pub sitting_to_standing_transform: Vec<u32>,
    /// Play-area width, as 32-bit float bits.
    pub size_x: u32,
    /// Play-area depth, as 32-bit float bits.
    pub size_z: u32,
}

impl VRStageParameters {
    /// Stage parameters are well formed when the transform holds a full
    /// 4x4 matrix.
    pub open spec fn well_formed(&self) -> bool {
        self.sitting_to_standing_transform@.len() == 16
    }
}

/// Which eye a per-eye query refers to.
#[derive(Clone, Copy, PartialEq, Eq, Structural, Debug)]
pub enum VREye {
    /// The left eye.
    Left,
    /// The right eye.
    Right,
}

/// A display descriptor: the immutable-per-update snapshot the
/// device-service thread delivers with every device event. It is always
/// replaced wholesale, never partially mutated.
#[verifier::ext_equal]
#[derive(Debug)]
pub struct WebVRDisplayData {
    /// Stable integer identifying the display.
    pub display_id: u64,
    /// Human-readable display name.
    pub display_name: String,
    /// Whether the device is currently connected.
    pub connected: bool,
    /// Capability flags.
    pub capabilities: VRDisplayCapabilities,
    /// Play-area parameters, when the device defines a stage.
    pub stage_parameters: Option<VRStageParameters>,
    /// Rendering parameters for the left eye.
    pub left_eye_parameters: WebVREyeParameters,
    /// Rendering parameters for the right eye.
    pub right_eye_parameters: WebVREyeParameters,
}

impl WebVRDisplayData {
    /// A descriptor is well formed when its nested vectors have their
    /// fixed lengths.
    pub open spec fn well_formed(&self) -> bool {
        &&& self.left_eye_parameters.well_formed()
        &&& self.right_eye_parameters.well_formed()
        &&& match self.stage_parameters {
            None => true,
            Some(s) => s.well_formed(),
        }
    }
}

} // verus!
