//! Pose and frame-data snapshots: the per-frame values pulled from the
//! device-service thread and the client-facing object they are copied
//! into.

use vstd::prelude::*;

use crate::bits::{copy_bits32, copy_opt_bits32, opt_bits_view};
use crate::error::VRError;
use crate::layer::{F32_ONE_BITS, F32_ZERO_BITS};

verus! {

/// A device pose: orientation, position, and their first and second
/// derivatives, each optional because a device may track only some of
/// them. Components are 32-bit float bit patterns.
#[verifier::ext_equal]
#[derive(Debug)]
pub struct VRPose {
    /// Orientation quaternion, four components.
    pub orientation: Option<Vec<u32>>,
    /// Position, three components.
    pub position: Option<Vec<u32>>,
    /// Angular velocity, three components.
    pub angular_velocity: Option<Vec<u32>>,
    /// Angular acceleration, three components.
    pub angular_acceleration: Option<Vec<u32>>,
    /// Linear velocity, three components.
    pub linear_velocity: Option<Vec<u32>>,
    /// Linear acceleration, three components.
    pub linear_acceleration: Option<Vec<u32>>,
}

/// Whether two poses hold the same components.
pub open spec fn pose_eq(a: VRPose, b: VRPose) -> bool {
    &&& opt_bits_view(a.orientation) == opt_bits_view(b.orientation)
    &&& opt_bits_view(a.position) == opt_bits_view(b.position)
    &&& opt_bits_view(a.angular_velocity) == opt_bits_view(b.angular_velocity)
    &&& opt_bits_view(a.angular_acceleration) == opt_bits_view(b.angular_acceleration)
    &&& opt_bits_view(a.linear_velocity) == opt_bits_view(b.linear_velocity)
    &&& opt_bits_view(a.linear_acceleration) == opt_bits_view(b.linear_acceleration)
}

impl VRPose {
    /// The pose before any device reading: nothing tracked yet.
    pub fn empty() -> (r: VRPose)
        ensures
            r.orientation is None,
            r.position is None,
            r.angular_velocity is None,
            r.angular_acceleration is None,
            r.linear_velocity is None,
            r.linear_acceleration is None,
    {
        VRPose {
            orientation: None,
            position: None,
            angular_velocity: None,
            angular_acceleration: None,
            linear_velocity: None,
            linear_acceleration: None,
        }
    }

    /// Copy a pose component by component.
    pub fn duplicate(&self) -> (r: VRPose)
        ensures
            pose_eq(r, *self),
    {
        VRPose {
            orientation: copy_opt_bits32(&self.orientation),
            position: copy_opt_bits32(&self.position),
            angular_velocity: copy_opt_bits32(&self.angular_velocity),
            angular_acceleration: copy_opt_bits32(&self.angular_acceleration),
            linear_velocity: copy_opt_bits32(&self.linear_velocity),
            linear_acceleration: copy_opt_bits32(&self.linear_acceleration),
        }
    }
}

/// The latest pose/projection snapshot as the device-service thread
/// delivers it. Overwritten wholesale on every successful fetch, never
/// merged field by field. Matrices are sixteen 32-bit float bit patterns
/// in column-major order.
#[verifier::ext_equal]
#[derive(Debug)]
pub struct WebVRFrameData {
    /// Monotonic counter stamped by the device.
    pub timestamp: u64,
    /// Projection matrix for the left eye.
    pub left_projection_matrix: Vec<u32>,
    /// View matrix for the left eye.
    pub left_view_matrix: Vec<u32>,
    /// Projection matrix for the right eye.
    pub right_projection_matrix: Vec<u32>,
    /// View matrix for the right eye.
    pub right_view_matrix: Vec<u32>,
    /// The pose the matrices were derived from.
    pub pose: VRPose,
}

impl WebVRFrameData {
    /// A snapshot is well formed when every matrix holds a full 4x4
    /// matrix.
    pub open spec fn well_formed(&self) -> bool {
        &&& self.left_projection_matrix@.len() == 16
        &&& self.left_view_matrix@.len() == 16
        &&& self.right_projection_matrix@.len() == 16
        &&& self.right_view_matrix@.len() == 16
    }

    /// The snapshot a session caches at creation, before any fetch:
    /// zeroed matrices, empty pose, timestamp zero.
    pub fn empty() -> (r: WebVRFrameData)
        ensures
            r.timestamp == 0,
            r.left_projection_matrix@ == zero_matrix_bits(),
            r.left_view_matrix@ == zero_matrix_bits(),
            r.right_projection_matrix@ == zero_matrix_bits(),
            r.right_view_matrix@ == zero_matrix_bits(),
            pose_eq(r.pose, VRPose::empty_spec()),
            r.well_formed(),
    {
        let r = WebVRFrameData {
            timestamp: 0,
            left_projection_matrix: zero_matrix(),
            left_view_matrix: zero_matrix(),
            right_projection_matrix: zero_matrix(),
            right_view_matrix: zero_matrix(),
            pose: VRPose::empty(),
        };
        r
    }
}

impl VRPose {
    /// The empty pose, for use in contracts.
    pub open spec fn empty_spec() -> VRPose {
        VRPose {
            orientation: None,
            position: None,
            angular_velocity: None,
            angular_acceleration: None,
            linear_velocity: None,
            linear_acceleration: None,
        }
    }
}

/// A 4x4 matrix of zeros, as bit patterns.
pub open spec fn zero_matrix_bits() -> Seq<u32> {
    Seq::new(16, |i: int| F32_ZERO_BITS)
}

/// The 4x4 identity matrix, as bit patterns.
pub open spec fn identity_matrix_bits() -> Seq<u32> {
    Seq::new(16, |i: int| if i == 0 || i == 5 || i == 10 || i == 15 {
        F32_ONE_BITS
    } else {
        F32_ZERO_BITS
    })
}

/// Build a zeroed 4x4 matrix.
fn zero_matrix() -> (r: Vec<u32>)
    ensures
        r@ == zero_matrix_bits(),
{
    let mut m: Vec<u32> = Vec::new();
    let mut i: usize = 0;
    while i < 16
        invariant
            i <= 16,
            m@.len() == i,
            forall|j: int| 0 <= j < i ==> m@[j] == F32_ZERO_BITS,
        decreases 16 - i,
    {
        m.push(F32_ZERO_BITS);
        i = i + 1;
    }
    proof {
        assert(m@ =~= zero_matrix_bits());
    }
    m
}

/// Build the 4x4 identity matrix.
fn identity_matrix() -> (r: Vec<u32>)
    ensures
        r@ == identity_matrix_bits(),
{
    let mut m: Vec<u32> = Vec::new();
    let mut i: usize = 0;
    while i < 16
        invariant
            i <= 16,
            m@.len() == i,
            forall|j: int| 0 <= j < i ==> m@[j] == identity_matrix_bits()[j],
        decreases 16 - i,
    {
        if i == 0 || i == 5 || i == 10 || i == 15 {
            m.push(F32_ONE_BITS);
        } else {
            m.push(F32_ZERO_BITS);
        }
        i = i + 1;
    }
    proof {
        assert(m@ =~= identity_matrix_bits());
    }
    m
}

/// Relies on time::get_time for the wall-clock second count used to
/// stamp a fresh client-facing frame-data object. Nothing is assumed of
/// the value: it depends on the clock.
#[verifier::external_body]
fn current_time_seconds() -> u64 {
    time::get_time().sec as u64
}

/// The client-facing frame-data object: per-eye matrices, a pose and a
/// timestamp, refreshed wholesale from a cached device snapshot.
#[verifier::ext_equal]
#[derive(Debug)]
pub struct VRFrameData {
    /// Timestamp of the last refresh, or the creation time.
    pub timestamp: u64,
    /// Projection matrix for the left eye.
    pub left_projection_matrix: Vec<u32>,
    /// View matrix for the left eye.
    pub left_view_matrix: Vec<u32>,
    /// Projection matrix for the right eye.
    pub right_projection_matrix: Vec<u32>,
    /// View matrix for the right eye.
    pub right_view_matrix: Vec<u32>,
    /// The pose of the last refresh.
    pub pose: VRPose,
}

impl VRFrameData {
    /// A fresh frame-data object: identity matrices, empty pose, and the
    /// current wall-clock second as timestamp.
    pub fn new() -> (r: VRFrameData)
        ensures
            r.left_projection_matrix@ == identity_matrix_bits(),
            r.left_view_matrix@ == identity_matrix_bits(),
            r.right_projection_matrix@ == identity_matrix_bits(),
            r.right_view_matrix@ == identity_matrix_bits(),
            pose_eq(r.pose, VRPose::empty_spec()),
    {
        VRFrameData {
            timestamp: current_time_seconds(),
            left_projection_matrix: identity_matrix(),
            left_view_matrix: identity_matrix(),
            right_projection_matrix: identity_matrix(),
            right_view_matrix: identity_matrix(),
            pose: VRPose::empty(),
        }
    }

    /// The constructor exposed to the client-facing API; creation never
    /// fails.
    #[allow(non_snake_case)]
    pub fn Constructor() -> (r: Result<VRFrameData, VRError>)
        ensures
            r matches Ok(d) ==> {
                &&& d.left_projection_matrix@ == identity_matrix_bits()
                &&& d.left_view_matrix@ == identity_matrix_bits()
                &&& d.right_projection_matrix@ == identity_matrix_bits()
                &&& d.right_view_matrix@ == identity_matrix_bits()
                &&& pose_eq(d.pose, VRPose::empty_spec())
            },
            r is Ok,
    {
        Ok(VRFrameData::new())
    }

    /// Refresh every field from a device snapshot, wholesale.
    pub fn update(&mut self, data: &WebVRFrameData)
        ensures
            final(self).timestamp == data.timestamp,
            final(self).left_projection_matrix@ == data.left_projection_matrix@,
            final(self).left_view_matrix@ == data.left_view_matrix@,
            final(self).right_projection_matrix@ == data.right_projection_matrix@,
            final(self).right_view_matrix@ == data.right_view_matrix@,
            pose_eq(final(self).pose, data.pose),
    {
        self.timestamp = data.timestamp;
        self.left_projection_matrix = copy_bits32(&data.left_projection_matrix);
        self.left_view_matrix = copy_bits32(&data.left_view_matrix);
        self.right_projection_matrix = copy_bits32(&data.right_projection_matrix);
        self.right_view_matrix = copy_bits32(&data.right_view_matrix);
        self.pose = data.pose.duplicate();
    }
}

} // verus!
