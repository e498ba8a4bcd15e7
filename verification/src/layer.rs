//! Layer negotiation: the client-supplied layer, its validation, and the
//! validated layer the session stores while presenting.
//!
//! A bounds array selects the part of the rendering surface shown to one
//! eye: four 32-bit float bit patterns (x, y, width, height as fractions
//! of the surface). The client may omit a bounds array or pass it empty,
//! which selects the default half-surface viewport for that eye.

use vstd::prelude::*;

use crate::error::VRError;

verus! {

/// Bit pattern of the 32-bit float 0.0.
pub const F32_ZERO_BITS: u32 = 0x0000_0000;

/// Bit pattern of the 32-bit float 0.5.
pub const F32_HALF_BITS: u32 = 0x3F00_0000;

/// Bit pattern of the 32-bit float 1.0.
pub const F32_ONE_BITS: u32 = 0x3F80_0000;

/// Default left-eye bounds: the left half of the surface.
pub open spec fn default_left_bounds() -> Seq<u32> {
    seq![F32_ZERO_BITS, F32_ZERO_BITS, F32_HALF_BITS, F32_ONE_BITS]
}

/// Default right-eye bounds: the right half of the surface.
pub open spec fn default_right_bounds() -> Seq<u32> {
    seq![F32_HALF_BITS, F32_ZERO_BITS, F32_HALF_BITS, F32_ONE_BITS]
}

/// The layer as the client supplies it: an optional handle to the source
/// rendering surface and optional per-eye bounds arrays.
#[verifier::ext_equal]
#[derive(Debug)]
pub struct VRLayer {
    /// Handle of the client's rendering surface, when it resolved to a
    /// usable one; `None` when there is no usable surface.
    pub source: Option<u32>,
    /// Left-eye bounds; `None` or empty selects the default viewport.
    pub left_bounds: Option<Vec<u32>>,
    /// Right-eye bounds; `None` or empty selects the default viewport.
    pub right_bounds: Option<Vec<u32>>,
}

/// The validated layer a session stores: both bounds arrays resolved to
/// exactly four components.
#[verifier::ext_equal]
#[derive(Debug)]
pub struct WebVRLayer {
    /// Left-eye bounds, exactly four 32-bit float bit patterns.
    pub left_bounds: Vec<u32>,
    /// Right-eye bounds, exactly four 32-bit float bit patterns.
    pub right_bounds: Vec<u32>,
}

impl WebVRLayer {
    /// A stored layer always holds full four-component bounds.
    pub open spec fn well_formed(&self) -> bool {
        &&& self.left_bounds@.len() == 4
        &&& self.right_bounds@.len() == 4
    }
}

impl Default for WebVRLayer {
    /// The layer stored before any presentation: default viewports for
    /// both eyes.
    fn default() -> (r: WebVRLayer)
        ensures
            r.left_bounds@ == default_left_bounds(),
            r.right_bounds@ == default_right_bounds(),
    {
        let left: Vec<u32> = vec![F32_ZERO_BITS, F32_ZERO_BITS, F32_HALF_BITS, F32_ONE_BITS];
        let right: Vec<u32> = vec![F32_HALF_BITS, F32_ZERO_BITS, F32_HALF_BITS, F32_ONE_BITS];
        proof {
            assert(left@ =~= default_left_bounds());
            assert(right@ =~= default_right_bounds());
        }
        WebVRLayer { left_bounds: left, right_bounds: right }
    }
}

/// Whether a client bounds array has an acceptable length: absent, empty,
/// or exactly four components.
pub open spec fn bounds_len_ok(b: Option<Vec<u32>>) -> bool {
    match b {
        None => true,
        Some(v) => v@.len() == 0 || v@.len() == 4,
    }
}

/// What an acceptable bounds array parses to: the supplied four
/// components, or the given default when absent or empty.
pub open spec fn parsed_bounds(b: Option<Vec<u32>>, dflt: Seq<u32>) -> Seq<u32> {
    match b {
        None => dflt,
        Some(v) => if v@.len() == 4 {
            v@
        } else {
            dflt
        },
    }
}

/// Whether a client layer passes validation: the source resolves to a
/// rendering surface and both bounds arrays have acceptable lengths.
pub open spec fn layer_valid(layer: VRLayer) -> bool {
    &&& layer.source is Some
    &&& bounds_len_ok(layer.left_bounds)
    &&& bounds_len_ok(layer.right_bounds)
}

/// Parse one client bounds array into a stored four-component array.
///
/// `dst` arrives holding the default for this eye; a supplied
/// four-component array overwrites it, an absent or empty one leaves it,
/// and any other length is rejected before `dst` is touched.
pub fn parse_bounds(src: &Option<Vec<u32>>, dst: &mut Vec<u32>) -> (r: Result<(), VRError>)
    requires
        old(dst)@.len() == 4,
    ensures
        r is Ok <==> bounds_len_ok(*src),
        r is Ok ==> final(dst)@ == parsed_bounds(*src, old(dst)@),
        r is Err ==> final(dst)@ == old(dst)@ && r == Err::<(), VRError>(VRError::InvalidBounds),
{
    match src {
        Some(values) => {
            if values.len() == 0 {
                return Ok(());
            }
            if values.len() != 4 {
                return Err(VRError::InvalidBounds);
            }
            let mut i: usize = 0;
            while i < 4
                invariant
                    i <= 4,
                    values@.len() == 4,
                    dst@.len() == 4,
                    forall|j: int| 0 <= j < i ==> dst@[j] == values@[j],
                decreases 4 - i,
            {
                let x = values[i];
                dst.set(i, x);
                i = i + 1;
            }
            proof {
                assert(dst@ =~= values@);
            }
            Ok(())
        },
        None => Ok(()),
    }
}

/// Validate a client layer.
///
/// On success the result carries the stored layer (bounds resolved to
/// four components each) and the rendering-surface handle. A layer with
/// no usable source is rejected first; then each bounds array in turn.
pub fn validate_layer(layer: &VRLayer) -> (r: Result<(WebVRLayer, u32), VRError>)
    ensures
        r is Ok <==> layer_valid(*layer),
        r matches Ok((stored, ctx)) ==> {
            &&& stored.left_bounds@ == parsed_bounds(layer.left_bounds, default_left_bounds())
            &&& stored.right_bounds@ == parsed_bounds(layer.right_bounds, default_right_bounds())
            &&& layer.source == Some(ctx)
            &&& stored.well_formed()
        },
        r is Err ==> r == Err::<(WebVRLayer, u32), VRError>(
            if layer.source is None {
                VRError::NoWebGLContext
            } else {
                VRError::InvalidBounds
            },
        ),
{
    match layer.source {
        Some(ctx) => {
            let mut data = WebVRLayer::default();
            match parse_bounds(&layer.left_bounds, &mut data.left_bounds) {
                Ok(()) => {},
                Err(e) => {
                    return Err(e);
                },
            }
            match parse_bounds(&layer.right_bounds, &mut data.right_bounds) {
                Ok(()) => {},
                Err(e) => {
                    return Err(e);
                },
            }
            Ok((data, ctx))
        },
        None => Err(VRError::NoWebGLContext),
    }
}

} // verus!
