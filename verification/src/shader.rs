//! The fixed interface in front of the fragment payload.
//!
//! A payload computes the colour of one fragment. That computation is
//! floating-point arithmetic from end to end and is no part of this
//! library; what the library fixes is which values reach the payload and
//! where its colour goes.

use crate::scalar::{Scalar, Vec2, Vec3, Vec4, ONE_BITS};
use vstd::prelude::*;

verus! {

/// What the host knows when it shades one fragment.
#[derive(Clone, Copy, Debug, PartialEq, Eq, Structural)]
pub struct ShaderInput {
    /// Size of the surface in pixels, in the first two components.
    pub resolution: Vec3,
    /// Seconds since the session started.
    pub time: Scalar,
    /// Position of the fragment in pixels.
    pub frag_coord: Vec2,
    /// The pointer and its drag, packed into four components.
    pub mouse: Vec4,
}

/// Where the colour of the fragment goes.
#[derive(Clone, Copy, Debug, PartialEq, Eq, Structural)]
pub struct ShaderResult {
    pub color: Vec4,
}

/// The environment that a payload samples where it looks past the scene:
/// how bright it is and how opaque.
#[derive(Clone, Copy, Debug, PartialEq, Eq, Structural)]
pub struct RgbCube {
    pub alpha: Scalar,
    pub intensity: Scalar,
}

/// The values that the marble payload reads.
#[derive(Clone, Copy, Debug, PartialEq, Eq, Structural)]
pub struct Inputs {
    pub resolution: Vec3,
    pub time: Scalar,
    pub mouse: Vec4,
    pub channel0: RgbCube,
}

/// The payload's inputs for a fragment: resolution, time and mouse of the
/// host, and an environment of full intensity and full opacity.
pub open spec fn marble_inputs(input: ShaderInput) -> Inputs {
    Inputs {
        resolution: input.resolution,
        time: input.time,
        mouse: input.mouse,
        channel0: RgbCube {
            alpha: Scalar { bits: ONE_BITS },
            intensity: Scalar { bits: ONE_BITS },
        },
    }
}

/// Shades one fragment: runs `main_image` once, on the marble inputs and
/// the fragment's position, and stores the colour that it returns.
pub fn shader_fn<P: FnOnce(Inputs, Vec2) -> Vec4>(
    render_instruction: &ShaderInput,
    render_result: &mut ShaderResult,
    main_image: P,
)
    requires
        main_image.requires((marble_inputs(*render_instruction), render_instruction.frag_coord)),
    ensures
        main_image.ensures(
            (marble_inputs(*render_instruction), render_instruction.frag_coord),
            final(render_result).color,
        ),
{
    let inputs = Inputs {
        resolution: render_instruction.resolution,
        time: render_instruction.time,
        mouse: render_instruction.mouse,
        channel0: RgbCube { alpha: Scalar::one(), intensity: Scalar::one() },
    };
    render_result.color = main_image(inputs, render_instruction.frag_coord);
}

} // verus!
