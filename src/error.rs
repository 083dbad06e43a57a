use vstd::prelude::*;

verus! {

/// Why a frame, an upload or a texture request failed.
#[derive(Clone, Copy, PartialEq, Eq, Structural, Debug)]
pub enum RenderError {
    /// A native buffer or texture could not be allocated.
    ResourceCreationFailure,
    /// Device memory could not be locked or unlocked.
    MappingFailure,
    /// An upload's size differs from the size the texture was allocated with.
    DimensionMismatch { expected_width: u32, expected_height: u32, width: u32, height: u32 },
    /// Any other native call failed.
    DeviceCallFailure,
}

} // verus!
