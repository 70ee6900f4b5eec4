use vstd::prelude::*;

verus! {

/// Every failure the render state can report.
#[derive(Clone, Copy, Debug, PartialEq, Eq, Structural)]
pub enum RenderError {
    /// No adapter can present to the surface.
    AdapterUnavailable,
    /// The adapter refused to create a logical device.
    DeviceCreationFailed,
    /// The next presentable image could not be acquired.
    SurfaceAcquireFailed,
    /// The texture bytes are not a decodable image.
    ImageDecodeFailed,
    /// The decoded image is too wide for one row of texels to be addressed.
    ImageTooLarge,
    /// A bind group does not match the layout the pipeline declares.
    PipelineLayoutMismatch,
}

} // verus!
