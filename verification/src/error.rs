//! Error taxonomy of the rendering core.

use vstd::prelude::*;

verus! {

/// Why frame acquisition failed. Every variant is recoverable: the
/// caller skips the frame, may reconfigure the surface, and retries on
/// the next frame.
#[derive(Clone, Copy, Debug, PartialEq, Eq, Structural)]
pub enum FrameError {
    /// Acquiring the next presentable texture timed out.
    Timeout,
    /// The window is occluded; there is nothing to present to.
    Occluded,
    /// The surface configuration no longer matches the surface.
    Outdated,
    /// The surface was lost and must be reconfigured.
    Lost,
    /// Acquisition raised a validation error.
    Validation,
}

/// Why context construction failed. Fatal: startup aborts, there is no
/// degraded mode.
#[derive(Clone, Copy, Debug, PartialEq, Eq, Structural)]
pub enum ContextError {
    /// The surface reports no formats, present modes or alpha modes for
    /// the adapter: no compatible device/surface pair exists.
    DeviceUnavailable,
}

/// Why material construction failed.
#[derive(Clone, Copy, Debug, PartialEq, Eq, Structural)]
pub enum MaterialError {
    /// The texture bytes were not a valid image.
    AssetDecodeFailed,
}

} // verus!
