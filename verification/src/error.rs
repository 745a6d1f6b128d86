//! Errors that stop the harness before its first frame.

use vstd::prelude::*;

verus! {

/// A setting that no run can work with. Fatal at startup.
#[derive(Clone, Copy, Debug, PartialEq, Eq, Structural)]
pub enum ConfigurationError {
    /// The window's width or height is zero.
    ZeroWindowDimension,
    /// The logical resolution's width or height is zero.
    ZeroLogicalDimension,
    /// The fixed step is zero ticks long.
    ZeroFixedStep,
}

/// Something that the harness needs could not be made. Fatal at startup,
/// reported once, never tried again.
#[derive(Clone, Copy, Debug, PartialEq, Eq, Structural)]
pub enum SetupError {
    /// There is no GPU context to draw with.
    GpuContext,
    /// The offscreen target could not be allocated.
    RenderTarget,
    /// The overlay's painter could not be made.
    OverlayPainter,
}

/// Why the harness did not start.
#[derive(Clone, Copy, Debug, PartialEq, Eq, Structural)]
pub enum FatalError {
    Setup(SetupError),
    Configuration(ConfigurationError),
}

impl FatalError {
    /// The status that the process ends with. It is never zero.
    pub fn exit_code(&self) -> (code: i32)
        ensures
            code == 1,
    {
        1
    }
}

} // verus!
