use vstd::prelude::*;

verus! {

/// A fault in the description of a render, found before any device work starts.
#[derive(Clone, Copy, Debug, PartialEq, Eq, Structural)]
pub enum ConfigError {
    /// The image has no pixels: its width or its height is zero.
    EmptyImage,
    /// The tile mode asks for tiles with an edge of zero pixels.
    ZeroTileSize,
    /// The packed RGBA8 image does not fit into addressable memory.
    ImageTooLarge,
    /// The camera looks from the very point it looks at.
    DegenerateCamera,
    /// The shape at position `shape` refers to a material that was never registered.
    UnknownMaterial { shape: usize, material: usize },
    /// The material at position `material` carries a colour that is no hexadecimal RGB value.
    InvalidColor { material: usize },
}

/// Why a render gives no pixels.
#[derive(Clone, Copy, Debug, PartialEq, Eq, Structural)]
pub enum RenderError {
    /// The description of the render is at fault; no device work was started.
    Configuration(ConfigError),
    /// Mapping the result buffer for reading did not yield the image bytes.
    /// This is the one failure of a started render that the caller may
    /// answer by rendering again.
    Readback,
}

/// A device-level failure. It is not recoverable: the host is asked to abort.
#[derive(Clone, Copy, Debug, PartialEq, Eq, Structural)]
pub enum FatalError {
    /// Waiting for a submission ran into the device's timeout.
    WaitTimedOut,
    /// The device side answered an action with an event that does not belong to it.
    ProtocolViolation,
}

} // verus!
