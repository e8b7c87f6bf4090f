use vstd::prelude::*;

verus! {

/// The ways a capture can fail. All of them abort the capture.
#[derive(Clone, Copy, Debug, PartialEq, Eq, Structural)]
pub enum CaptureError {
    /// The geometry string does not follow `WxH` or `WxH{+-}X{+-}Y`.
    InvalidGeometry,
    /// The window identifier does not name a live window.
    WindowLookupFailed,
    /// The requested geometry does not overlap the captured window.
    EmptySelection,
    /// The windowing system refused to hand out the framebuffer.
    CaptureFailed,
    /// The framebuffer is not in a 24/32-bit (A)RGB layout.
    UnsupportedPixelFormat,
}

/// The physical screens could not be listed. A capture goes on without
/// masking when this happens.
#[derive(Clone, Copy, Debug, PartialEq, Eq, Structural)]
pub struct ScreenEnumerationFailed;

impl CaptureError {
    /// A human-readable description of the failure.
    pub fn message(&self) -> (r: String) {
        match self {
            CaptureError::InvalidGeometry => String::from_str("Invalid geometry"),
            CaptureError::WindowLookupFailed => String::from_str("Failed to look up window"),
            CaptureError::EmptySelection => String::from_str("Selection does not overlap the window"),
            CaptureError::CaptureFailed => String::from_str("Failed to get image from X"),
            CaptureError::UnsupportedPixelFormat => String::from_str(
                "Failed to convert captured framebuffer, only 24/32 bit (A)RGB8 is supported",
            ),
        }
    }
}

} // verus!
