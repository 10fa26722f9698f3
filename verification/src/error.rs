//! Errors surfaced synchronously by the binding core.
//!
//! Anything detectable before crossing into native code is rejected here, at
//! the call site.  Failures that arise after crossing the boundary (decode
//! errors, callback errors) are contained at the dispatch boundary by the
//! host glue and never become values of this type.

use vstd::prelude::*;

verus! {

/// Which kind of custom audio device an operation was about.
#[derive(Clone, Copy, Debug, PartialEq, Eq, Structural)]
pub enum DeviceKind {
    Speaker,
    Microphone,
}

/// A synchronous, host-visible error from the binding core.
#[derive(Clone, Copy, Debug, PartialEq, Eq, Structural)]
pub enum ClientError {
    /// A string argument holds an embedded NUL byte and cannot cross the C
    /// boundary.
    InvalidString,
    /// The color format handed to a renderer registration is not one of the
    /// supported formats.
    InvalidColorFormat,
    /// A custom audio operation was requested before the custom audio device
    /// module was created.
    ModuleNotCreated,
    /// The native engine refused to select the named custom device.
    DeviceSelectionFailed(DeviceKind),
    /// A frame read or write was attempted before a native device was
    /// attached.
    NotAttached(DeviceKind),
    /// A microphone write was handed a byte string that does not consist of
    /// whole 16-bit samples.
    InvalidFrames,
    /// The native engine read back a frame count that matches neither the
    /// request nor zero.
    ReadFailed,
    /// The native engine reported that no frames were written.
    WriteFailed,
}

impl ClientError {
    /// The human-readable description of this error, as the host sees it.
    pub fn message(&self) -> (r: &'static str)
        ensures
            r@ == self.spec_message(),
    {
        match self {
            ClientError::InvalidString => "string contains an embedded NUL byte",
            ClientError::InvalidColorFormat => "invalid color format",
            ClientError::ModuleNotCreated => "custom audio module not created",
            ClientError::DeviceSelectionFailed(DeviceKind::Speaker) => {
                "unable to select custom speaker device"
            },
            ClientError::DeviceSelectionFailed(DeviceKind::Microphone) => {
                "unable to select custom microphone device"
            },
            ClientError::NotAttached(DeviceKind::Speaker) => "no speaker device has been attached",
            ClientError::NotAttached(DeviceKind::Microphone) => {
                "no microphone device has been attached"
            },
            ClientError::InvalidFrames => "frames bytestring should contain 16-bit samples",
            ClientError::ReadFailed => "error reading audio frames from the device",
            ClientError::WriteFailed => "error writing audio frames to device",
        }
    }

    /// What `message` returns for each variant.
    pub open spec fn spec_message(&self) -> Seq<char> {
        match self {
            ClientError::InvalidString => "string contains an embedded NUL byte"@,
            ClientError::InvalidColorFormat => "invalid color format"@,
            ClientError::ModuleNotCreated => "custom audio module not created"@,
            ClientError::DeviceSelectionFailed(DeviceKind::Speaker) => {
                "unable to select custom speaker device"@
            },
            ClientError::DeviceSelectionFailed(DeviceKind::Microphone) => {
                "unable to select custom microphone device"@
            },
            ClientError::NotAttached(DeviceKind::Speaker) => "no speaker device has been attached"@,
            ClientError::NotAttached(DeviceKind::Microphone) => {
                "no microphone device has been attached"@
            },
            ClientError::InvalidFrames => "frames bytestring should contain 16-bit samples"@,
            ClientError::ReadFailed => "error reading audio frames from the device"@,
            ClientError::WriteFailed => "error writing audio frames to device"@,
        }
    }
}

} // verus!
