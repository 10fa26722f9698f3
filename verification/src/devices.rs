//! Virtual audio devices.
//!
//! A virtual device is described by plain values: its name, sample rate and
//! channel count, plus whether a native device has been attached to it yet.
//! The native device handle itself lives with the unverified glue; what is
//! verified here is the frame-count arithmetic of reads and writes, and the
//! synchronous errors the binding surfaces: operating on an unattached
//! device, handing a write an odd number of bytes, and native read or write
//! count mismatches.  The audio format is 16-bit linear PCM, so one sample
//! is two bytes and one frame is one sample per channel.

use vstd::prelude::*;

use crate::error::ClientError;
use crate::error::DeviceKind;

verus! {

/// The plain-value description of a virtual device.
pub struct DeviceView {
    pub device_name: Seq<char>,
    pub sample_rate: u32,
    pub channels: u8,
    pub attached: bool,
}

/// A virtual speaker device: receives audio from the meeting; the host reads
/// frames out of it.
pub struct VirtualSpeakerDevice {
    device_name: String,
    sample_rate: u32,
    channels: u8,
    attached: bool,
}

impl View for VirtualSpeakerDevice {
    type V = DeviceView;

    closed spec fn view(&self) -> DeviceView {
        DeviceView {
            device_name: self.device_name@,
            sample_rate: self.sample_rate,
            channels: self.channels,
            attached: self.attached,
        }
    }
}

impl VirtualSpeakerDevice {
    /// A new, not yet attached speaker device.
    pub fn new(device_name: &str, sample_rate: u32, channels: u8) -> (r: Self)
        ensures
            r@.device_name == device_name@,
            r@.sample_rate == sample_rate,
            r@.channels == channels,
            !r@.attached,
    {
        VirtualSpeakerDevice {
            device_name: device_name.to_owned(),
            sample_rate,
            channels,
            attached: false,
        }
    }

    /// Records that the native device now backs this one.
    pub fn attach_audio_device(&mut self)
        ensures
            final(self)@ == (DeviceView { attached: true, ..old(self)@ }),
    {
        self.attached = true;
    }

    /// The device name.
    pub fn name(&self) -> (r: String)
        ensures
            r@ == self@.device_name,
    {
        self.device_name.clone()
    }

    /// The sample rate of this device.
    pub fn sample_rate(&self) -> (r: u32)
        ensures
            r == self@.sample_rate,
    {
        self.sample_rate
    }

    /// The number of channels of this device.
    pub fn channels(&self) -> (r: u8)
        ensures
            r == self@.channels,
    {
        self.channels
    }

    /// How many bytes a read of `num_frames` frames needs, or the error a
    /// read would surface synchronously: the device must have a native
    /// device attached.
    pub fn read_request(&self, num_frames: usize) -> (r: Result<usize, ClientError>)
        requires
            num_frames as int * 2 * (self@.channels as int) <= usize::MAX,
        ensures
            r == if self@.attached {
                Ok::<usize, ClientError>((num_frames as int * 2 * (self@.channels as int)) as usize)
            } else {
                Err::<usize, ClientError>(ClientError::NotAttached(DeviceKind::Speaker))
            },
    {
        if self.attached {
            let bytes_per_frame: usize = 2 * (self.channels as usize);
            proof {
                let n = num_frames as int;
                let c = self@.channels as int;
                assert(n * (2 * c) == n * 2 * c) by (nonlinear_arith);
            }
            Ok(num_frames * bytes_per_frame)
        } else {
            Err(ClientError::NotAttached(DeviceKind::Speaker))
        }
    }
}

/// What a completed native read yielded.
#[derive(Clone, Copy, Debug, PartialEq, Eq, Structural)]
pub enum ReadDisposition {
    /// The engine filled the whole request; the buffer holds the frames.
    Full,
    /// The engine had nothing; the host receives an empty byte string.
    Empty,
}

/// Interprets the frame count a native read returned: the full request is
/// data, zero is an empty result, and anything else is an I/O error.
pub fn read_outcome(num_frames: usize, frames_read: i32) -> (r: Result<
    ReadDisposition,
    ClientError,
>)
    ensures
        r == if frames_read >= 0 && frames_read as int == num_frames as int {
            Ok::<ReadDisposition, ClientError>(ReadDisposition::Full)
        } else if frames_read == 0 {
            Ok::<ReadDisposition, ClientError>(ReadDisposition::Empty)
        } else {
            Err::<ReadDisposition, ClientError>(ClientError::ReadFailed)
        },
{
    if frames_read >= 0 && frames_read as usize == num_frames {
        Ok(ReadDisposition::Full)
    } else if frames_read == 0 {
        Ok(ReadDisposition::Empty)
    } else {
        Err(ClientError::ReadFailed)
    }
}

/// A virtual microphone device: sends audio to the meeting; the host writes
/// frames into it.
pub struct VirtualMicrophoneDevice {
    device_name: String,
    sample_rate: u32,
    channels: u8,
    attached: bool,
}

impl View for VirtualMicrophoneDevice {
    type V = DeviceView;

    closed spec fn view(&self) -> DeviceView {
        DeviceView {
            device_name: self.device_name@,
            sample_rate: self.sample_rate,
            channels: self.channels,
            attached: self.attached,
        }
    }
}

impl VirtualMicrophoneDevice {
    /// A new, not yet attached microphone device.
    pub fn new(device_name: &str, sample_rate: u32, channels: u8) -> (r: Self)
        ensures
            r@.device_name == device_name@,
            r@.sample_rate == sample_rate,
            r@.channels == channels,
            !r@.attached,
    {
        VirtualMicrophoneDevice {
            device_name: device_name.to_owned(),
            sample_rate,
            channels,
            attached: false,
        }
    }

    /// Records that the native device now backs this one.
    pub fn attach_audio_device(&mut self)
        ensures
            final(self)@ == (DeviceView { attached: true, ..old(self)@ }),
    {
        self.attached = true;
    }

    /// The device name.
    pub fn name(&self) -> (r: String)
        ensures
            r@ == self@.device_name,
    {
        self.device_name.clone()
    }

    /// The sample rate of this device.
    pub fn sample_rate(&self) -> (r: u32)
        ensures
            r == self@.sample_rate,
    {
        self.sample_rate
    }

    /// The number of channels of this device.
    pub fn channels(&self) -> (r: u8)
        ensures
            r == self@.channels,
    {
        self.channels
    }

    /// How many 16-bit frames a write of `num_bytes` bytes carries, or the
    /// error the write surfaces synchronously: the device must be attached,
    /// and the byte string must consist of whole 16-bit samples.
    pub fn write_request(&self, num_bytes: usize) -> (r: Result<usize, ClientError>)
        ensures
            r == if !self@.attached {
                Err::<usize, ClientError>(ClientError::NotAttached(DeviceKind::Microphone))
            } else if num_bytes % 2 != 0 {
                Err::<usize, ClientError>(ClientError::InvalidFrames)
            } else {
                Ok::<usize, ClientError>((num_bytes / 2) as usize)
            },
    {
        if !self.attached {
            Err(ClientError::NotAttached(DeviceKind::Microphone))
        } else if num_bytes % 2 != 0 {
            Err(ClientError::InvalidFrames)
        } else {
            Ok(num_bytes / 2)
        }
    }
}

/// Interprets the frame count a native write returned: a positive count is
/// the number of frames written, and anything else is an I/O error.
pub fn write_outcome(frames_written: i32) -> (r: Result<i32, ClientError>)
    ensures
        r == if frames_written > 0 {
            Ok::<i32, ClientError>(frames_written)
        } else {
            Err::<i32, ClientError>(ClientError::WriteFailed)
        },
{
    if frames_written > 0 {
        Ok(frames_written)
    } else {
        Err(ClientError::WriteFailed)
    }
}

} // verus!
