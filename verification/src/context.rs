//! The process-wide context.
//!
//! One explicitly initialised singleton owns the monotonic request-id
//! allocator and the custom audio device module state.  `init` must precede
//! any client creation and `deinit` must follow all client destruction; the
//! host glue owns that ordering, and it hands this context to every call
//! that issues a request id, so uniqueness is global across clients.

use vstd::prelude::*;

use crate::devices::VirtualMicrophoneDevice;
use crate::devices::VirtualSpeakerDevice;
use crate::error::ClientError;
use crate::error::DeviceKind;
use crate::text::contains_nul;
use crate::text::has_nul;
use vstd::string::StringExecFns;

verus! {

/// The plain-value description of the process-wide context.
pub struct ContextView {
    /// The next request id the allocator will hand out.  Every id issued so
    /// far is strictly below it.
    pub next_id: u64,
    /// Whether the custom audio device module has been created.
    pub audio_module_created: bool,
}

/// The process-wide context: request-id allocator and custom audio device
/// module state.
pub struct DailyContext {
    next_id: u64,
    audio_module_created: bool,
}

impl View for DailyContext {
    type V = ContextView;

    closed spec fn view(&self) -> ContextView {
        ContextView { next_id: self.next_id, audio_module_created: self.audio_module_created }
    }
}

impl DailyContext {
    /// A fresh context: no id issued yet, no audio device module created.
    pub fn new() -> (r: Self)
        ensures
            r@.next_id == 0,
            !r@.audio_module_created,
    {
        DailyContext { next_id: 0, audio_module_created: false }
    }

    /// Issues the next request id.  Ids are strictly increasing and never
    /// reused; at realistic call volumes the counter cannot reach the top of
    /// the 64-bit range, so exhaustion is ruled out by precondition.
    pub fn next_request_id(&mut self) -> (id: u64)
        requires
            old(self)@.next_id < u64::MAX,
        ensures
            id == old(self)@.next_id,
            final(self)@.next_id == old(self)@.next_id + 1,
            final(self)@.audio_module_created == old(self)@.audio_module_created,
    {
        let id = self.next_id;
        self.next_id = self.next_id + 1;
        id
    }

    /// The id the allocator will hand out next, without issuing it.  Lets a
    /// caller check that the id space is not exhausted before it issues.
    pub fn peek_next_request_id(&self) -> (r: u64)
        ensures
            r == self@.next_id,
    {
        self.next_id
    }

    /// Records that the native audio device module has been created.  The
    /// native call itself is made by the host glue when the engine asks for
    /// the module.
    pub fn create_audio_device_module(&mut self)
        ensures
            final(self)@.audio_module_created,
            final(self)@.next_id == old(self)@.next_id,
    {
        self.audio_module_created = true;
    }

    /// Creates the description of a new custom speaker device.  Fails
    /// synchronously when the audio device module has not been created, or
    /// when the device name cannot cross the C boundary.  The caller attaches
    /// the native device afterwards.
    pub fn create_speaker_device(&self, device_name: &str, sample_rate: u32, channels: u8) -> (r:
        Result<VirtualSpeakerDevice, ClientError>)
        ensures
            !self@.audio_module_created ==> r == Err::<VirtualSpeakerDevice, ClientError>(
                ClientError::ModuleNotCreated,
            ),
            self@.audio_module_created && has_nul(device_name@) ==> r == Err::<
                VirtualSpeakerDevice,
                ClientError,
            >(ClientError::InvalidString),
            self@.audio_module_created && !has_nul(device_name@) ==> match r {
                Ok(d) => {
                    &&& d@.device_name == device_name@
                    &&& d@.sample_rate == sample_rate
                    &&& d@.channels == channels
                    &&& !d@.attached
                },
                Err(_) => false,
            },
    {
        if !self.audio_module_created {
            Err(ClientError::ModuleNotCreated)
        } else if contains_nul(device_name) {
            Err(ClientError::InvalidString)
        } else {
            Ok(VirtualSpeakerDevice::new(device_name, sample_rate, channels))
        }
    }

    /// Creates the description of a new custom microphone device, under the
    /// same conditions as `create_speaker_device`.
    pub fn create_microphone_device(&self, device_name: &str, sample_rate: u32, channels: u8) -> (r:
        Result<VirtualMicrophoneDevice, ClientError>)
        ensures
            !self@.audio_module_created ==> r == Err::<VirtualMicrophoneDevice, ClientError>(
                ClientError::ModuleNotCreated,
            ),
            self@.audio_module_created && has_nul(device_name@) ==> r == Err::<
                VirtualMicrophoneDevice,
                ClientError,
            >(ClientError::InvalidString),
            self@.audio_module_created && !has_nul(device_name@) ==> match r {
                Ok(d) => {
                    &&& d@.device_name == device_name@
                    &&& d@.sample_rate == sample_rate
                    &&& d@.channels == channels
                    &&& !d@.attached
                },
                Err(_) => false,
            },
    {
        if !self.audio_module_created {
            Err(ClientError::ModuleNotCreated)
        } else if contains_nul(device_name) {
            Err(ClientError::InvalidString)
        } else {
            Ok(VirtualMicrophoneDevice::new(device_name, sample_rate, channels))
        }
    }

    /// Validates a device selection before it is handed to the native
    /// engine: the audio device module must exist and the name must be a
    /// valid C string.  The engine's own accept/reject answer is interpreted
    /// by `selection_outcome`.
    pub fn validate_device_selection(&self, device_name: &str) -> (r: Result<(), ClientError>)
        ensures
            r == if !self@.audio_module_created {
                Err::<(), ClientError>(ClientError::ModuleNotCreated)
            } else if has_nul(device_name@) {
                Err::<(), ClientError>(ClientError::InvalidString)
            } else {
                Ok::<(), ClientError>(())
            },
    {
        if !self.audio_module_created {
            Err(ClientError::ModuleNotCreated)
        } else if contains_nul(device_name) {
            Err(ClientError::InvalidString)
        } else {
            Ok(())
        }
    }

    /// The device list the engine's delegate answers with: the native
    /// enumeration when the audio device module exists and produced one, and
    /// the empty JSON list otherwise.
    pub fn enumerated_devices_json(&self, native: Option<String>) -> (r: String)
        ensures
            r@ == match native {
                Some(s) => if self@.audio_module_created {
                    s@
                } else {
                    "[]"@
                },
                None => "[]"@,
            },
    {
        if self.audio_module_created {
            match native {
                Some(s) => s,
                None => String::from_str("[]"),
            }
        } else {
            String::from_str("[]")
        }
    }

    /// The selected-microphone answer: the native name when the audio device
    /// module exists and reported one, and the empty string otherwise.
    pub fn selected_microphone_name(&self, native: Option<String>) -> (r: String)
        ensures
            r@ == match native {
                Some(s) => if self@.audio_module_created {
                    s@
                } else {
                    ""@
                },
                None => ""@,
            },
    {
        if self.audio_module_created {
            match native {
                Some(s) => s,
                None => String::from_str(""),
            }
        } else {
            String::from_str("")
        }
    }
}

/// Interprets the native engine's answer to a device selection: `true` means
/// the device was selected, `false` is a synchronous runtime error naming
/// the device kind.
pub fn selection_outcome(kind: DeviceKind, selected: bool) -> (r: Result<(), ClientError>)
    ensures
        r == if selected {
            Ok::<(), ClientError>(())
        } else {
            Err::<(), ClientError>(ClientError::DeviceSelectionFailed(kind))
        },
{
    if selected {
        Ok(())
    } else {
        Err(ClientError::DeviceSelectionFailed(kind))
    }
}

} // verus!
