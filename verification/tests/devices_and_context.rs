//! The process-wide context, the virtual devices, and the error type.

use daily_python::context::selection_outcome;
use daily_python::context::DailyContext;
use daily_python::devices::read_outcome;
use daily_python::devices::write_outcome;
use daily_python::devices::ReadDisposition;
use daily_python::devices::VirtualMicrophoneDevice;
use daily_python::devices::VirtualSpeakerDevice;
use daily_python::error::ClientError;
use daily_python::error::DeviceKind;

#[test]
fn request_ids_are_strictly_increasing() {
    let mut ctx = DailyContext::new();
    let a = ctx.next_request_id();
    let b = ctx.next_request_id();
    let c = ctx.next_request_id();
    assert_eq!((a, b, c), (0, 1, 2));
}

#[test]
fn device_creation_requires_the_audio_module() {
    let mut ctx = DailyContext::new();
    assert!(matches!(
        ctx.create_speaker_device("spk", 16000, 1),
        Err(ClientError::ModuleNotCreated)
    ));
    assert!(matches!(
        ctx.create_microphone_device("mic", 16000, 1),
        Err(ClientError::ModuleNotCreated)
    ));
    assert!(matches!(
        ctx.validate_device_selection("spk"),
        Err(ClientError::ModuleNotCreated)
    ));

    ctx.create_audio_device_module();
    let spk = ctx.create_speaker_device("spk", 16000, 1).unwrap();
    assert_eq!(spk.name(), "spk");
    assert_eq!(spk.sample_rate(), 16000);
    assert_eq!(spk.channels(), 1);
    let mic = ctx.create_microphone_device("mic", 48000, 2).unwrap();
    assert_eq!(mic.name(), "mic");
    assert_eq!(mic.sample_rate(), 48000);
    assert_eq!(mic.channels(), 2);
    assert!(ctx.validate_device_selection("spk").is_ok());

    assert!(matches!(
        ctx.create_speaker_device("s\0pk", 16000, 1),
        Err(ClientError::InvalidString)
    ));
    assert!(matches!(
        ctx.create_microphone_device("m\0ic", 16000, 1),
        Err(ClientError::InvalidString)
    ));
    assert!(matches!(
        ctx.validate_device_selection("s\0pk"),
        Err(ClientError::InvalidString)
    ));
}

#[test]
fn selection_outcome_interprets_the_native_answer() {
    assert!(selection_outcome(DeviceKind::Speaker, true).is_ok());
    assert_eq!(
        selection_outcome(DeviceKind::Speaker, false),
        Err(ClientError::DeviceSelectionFailed(DeviceKind::Speaker))
    );
    assert_eq!(
        selection_outcome(DeviceKind::Microphone, false),
        Err(ClientError::DeviceSelectionFailed(DeviceKind::Microphone))
    );
}

#[test]
fn enumeration_and_selection_fall_back_without_a_module() {
    let mut ctx = DailyContext::new();
    assert_eq!(ctx.enumerated_devices_json(Some("[{\"id\":1}]".to_string())), "[]");
    assert_eq!(ctx.enumerated_devices_json(None), "[]");
    assert_eq!(ctx.selected_microphone_name(Some("mic".to_string())), "");

    ctx.create_audio_device_module();
    assert_eq!(ctx.enumerated_devices_json(Some("[{\"id\":1}]".to_string())), "[{\"id\":1}]");
    assert_eq!(ctx.enumerated_devices_json(None), "[]");
    assert_eq!(ctx.selected_microphone_name(Some("mic".to_string())), "mic");
    assert_eq!(ctx.selected_microphone_name(None), "");
}

#[test]
fn speaker_reads_need_an_attached_device() {
    let mut spk = VirtualSpeakerDevice::new("spk", 16000, 1);
    assert_eq!(
        spk.read_request(160),
        Err(ClientError::NotAttached(DeviceKind::Speaker))
    );
    spk.attach_audio_device();
    // 16-bit PCM: 160 mono frames are 320 bytes; stereo doubles that.
    assert_eq!(spk.read_request(160), Ok(320));
    let mut stereo = VirtualSpeakerDevice::new("spk2", 48000, 2);
    stereo.attach_audio_device();
    assert_eq!(stereo.read_request(480), Ok(1920));
}

#[test]
fn read_outcomes_distinguish_data_empty_and_error() {
    assert_eq!(read_outcome(160, 160), Ok(ReadDisposition::Full));
    assert_eq!(read_outcome(160, 0), Ok(ReadDisposition::Empty));
    assert_eq!(read_outcome(0, 0), Ok(ReadDisposition::Full));
    assert_eq!(read_outcome(160, 80), Err(ClientError::ReadFailed));
    assert_eq!(read_outcome(160, -1), Err(ClientError::ReadFailed));
}

#[test]
fn microphone_writes_validate_whole_samples() {
    let mut mic = VirtualMicrophoneDevice::new("mic", 16000, 1);
    assert_eq!(
        mic.write_request(320),
        Err(ClientError::NotAttached(DeviceKind::Microphone))
    );
    mic.attach_audio_device();
    assert_eq!(mic.write_request(320), Ok(160));
    assert_eq!(mic.write_request(321), Err(ClientError::InvalidFrames));
    assert_eq!(mic.write_request(0), Ok(0));
}

#[test]
fn write_outcomes_distinguish_success_and_error() {
    assert_eq!(write_outcome(160), Ok(160));
    assert_eq!(write_outcome(0), Err(ClientError::WriteFailed));
    assert_eq!(write_outcome(-3), Err(ClientError::WriteFailed));
}

#[test]
fn error_messages_match_their_variants() {
    assert_eq!(
        ClientError::InvalidString.message(),
        "string contains an embedded NUL byte"
    );
    assert_eq!(ClientError::InvalidColorFormat.message(), "invalid color format");
    assert_eq!(
        ClientError::ModuleNotCreated.message(),
        "custom audio module not created"
    );
    assert_eq!(
        ClientError::DeviceSelectionFailed(DeviceKind::Speaker).message(),
        "unable to select custom speaker device"
    );
    assert_eq!(
        ClientError::DeviceSelectionFailed(DeviceKind::Microphone).message(),
        "unable to select custom microphone device"
    );
    assert_eq!(
        ClientError::NotAttached(DeviceKind::Speaker).message(),
        "no speaker device has been attached"
    );
    assert_eq!(
        ClientError::NotAttached(DeviceKind::Microphone).message(),
        "no microphone device has been attached"
    );
    assert_eq!(
        ClientError::InvalidFrames.message(),
        "frames bytestring should contain 16-bit samples"
    );
    assert_eq!(
        ClientError::ReadFailed.message(),
        "error reading audio frames from the device"
    );
    assert_eq!(
        ClientError::WriteFailed.message(),
        "error writing audio frames to device"
    );
}
