use audio_capture::capture::{BufferSize, OpenError, Recorder, StreamDescriptor, StreamFault, StreamState};

#[test]
fn stop_twice_halts_once_and_takes_no_more_blocks() {
    let mut r: Recorder<f32> = Recorder::new();
    assert!(r.start());
    assert!(r.on_block(&[0.1, 0.2]));
    assert!(r.stop());
    assert!(!r.stop());
    assert_eq!(r.state(), StreamState::Stopped);
    assert!(!r.on_block(&[0.3]));
    assert_eq!(r.snapshot(), vec![0.1, 0.2]);
}

#[test]
fn blocks_before_start_are_not_taken() {
    let mut r: Recorder<i16> = Recorder::new();
    assert_eq!(r.state(), StreamState::Opened);
    assert!(!r.on_block(&[5]));
    assert_eq!(r.len(), 0);
}

#[test]
fn stopped_recorder_does_not_restart() {
    let mut r: Recorder<i16> = Recorder::new();
    assert!(!r.stop());
    assert!(!r.start());
    assert_eq!(r.state(), StreamState::Stopped);
}

#[test]
fn blocks_accumulate_while_running() {
    let mut r: Recorder<f32> = Recorder::new();
    assert!(r.start());
    assert!(!r.start());
    r.on_block(&[0.0, 0.5, -1.0]);
    r.on_block(&[1.0]);
    assert_eq!(r.len(), 4);
    assert_eq!(r.snapshot(), vec![0.0, 0.5, -1.0, 1.0]);
}

#[test]
fn closed_device_stops_capture_and_keeps_samples() {
    let mut r: Recorder<f32> = Recorder::new();
    r.start();
    r.on_block(&[0.25]);
    assert!(!r.on_fault(StreamFault::BackendSpecific));
    assert_eq!(r.state(), StreamState::Running);
    assert!(r.on_fault(StreamFault::DeviceNotAvailable));
    assert_eq!(r.state(), StreamState::Stopped);
    assert!(!r.on_block(&[0.5]));
    assert_eq!(r.snapshot(), vec![0.25]);
}

#[test]
fn descriptor_rejects_zero_rate_or_channels() {
    let e = StreamDescriptor::new(0, BufferSize::Default, 1, "mic".to_string());
    assert_eq!(e.err(), Some(OpenError::ConfigNegotiationFailed));
    let e = StreamDescriptor::new(48000, BufferSize::Default, 0, "mic".to_string());
    assert_eq!(e.err(), Some(OpenError::ConfigNegotiationFailed));
}

#[test]
fn descriptor_buffer_size_code() {
    let d = StreamDescriptor::new(44100, BufferSize::Fixed(512), 2, "mic".to_string()).unwrap();
    assert_eq!(d.sample_rate, 44100);
    assert_eq!(d.channels, 2);
    assert_eq!(d.device_name, "mic");
    assert_eq!(d.buffer_size_code(), 512);
    let d = StreamDescriptor::new(44100, BufferSize::Default, 1, "mic".to_string()).unwrap();
    assert_eq!(d.buffer_size_code(), -1);
    let d = StreamDescriptor::new(8000, BufferSize::Fixed(u32::MAX), 1, "x".to_string()).unwrap();
    assert_eq!(d.buffer_size_code(), 4294967295);
}
