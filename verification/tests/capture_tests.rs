use tjvox::capture::{
    recording_file_name, validate_artifact_size, words_of_bytes, CaptureEngine, CapturePhase,
    MIN_RECORDING_BYTES,
};
use tjvox::error::TjvoxError;

#[test]
fn words_of_bytes_rejects_ragged_buffers() {
    assert_eq!(words_of_bytes(&[]), None);
    assert_eq!(words_of_bytes(&[1, 2, 3]), None);
    assert_eq!(words_of_bytes(&[1, 2, 3, 4, 5]), None);
}

#[test]
fn words_of_bytes_reads_little_endian() {
    let words = words_of_bytes(&[1, 0, 0, 0, 0, 1, 0, 0, 0, 0, 0, 1]).unwrap();
    assert_eq!(words, vec![1, 256, 16777216]);
}

#[test]
fn capture_phases_run_in_order() {
    let mut engine = CaptureEngine::new(16000, 1);
    assert_eq!(engine.phase, CapturePhase::Created);
    engine.connect();
    assert_eq!(engine.phase, CapturePhase::Connected);
    engine.begin_capture();
    assert_eq!(engine.phase, CapturePhase::Capturing);
    engine.request_stop();
    assert_eq!(engine.phase, CapturePhase::Stopping);
    assert!(engine.stop_requested());
    engine.finalize();
    assert_eq!(engine.phase, CapturePhase::Stopped);
}

#[test]
fn stop_before_capturing_still_reaches_stopped() {
    let mut engine = CaptureEngine::new(16000, 1);
    engine.request_stop();
    assert_eq!(engine.phase, CapturePhase::Stopping);
    engine.finalize();
    assert_eq!(engine.phase, CapturePhase::Stopped);
}

#[test]
fn sink_write_follows_the_lock_and_amplitudes_do_not() {
    let mut engine = CaptureEngine::new(20, 1);
    engine.connect();
    engine.begin_capture();
    // window is one sample at this rate, so every sample emits a value
    let held = engine.on_buffer(&[100], false);
    assert!(held.sink_samples.is_none());
    assert_eq!(held.amplitudes, vec![100]);
    let free = engine.on_buffer(&[7], true);
    assert_eq!(free.sink_samples, Some(vec![7]));
    assert_eq!(free.amplitudes, vec![7]);
}

#[test]
fn fifty_ms_windows_span_all_channels() {
    let mut engine = CaptureEngine::new(16000, 2);
    engine.connect();
    engine.begin_capture();
    // 16000 Hz, two channels: 1600 samples per 50 ms window
    let buffer = vec![0i32; 1600];
    let outcome = engine.on_buffer(&buffer, true);
    assert_eq!(outcome.amplitudes, vec![0]);
}

#[test]
fn artifact_size_validation_rejects_near_empty_files() {
    assert_eq!(MIN_RECORDING_BYTES, 100);
    assert!(validate_artifact_size(100).is_ok());
    assert!(validate_artifact_size(4096).is_ok());
    match validate_artifact_size(44) {
        Err(TjvoxError::Capture(m)) => {
            assert_eq!(m, "Recording file is too small (44 bytes)");
        }
        other => panic!("expected a capture error, got {:?}", other),
    }
}

#[test]
fn recording_file_names_carry_the_identifier() {
    assert_eq!(
        recording_file_name("0189-test"),
        "recording_0189-test.wav",
    );
}

#[test]
fn recorded_sink_round_trips_through_the_wav_format() {
    // a session's finalized sink artifact, read back, matches the format
    // negotiated at start and holds at least one full window of samples
    let sample_rate = 16000u32;
    let channels = 1u8;
    let mut engine = CaptureEngine::new(sample_rate, channels);
    engine.connect();
    engine.begin_capture();

    let dir = tempfile::TempDir::new().unwrap();
    let path = dir.path().join(recording_file_name("roundtrip"));
    let spec = hound::WavSpec {
        channels: channels as u16,
        sample_rate,
        bits_per_sample: 32,
        sample_format: hound::SampleFormat::Float,
    };
    let mut writer = hound::WavWriter::create(&path, spec).unwrap();

    // two seconds of silent capture, in hardware-sized buffers
    let buffer = vec![0i32; 1024];
    let mut written = 0usize;
    while written < 2 * sample_rate as usize {
        let outcome = engine.on_buffer(&buffer, true);
        for s in outcome.sink_samples.unwrap() {
            writer.write_sample(s as f32 / 32768.0).unwrap();
        }
        written += buffer.len();
    }
    engine.request_stop();
    writer.finalize().unwrap();
    engine.finalize();
    assert_eq!(engine.phase, CapturePhase::Stopped);

    let reader = hound::WavReader::open(&path).unwrap();
    let spec_back = reader.spec();
    assert_eq!(spec_back.sample_rate, sample_rate);
    assert_eq!(spec_back.channels, channels as u16);
    assert_eq!(spec_back.sample_format, hound::SampleFormat::Float);
    let window = (sample_rate as usize / 20) * channels as usize;
    assert!(reader.len() as usize >= window);
}
