use vhisper_core::audio::{
    encode_to_pcm, encode_to_wav, AudioError, AudioRecorder, InputFormat, Resampler,
    TARGET_SAMPLE_RATE,
};

fn quantize(x: f32) -> i16 {
    (x.clamp(-1.0, 1.0) * 32767.0).round() as i16
}

fn started(rate: u32, channels: u16) -> AudioRecorder {
    let mut rec = AudioRecorder::new().unwrap();
    rec.start(InputFormat { sample_rate: rate, channels }).unwrap();
    rec
}

#[test]
fn stop_without_start_returns_empty() {
    let mut rec = AudioRecorder::new().unwrap();
    let out = rec.stop().unwrap();
    assert!(out.is_empty());
    let again = rec.stop().unwrap();
    assert!(again.is_empty());
}

#[test]
fn resampling_ratio_2_7_stays_within_one_sample() {
    // 43200 / 16000 = 2.7
    let mut rec = started(43200, 1);
    let frames: Vec<i16> = (0..10_000).map(|i| (i % 1000) as i16).collect();
    let mut pos = 0usize;
    let mut chunk = 1usize;
    while pos < frames.len() {
        let end = (pos + chunk).min(frames.len());
        rec.push_input(&frames[pos..end]);
        pos = end;
        chunk = chunk % 97 + 13;
    }
    let out = rec.stop().unwrap();
    let exact = 10_000.0f64 / 2.7;
    assert!((out.len() as f64 - exact).abs() <= 1.0);
    assert_eq!(out.len(), 3703);
}

#[test]
fn resampler_count_does_not_depend_on_chunking() {
    let mut whole = started(44100, 1);
    let mut pieces = started(44100, 1);
    let frames: Vec<i16> = (0..44_100).map(|i| (i % 7) as i16).collect();
    whole.push_input(&frames);
    for c in frames.chunks(441) {
        pieces.push_input(c);
    }
    let a = whole.stop().unwrap();
    let b = pieces.stop().unwrap();
    assert_eq!(a.len(), 16_000);
    assert_eq!(a, b);
}

#[test]
fn stereo_frames_are_averaged_to_mono() {
    let mut rec = started(16000, 2);
    rec.push_input(&[100, 300, -5, -6, 7, 8]);
    assert_eq!(rec.drain_buffer(), vec![200, -6, 7]);
}

#[test]
fn trailing_partial_frame_is_ignored() {
    let mut rec = started(16000, 2);
    rec.push_input(&[10, 20, 30]);
    assert_eq!(rec.stop().unwrap(), vec![15]);
}

#[test]
fn upsampling_repeats_frames() {
    let mut rec = started(8000, 1);
    rec.push_input(&[1, 2, 3]);
    assert_eq!(rec.stop().unwrap(), vec![1, 1, 2, 2, 3, 3]);
}

#[test]
fn downsampling_by_three_keeps_every_third() {
    let mut rec = started(48000, 1);
    rec.push_input(&[1, 2, 3, 4, 5, 6, 7]);
    assert_eq!(rec.stop().unwrap(), vec![3, 6]);
}

#[test]
fn drain_keeps_recording_and_empties_buffer() {
    let mut rec = started(16000, 1);
    rec.push_input(&[1, 2]);
    assert_eq!(rec.drain_buffer(), vec![1, 2]);
    assert!(rec.drain_buffer().is_empty());
    rec.push_input(&[3]);
    assert_eq!(rec.stop().unwrap(), vec![3]);
}

#[test]
fn input_while_stopped_is_dropped() {
    let mut rec = AudioRecorder::new().unwrap();
    rec.push_input(&[1, 2, 3]);
    assert!(rec.drain_buffer().is_empty());
}

#[test]
fn start_rejects_empty_format() {
    let mut rec = AudioRecorder::new().unwrap();
    let r = rec.start(InputFormat { sample_rate: 0, channels: 1 });
    assert!(matches!(r, Err(AudioError::Device(_))));
    let r = rec.start(InputFormat { sample_rate: 16000, channels: 0 });
    assert!(matches!(r, Err(AudioError::Device(_))));
}

#[test]
fn start_clears_previous_buffer() {
    let mut rec = started(16000, 1);
    rec.push_input(&[9, 9]);
    rec.stop().unwrap();
    rec.start(InputFormat { sample_rate: 16000, channels: 1 }).unwrap();
    rec.push_input(&[4]);
    assert_eq!(rec.stop().unwrap(), vec![4]);
}

#[test]
fn recorder_reports_target_format() {
    let rec = AudioRecorder::new().unwrap();
    assert_eq!(rec.sample_rate(), 16000);
    assert_eq!(TARGET_SAMPLE_RATE, 16000);
    assert_eq!(rec.channels(), 1);
}

#[test]
fn resampler_push_frame_emits_whole_crossings() {
    let mut r = Resampler::new(3, 2);
    let mut out = Vec::new();
    r.push_frame(5, &mut out);
    assert!(out.is_empty());
    r.push_frame(6, &mut out);
    assert_eq!(out, vec![6]);
    r.push_frame(7, &mut out);
    assert_eq!(out, vec![6, 7]);
}

#[test]
fn pcm_is_little_endian_16_bit() {
    let bytes = encode_to_pcm(&[1, -1, 32767, -32768, 256]);
    assert_eq!(bytes, vec![1, 0, 255, 255, 255, 127, 0, 128, 0, 1]);
    let expected: Vec<u8> = [1i16, -1, 32767, -32768, 256]
        .iter()
        .flat_map(|s| s.to_le_bytes())
        .collect();
    assert_eq!(bytes, expected);
}

#[test]
fn pcm_of_nothing_is_empty() {
    assert!(encode_to_pcm(&[]).is_empty());
}

#[test]
fn wav_round_trip_through_a_standard_reader() {
    let floats = [0.0f32, 0.5, -0.5, 1.0, -1.0, 1.7, -3.0, 0.123456, -0.000_01];
    let samples: Vec<i16> = floats.iter().map(|&x| quantize(x)).collect();
    assert_eq!(samples, vec![0, 16384, -16384, 32767, -32767, 32767, -32767, 4045, 0]);
    let bytes = encode_to_wav(&samples, 16000, 1).unwrap();
    assert_eq!(bytes.len(), 44 + 2 * samples.len());
    let reader = hound::WavReader::new(std::io::Cursor::new(bytes.clone())).unwrap();
    let spec = reader.spec();
    assert_eq!(spec.channels, 1);
    assert_eq!(spec.sample_rate, 16000);
    assert_eq!(spec.bits_per_sample, 16);
    assert_eq!(spec.sample_format, hound::SampleFormat::Int);
    let decoded: Vec<i16> = reader.into_samples::<i16>().map(|s| s.unwrap()).collect();
    assert_eq!(decoded, samples);
    assert_eq!(&bytes[44..], encode_to_pcm(&samples).as_slice());
}

#[test]
fn wav_header_fields() {
    let bytes = encode_to_wav(&[1, 2, 3, 4], 16000, 2).unwrap();
    assert_eq!(&bytes[0..4], b"RIFF");
    assert_eq!(u32::from_le_bytes([bytes[4], bytes[5], bytes[6], bytes[7]]), 36 + 8);
    assert_eq!(&bytes[8..16], b"WAVEfmt ");
    assert_eq!(u16::from_le_bytes([bytes[22], bytes[23]]), 2);
    assert_eq!(u32::from_le_bytes([bytes[28], bytes[29], bytes[30], bytes[31]]), 64000);
    assert_eq!(&bytes[36..40], b"data");
    assert_eq!(u32::from_le_bytes([bytes[40], bytes[41], bytes[42], bytes[43]]), 8);
}

#[test]
fn wav_with_unfinished_frame_is_an_encoding_error() {
    let r = encode_to_wav(&[1, 2, 3], 16000, 2);
    assert!(matches!(r, Err(AudioError::Encoding(_))));
}

#[test]
fn wav_with_more_than_two_channels_uses_the_extensible_header() {
    let samples: Vec<i16> = vec![1, -2, 3, 400, -500, 600];
    let bytes = encode_to_wav(&samples, 48000, 3).unwrap();
    assert_eq!(bytes.len(), 68 + 2 * samples.len());
    assert_eq!(u16::from_le_bytes([bytes[20], bytes[21]]), 0xfffe);
    assert_eq!(u32::from_le_bytes([bytes[40], bytes[41], bytes[42], bytes[43]]), 7);
    let reader = hound::WavReader::new(std::io::Cursor::new(bytes.clone())).unwrap();
    assert_eq!(reader.spec().channels, 3);
    assert_eq!(reader.spec().sample_rate, 48000);
    let decoded: Vec<i16> = reader.into_samples::<i16>().map(|s| s.unwrap()).collect();
    assert_eq!(decoded, samples);
    assert_eq!(&bytes[68..], encode_to_pcm(&samples).as_slice());
}

#[test]
fn wav_encoding_is_deterministic() {
    let samples: Vec<i16> = vec![5, -5, 12000];
    assert_eq!(encode_to_wav(&samples, 16000, 1).unwrap(), encode_to_wav(&samples, 16000, 1).unwrap());
}
