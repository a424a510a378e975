use audio_capture::wav::{encode_wav, EncodeError};
use std::io::Cursor;

fn to_pcm16(samples: &[f32]) -> Vec<i16> {
    samples.iter().map(|s| (s * i16::MAX as f32) as i16).collect()
}

fn u32_at(b: &[u8], i: usize) -> u32 {
    u32::from_le_bytes([b[i], b[i + 1], b[i + 2], b[i + 3]])
}

fn u16_at(b: &[u8], i: usize) -> u16 {
    u16::from_le_bytes([b[i], b[i + 1]])
}

#[test]
fn four_samples_mono_at_44100() {
    let pcm = to_pcm16(&[0.0, 0.5, -1.0, 1.0]);
    assert_eq!(pcm, vec![0, 16383, -32767, 32767]);
    let bytes = encode_wav(&pcm, 44100, 1).unwrap();
    assert_eq!(bytes.len(), 52);
    assert_eq!(&bytes[0..4], b"RIFF");
    assert_eq!(u32_at(&bytes, 4), 44);
    assert_eq!(&bytes[8..16], b"WAVEfmt ");
    assert_eq!(u32_at(&bytes, 16), 16);
    assert_eq!(u16_at(&bytes, 20), 1);
    assert_eq!(u16_at(&bytes, 22), 1);
    assert_eq!(u32_at(&bytes, 24), 44100);
    assert_eq!(u32_at(&bytes, 28), 88200);
    assert_eq!(u16_at(&bytes, 32), 2);
    assert_eq!(u16_at(&bytes, 34), 16);
    assert_eq!(&bytes[36..40], b"data");
    assert_eq!(u32_at(&bytes, 40), 8);
    assert_eq!(&bytes[44..], &[0x00, 0x00, 0xff, 0x3f, 0x01, 0x80, 0xff, 0x7f]);
}

#[test]
fn encoding_reads_back_through_hound() {
    let input: Vec<f32> = (0..200).map(|k| (k as f32 - 100.0) / 100.0).collect();
    let pcm = to_pcm16(&input);
    let bytes = encode_wav(&pcm, 48000, 2).unwrap();
    let reader = hound::WavReader::new(Cursor::new(bytes)).unwrap();
    let spec = reader.spec();
    assert_eq!(spec.sample_rate, 48000);
    assert_eq!(spec.channels, 2);
    assert_eq!(spec.bits_per_sample, 16);
    assert_eq!(reader.len() as usize, input.len());
    let back: Vec<i16> = reader.into_samples::<i16>().map(|s| s.unwrap()).collect();
    assert_eq!(back.len(), input.len());
    for (s, v) in input.iter().zip(back.iter()) {
        let want = (s * 32767.0).round() as i32;
        assert!((*v as i32 - want).abs() <= 1);
    }
}

#[test]
fn empty_buffer_gives_header_and_empty_data_chunk() {
    let bytes = encode_wav(&vec![], 44100, 1).unwrap();
    assert_eq!(bytes.len(), 44);
    assert_eq!(u32_at(&bytes, 4), 36);
    assert_eq!(&bytes[36..40], b"data");
    assert_eq!(u32_at(&bytes, 40), 0);
    let reader = hound::WavReader::new(Cursor::new(bytes)).unwrap();
    assert_eq!(reader.len(), 0);
    assert_eq!(reader.spec().sample_rate, 44100);
}

#[test]
fn more_than_two_channels_use_extensible_header() {
    let pcm: Vec<i16> = vec![1, -2, 3, -4, 5, -6];
    let bytes = encode_wav(&pcm, 16000, 3).unwrap();
    assert_eq!(bytes.len(), 68 + 12);
    assert_eq!(u32_at(&bytes, 16), 40);
    assert_eq!(u16_at(&bytes, 20), 0xfffe);
    assert_eq!(u16_at(&bytes, 22), 3);
    assert_eq!(u32_at(&bytes, 28), 16000 * 6);
    assert_eq!(&bytes[60..64], b"data");
    assert_eq!(u32_at(&bytes, 64), 12);
    let reader = hound::WavReader::new(Cursor::new(bytes)).unwrap();
    assert_eq!(reader.spec().channels, 3);
    let back: Vec<i16> = reader.into_samples::<i16>().map(|s| s.unwrap()).collect();
    assert_eq!(back, pcm);
}

#[test]
fn unfinished_frame_is_a_write_error() {
    let r = encode_wav(&vec![1, 2, 3], 44100, 2);
    assert_eq!(r, Err(EncodeError::WriteError));
}

#[test]
fn out_of_range_samples_saturate() {
    let pcm = to_pcm16(&[2.0, -2.0]);
    assert_eq!(pcm, vec![32767, -32768]);
    let bytes = encode_wav(&pcm, 8000, 1).unwrap();
    assert_eq!(&bytes[44..], &[0xff, 0x7f, 0x00, 0x80]);
}
