use std::io::Cursor;
use wave_crafter::wav::{interleave, stereo_wav, CHANNELS, SAMPLE_RATE};

fn header(data_len: u32) -> Vec<u8> {
    let mut h = Vec::new();
    h.extend_from_slice(b"RIFF");
    h.extend_from_slice(&(36 + data_len).to_le_bytes());
    h.extend_from_slice(b"WAVEfmt ");
    h.extend_from_slice(&16u32.to_le_bytes());
    h.extend_from_slice(&1u16.to_le_bytes());
    h.extend_from_slice(&2u16.to_le_bytes());
    h.extend_from_slice(&44100u32.to_le_bytes());
    h.extend_from_slice(&176400u32.to_le_bytes());
    h.extend_from_slice(&4u16.to_le_bytes());
    h.extend_from_slice(&16u16.to_le_bytes());
    h.extend_from_slice(b"data");
    h.extend_from_slice(&data_len.to_le_bytes());
    h
}

fn image(frames: &Vec<(i16, i16)>) -> Vec<u8> {
    match stereo_wav(frames) {
        Ok(b) => b,
        Err(_) => panic!("export refused"),
    }
}

#[test]
fn interleave_left_then_right() {
    assert_eq!(interleave(&vec![(1, 2), (3, 4), (-5, 6)]), vec![1, 2, 3, 4, -5, 6]);
    assert!(interleave(&vec![]).is_empty());
}

#[test]
fn format_constants() {
    assert_eq!(SAMPLE_RATE, 44100);
    assert_eq!(CHANNELS, 2);
}

#[test]
fn empty_export_is_header_only() {
    assert_eq!(image(&vec![]), header(0));
}

#[test]
fn export_bytes_exact() {
    let bytes = image(&vec![(1, -1), (i16::MAX, i16::MIN)]);
    let mut expected = header(8);
    expected.extend_from_slice(&[0x01, 0x00, 0xff, 0xff, 0xff, 0x7f, 0x00, 0x80]);
    assert_eq!(bytes, expected);
}

#[test]
fn export_size_four_bytes_per_frame() {
    let frames: Vec<(i16, i16)> = (0..44100).map(|i| ((i % 300) as i16, -((i % 700) as i16))).collect();
    let bytes = image(&frames);
    assert_eq!(bytes.len(), 44 + 4 * 44100);
    assert_eq!(&bytes[40..44], &(4u32 * 44100).to_le_bytes());
}

#[test]
fn export_is_deterministic() {
    let frames: Vec<(i16, i16)> = (0..1000).map(|i| (i as i16, (1000 - i) as i16)).collect();
    assert_eq!(image(&frames), image(&frames.clone()));
}

#[test]
fn export_reads_back_with_hound() {
    let frames = vec![(100, -100), (0, 32767), (-32768, 5)];
    let bytes = image(&frames);
    let mut reader = hound::WavReader::new(Cursor::new(bytes)).unwrap();
    let spec = reader.spec();
    assert_eq!(spec.channels, 2);
    assert_eq!(spec.sample_rate, 44100);
    assert_eq!(spec.bits_per_sample, 16);
    let samples: Vec<i16> = reader.samples::<i16>().map(|s| s.unwrap()).collect();
    assert_eq!(samples, vec![100, -100, 0, 32767, -32768, 5]);
}

#[test]
fn one_second_of_silence_exports() {
    let frames = vec![(0i16, 0i16); 44100];
    let bytes = image(&frames);
    assert_eq!(bytes.len(), 44 + 176400);
    assert_eq!(&bytes[..44], &header(176400)[..]);
    assert!(bytes[44..].iter().all(|&b| b == 0));
}
