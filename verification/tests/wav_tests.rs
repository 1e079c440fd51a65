use std::io::Cursor;

use recordnote::audio::wav::encode_wav;
use recordnote::AudioRecorder;

#[test]
fn container_is_byte_identical_to_the_reference_encoder() {
    let samples_f: Vec<f32> = vec![0.0, 0.5, -0.5, 1.0, -1.0, 0.125];
    let bits: Vec<u32> = samples_f.iter().map(|s| s.to_bits()).collect();
    let ours = encode_wav(&bits, 2, 44100);

    let spec = hound::WavSpec {
        channels: 2,
        sample_rate: 44100,
        bits_per_sample: 32,
        sample_format: hound::SampleFormat::Float,
    };
    let mut reference: Vec<u8> = Vec::new();
    {
        let mut writer = hound::WavWriter::new(Cursor::new(&mut reference), spec).unwrap();
        for s in &samples_f {
            writer.write_sample(*s).unwrap();
        }
        writer.finalize().unwrap();
    }
    assert_eq!(ours, reference);
}

#[test]
fn mono_container_is_byte_identical_to_the_reference_encoder() {
    let samples_f: Vec<f32> = (0..32).map(|i| i as f32 / 32.0).collect();
    let bits: Vec<u32> = samples_f.iter().map(|s| s.to_bits()).collect();
    let ours = encode_wav(&bits, 1, 16000);

    let spec = hound::WavSpec {
        channels: 1,
        sample_rate: 16000,
        bits_per_sample: 32,
        sample_format: hound::SampleFormat::Float,
    };
    let mut reference: Vec<u8> = Vec::new();
    {
        let mut writer = hound::WavWriter::new(Cursor::new(&mut reference), spec).unwrap();
        for s in &samples_f {
            writer.write_sample(*s).unwrap();
        }
        writer.finalize().unwrap();
    }
    assert_eq!(ours, reference);
}

#[test]
fn recorded_session_yields_a_readable_container() {
    let mut r = AudioRecorder::new(16000, 1);
    r.start_begin().unwrap();
    r.start_commit();
    let first: Vec<u32> = (0..400).map(|i| (i as f32 / 400.0).to_bits()).collect();
    r.deliver_samples(&first);
    r.deliver_samples(&vec![0.75f32.to_bits(); 400]);
    r.stop_begin().unwrap();
    r.stop_finish();

    let bytes = r.get_audio_bytes().unwrap();
    let mut reader = hound::WavReader::new(Cursor::new(&bytes)).unwrap();
    let spec = reader.spec();
    assert_eq!(spec.channels, 1);
    assert_eq!(spec.sample_rate, 16000);
    assert_eq!(spec.bits_per_sample, 32);
    assert_eq!(spec.sample_format, hound::SampleFormat::Float);

    let decoded: Vec<f32> = reader.samples::<f32>().map(|s| s.unwrap()).collect();
    assert_eq!(decoded.len(), 800);
    for i in 0..400 {
        assert_eq!(decoded[i].to_bits(), (i as f32 / 400.0).to_bits());
    }
    for i in 400..800 {
        assert_eq!(decoded[i], 0.75);
    }
}

#[test]
fn header_fields_are_exact() {
    let bits = vec![0x3f800000u32];
    let b = encode_wav(&bits, 1, 16000);
    assert_eq!(b.len(), 72);
    assert_eq!(&b[0..4], b"RIFF");
    assert_eq!(u32::from_le_bytes([b[4], b[5], b[6], b[7]]), 64);
    assert_eq!(&b[8..12], b"WAVE");
    assert_eq!(&b[12..16], b"fmt ");
    assert_eq!(u32::from_le_bytes([b[16], b[17], b[18], b[19]]), 40);
    assert_eq!(u16::from_le_bytes([b[20], b[21]]), 0xfffe);
    assert_eq!(u16::from_le_bytes([b[22], b[23]]), 1);
    assert_eq!(u32::from_le_bytes([b[24], b[25], b[26], b[27]]), 16000);
    assert_eq!(u32::from_le_bytes([b[28], b[29], b[30], b[31]]), 64000);
    assert_eq!(u16::from_le_bytes([b[32], b[33]]), 4);
    assert_eq!(u16::from_le_bytes([b[34], b[35]]), 32);
    assert_eq!(u16::from_le_bytes([b[36], b[37]]), 22);
    assert_eq!(u16::from_le_bytes([b[38], b[39]]), 32);
    assert_eq!(u32::from_le_bytes([b[40], b[41], b[42], b[43]]), 1);
    assert_eq!(
        &b[44..60],
        &[0x03, 0x00, 0x00, 0x00, 0x00, 0x00, 0x10, 0x00, 0x80, 0x00, 0x00, 0xaa, 0x00, 0x38,
            0x9b, 0x71],
    );
    assert_eq!(&b[60..64], b"data");
    assert_eq!(u32::from_le_bytes([b[64], b[65], b[66], b[67]]), 4);
    assert_eq!(u32::from_le_bytes([b[68], b[69], b[70], b[71]]), 0x3f800000);
}
