use quibble::wav::{decode, encode, DecodeError, HEADER_LEN};

fn to_i16(s: f32) -> i16 {
    (s * 32767.0) as i16
}

fn le16(buf: &[u8]) -> u16 {
    buf[0] as u16 | (buf[1] as u16) << 8
}

fn le32(buf: &[u8]) -> u32 {
    buf[0] as u32 | (buf[1] as u32) << 8 | (buf[2] as u32) << 16 | (buf[3] as u32) << 24
}

#[test]
fn encode_empty_is_header_only() {
    let out = encode(&vec![]).unwrap();
    assert_eq!(out.len(), HEADER_LEN);
    assert_eq!(le32(&out[40..44]), 0);
}

#[test]
fn encode_is_deterministic() {
    let samples: Vec<i16> = vec![0, 1, -1, 32767, -32768, 12345];
    let a = encode(&samples).unwrap();
    let b = encode(&samples).unwrap();
    assert_eq!(a, b);
}

#[test]
fn header_fields_are_fixed_for_all_inputs() {
    let inputs: Vec<Vec<i16>> = vec![
        vec![],
        vec![0],
        vec![32767, -32768],
        vec![5; 1001],
        (0..4000).map(|i| (i % 97) as i16).collect(),
    ];
    for samples in inputs {
        let out = encode(&samples).unwrap();
        assert_eq!(&out[0..4], b"RIFF");
        assert_eq!(le32(&out[4..8]) as usize, 36 + 2 * samples.len());
        assert_eq!(&out[8..12], b"WAVE");
        assert_eq!(&out[12..16], b"fmt ");
        assert_eq!(le32(&out[16..20]), 16);
        assert_eq!(le16(&out[20..22]), 1, "integer PCM format tag");
        assert_eq!(le16(&out[22..24]), 1, "mono");
        assert_eq!(le32(&out[24..28]), 16000, "sample rate");
        assert_eq!(le32(&out[28..32]), 32000, "byte rate");
        assert_eq!(le16(&out[32..34]), 2, "block align");
        assert_eq!(le16(&out[34..36]), 16, "bits per sample");
        assert_eq!(&out[36..40], b"data");
        assert_eq!(le32(&out[40..44]) as usize, 2 * samples.len());
    }
}

#[test]
fn payload_length_is_twice_sample_count() {
    for n in [0usize, 1, 2, 3, 100, 16000] {
        let samples: Vec<i16> = vec![-7; n];
        let out = encode(&samples).unwrap();
        assert_eq!(out.len(), HEADER_LEN + 2 * n);
        assert_eq!(le32(&out[40..44]) as usize, 2 * n);
    }
}

#[test]
fn round_trip_with_standard_reader() {
    let floats: [f32; 6] = [-1.0, -0.5, 0.0, 0.25, 0.5, 1.0];
    let samples: Vec<i16> = floats.iter().map(|&s| to_i16(s)).collect();
    assert_eq!(samples, vec![-32767, -16383, 0, 8191, 16383, 32767]);
    let out = encode(&samples).unwrap();

    let cursor = std::io::Cursor::new(out);
    let mut reader = hound::WavReader::new(cursor).unwrap();
    let spec = reader.spec();
    assert_eq!(spec.channels, 1);
    assert_eq!(spec.sample_rate, 16000);
    assert_eq!(spec.bits_per_sample, 16);
    assert_eq!(spec.sample_format, hound::SampleFormat::Int);
    let back: Vec<i16> = reader.samples::<i16>().map(|s| s.unwrap()).collect();
    assert_eq!(back, samples);
}

#[test]
fn bytes_match_reference_writer() {
    let samples: Vec<i16> = vec![0, 1, -1, 16383, -16384, 32767, -32768];
    let ours = encode(&samples).unwrap();

    let spec = hound::WavSpec {
        channels: 1,
        sample_rate: 16000,
        bits_per_sample: 16,
        sample_format: hound::SampleFormat::Int,
    };
    let mut buffer = std::io::Cursor::new(Vec::new());
    {
        let mut writer = hound::WavWriter::new(&mut buffer, spec).unwrap();
        for &s in &samples {
            writer.write_sample(s).unwrap();
        }
        writer.finalize().unwrap();
    }
    assert_eq!(ours, buffer.into_inner());
}

#[test]
fn decode_inverts_encode() {
    let samples: Vec<i16> = (0..1000).map(|i| (i * 31 - 500) as i16).collect();
    let out = encode(&samples).unwrap();
    let back = decode(&out).unwrap();
    assert_eq!(back, samples);
}

#[test]
fn decode_rejects_truncated() {
    let out = encode(&vec![1i16, 2, 3]).unwrap();
    let short: Vec<u8> = out[0..43].to_vec();
    assert_eq!(decode(&short), Err(DecodeError::Truncated));
    assert_eq!(decode(&vec![]), Err(DecodeError::Truncated));
}

#[test]
fn decode_rejects_odd_payload() {
    let mut out = encode(&vec![1i16, 2, 3]).unwrap();
    out.push(0);
    assert_eq!(decode(&out), Err(DecodeError::OddPayload));
}

#[test]
fn decode_rejects_wrong_header() {
    let mut out = encode(&vec![1i16, 2, 3]).unwrap();
    out[22] = 2; // claim stereo
    assert_eq!(decode(&out), Err(DecodeError::HeaderMismatch));

    let mut out = encode(&vec![1i16, 2, 3]).unwrap();
    out[24] = 0x22; // claim 8200 Hz
    out[25] = 0x20;
    assert_eq!(decode(&out), Err(DecodeError::HeaderMismatch));

    // A header whose size fields describe a different payload length.
    let longer = encode(&vec![1i16, 2, 3, 4]).unwrap();
    let clipped: Vec<u8> = longer[0..50].to_vec();
    assert_eq!(decode(&clipped), Err(DecodeError::HeaderMismatch));
}

#[test]
fn sample_conversion_matches_truncation() {
    assert_eq!(to_i16(0.5), 16383);
    assert_eq!(to_i16(-0.5), -16383);
    assert_eq!(to_i16(0.00001), 0);
    let out = encode(&vec![16383]).unwrap();
    assert_eq!(out[44], 0xff);
    assert_eq!(out[45], 0x3f);
}
