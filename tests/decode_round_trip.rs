use std::io::Cursor;

fn wav_bytes(samples: &[i16]) -> Vec<u8> {
    let data_len = (samples.len() * 2) as u32;
    let mut b = Vec::new();
    b.extend_from_slice(b"RIFF");
    b.extend_from_slice(&(36 + data_len).to_le_bytes());
    b.extend_from_slice(b"WAVEfmt ");
    b.extend_from_slice(&16u32.to_le_bytes());
    b.extend_from_slice(&1u16.to_le_bytes());
    b.extend_from_slice(&1u16.to_le_bytes());
    b.extend_from_slice(&8000u32.to_le_bytes());
    b.extend_from_slice(&16000u32.to_le_bytes());
    b.extend_from_slice(&2u16.to_le_bytes());
    b.extend_from_slice(&16u16.to_le_bytes());
    b.extend_from_slice(b"data");
    b.extend_from_slice(&data_len.to_le_bytes());
    for s in samples {
        b.extend_from_slice(&s.to_le_bytes());
    }
    b
}

#[test]
fn decoding_the_first_packet_twice_gives_the_same_samples() {
    let samples: Vec<i16> = (0..4000).map(|i| ((i * 37) % 2000 - 1000) as i16).collect();
    let mss = symphonia::core::io::MediaSourceStream::new(Box::new(Cursor::new(wav_bytes(&samples))), Default::default());
    let probed = symphonia::default::get_probe()
        .format(&symphonia::core::probe::Hint::new(), mss, &symphonia::core::formats::FormatOptions::default(), &symphonia::core::meta::MetadataOptions::default())
        .unwrap();
    let mut reader = probed.format;
    let track = reader.default_track().unwrap();
    let track_id = track.id;
    let mut decoder = symphonia::default::get_codecs()
        .make(&track.codec_params, &symphonia::core::codecs::DecoderOptions::default())
        .unwrap();

    let mut decode_first = |reader: &mut Box<dyn symphonia::core::formats::FormatReader>| {
        let packet = reader.next_packet().unwrap();
        assert_eq!(packet.track_id(), track_id);
        assert_eq!(packet.ts(), 0);
        let decoded = decoder.decode(&packet).unwrap();
        let mut buf = symphonia::core::audio::SampleBuffer::<f32>::new(decoded.capacity() as u64, *decoded.spec());
        buf.copy_interleaved_ref(decoded);
        buf.samples().to_vec()
    };

    let first = decode_first(&mut reader);
    reader
        .seek(symphonia::core::formats::SeekMode::Coarse, symphonia::core::formats::SeekTo::Time { time: symphonia::core::units::Time::from(0u64), track_id: Some(track_id) })
        .unwrap();
    let second = decode_first(&mut reader);
    assert!(!first.is_empty());
    assert_eq!(first, second);
}
