use hal_mik32::crc::{
    is_busy, pack_u32, poll_ready, update_writes, write_at, write_count, Config, CrcWrite,
    Transpose,
};

#[test]
fn full_words_are_packed_like_the_reference_driver() {
    assert_eq!(pack_u32(&[0x12, 0x34, 0x56, 0x78]), 0x1234_5678);
}

#[test]
fn presets_match_documented_parameters() {
    assert_eq!(
        Config::crc32_iso_hdlc(),
        Config {
            polynomial: 0x04c1_1db7,
            initial_value: 0xffff_ffff,
            input_transpose: Transpose::BitsAndBytes,
            output_transpose: Transpose::BitsAndBytes,
            final_xor: true,
        }
    );
    assert_eq!(Config::crc32_mpeg2().output_transpose, Transpose::Unchanged);
    assert!(!Config::crc32_mpeg2().final_xor);
}

#[test]
fn default_config_is_iso_hdlc() {
    assert_eq!(Config::default(), Config::crc32_iso_hdlc());
    assert_eq!(Transpose::default(), Transpose::Unchanged);
}

#[test]
fn builder_sets_each_field() {
    let config = Config::new(0x1edc_6f41)
        .initial_value(7)
        .input_transpose(Transpose::Bits)
        .output_transpose(Transpose::Bytes)
        .final_xor(true);
    assert_eq!(config.polynomial, 0x1edc_6f41);
    assert_eq!(config.initial_value, 7);
    assert_eq!(config.input_transpose, Transpose::Bits);
    assert_eq!(config.output_transpose, Transpose::Bytes);
    assert!(config.final_xor);
}

#[test]
fn transpose_field_values() {
    assert_eq!(Transpose::Unchanged.bits(), 0);
    assert_eq!(Transpose::Bits.bits(), 1);
    assert_eq!(Transpose::BitsAndBytes.bits(), 2);
    assert_eq!(Transpose::Bytes.bits(), 3);
}

#[test]
fn check_string_is_sent_as_two_words_and_a_byte() {
    assert_eq!(
        update_writes(b"123456789"),
        vec![
            CrcWrite::Word(0x3132_3334),
            CrcWrite::Word(0x3536_3738),
            CrcWrite::Byte(0x39)
        ]
    );
}

#[test]
fn tails_use_half_word_and_byte_writes() {
    assert_eq!(update_writes(&[]), vec![]);
    assert_eq!(update_writes(&[0xaa]), vec![CrcWrite::Byte(0xaa)]);
    assert_eq!(update_writes(&[0xaa, 0xbb]), vec![CrcWrite::Half(0xaabb)]);
    assert_eq!(
        update_writes(&[0xaa, 0xbb, 0xcc]),
        vec![CrcWrite::Half(0xaabb), CrcWrite::Byte(0xcc)]
    );
    assert_eq!(
        update_writes(&[1, 2, 3, 4, 5, 6, 7]),
        vec![
            CrcWrite::Word(0x0102_0304),
            CrcWrite::Half(0x0506),
            CrcWrite::Byte(7)
        ]
    );
}

#[test]
fn writes_feed_back_the_same_bytes() {
    let data: Vec<u8> = (0u8..23).map(|b| b.wrapping_mul(37)).collect();
    let mut stream = Vec::new();
    for write in update_writes(&data) {
        match write {
            CrcWrite::Word(w) => stream.extend_from_slice(&w.to_be_bytes()),
            CrcWrite::Half(h) => stream.extend_from_slice(&h.to_be_bytes()),
            CrcWrite::Byte(b) => stream.push(b),
        }
    }
    assert_eq!(stream, data);
}

#[test]
fn readiness_poll_tracks_pending_writes() {
    assert_eq!(poll_ready(false, false), (false, true, false));
    assert_eq!(poll_ready(false, true), (false, false, false));
    assert_eq!(poll_ready(true, true), (true, false, true));
    assert_eq!(poll_ready(true, false), (true, true, false));
    assert!(is_busy(true, false));
    assert!(is_busy(false, true));
    assert!(!is_busy(false, false));
}

#[test]
fn writes_one_at_a_time_match_the_plan() {
    let bytes: Vec<u8> = (0u8..11).collect();
    for len in 0..=bytes.len() {
        let slice = &bytes[..len];
        let plan = update_writes(slice);
        assert_eq!(write_count(len), plan.len());
        for (i, expected) in plan.iter().enumerate() {
            assert_eq!(write_at(slice, i), *expected);
        }
    }
}
