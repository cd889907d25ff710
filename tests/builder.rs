use chlorate::config::{RecognitionMode, SodaBuilder};

fn default_record() -> Vec<u8> {
    let mut v: Vec<u8> = vec![0x08, 0x01, 0x10, 0x80, 0x7d, 0x20, 0x00, 0x28, 0x00, 0x32, 0x09];
    v.extend_from_slice(b"dummy_key");
    v.extend_from_slice(&[0x3a, 0x0c]);
    v.extend_from_slice(b"./SODAModels");
    v.extend_from_slice(&[0x40, 0x01, 0x48, 0x01, 0x50, 0x01, 0x58, 0x00]);
    v
}

#[test]
fn defaults_encode_documented_values() {
    assert_eq!(SodaBuilder::new().encode_config(), default_record());
}

#[test]
fn default_and_new_agree() {
    let a: SodaBuilder = Default::default();
    assert_eq!(a.encode_config(), SodaBuilder::new().encode_config());
}

#[test]
fn setters_change_their_own_fields() {
    let mut b = SodaBuilder::new();
    b.channel_count(2)
        .sample_rate(8000)
        .max_buffer_bytes(300)
        .simulate_realtime_testonly(true)
        .api_key("k".to_string())
        .language_pack_directory("en_models".to_string())
        .recognition_mode(RecognitionMode::Caption)
        .reset_on_final_result(false)
        .include_timing_metrics(false)
        .enable_lang_id(true);
    let mut want: Vec<u8> = vec![
        0x08, 0x02, 0x10, 0xc0, 0x3e, 0x20, 0xac, 0x02, 0x28, 0x01, 0x32, 0x01, b'k', 0x3a, 0x09,
    ];
    want.extend_from_slice(b"en_models");
    want.extend_from_slice(&[0x40, 0x02, 0x48, 0x00, 0x50, 0x00, 0x58, 0x01]);
    assert_eq!(b.encode_config(), want);
}

#[test]
fn encoding_does_not_reset_builder() {
    let mut b = SodaBuilder::new();
    b.sample_rate(44100);
    let first = b.encode_config();
    let second = b.encode_config();
    assert_eq!(first, second);
    assert_ne!(first, default_record());
}

#[test]
fn large_unsigned_values_wrap_to_negative_int32() {
    let mut b = SodaBuilder::new();
    b.channel_count(u32::MAX);
    let r = b.encode_config();
    assert_eq!(
        &r[..11],
        &[0x08, 0xff, 0xff, 0xff, 0xff, 0xff, 0xff, 0xff, 0xff, 0xff, 0x01]
    );
    assert_eq!(&r[11..], &default_record()[2..]);
}

#[test]
fn non_ascii_strings_are_written_as_utf8_bytes() {
    let mut b = SodaBuilder::new();
    b.api_key("é".to_string());
    let r = b.encode_config();
    let pos = 9;
    assert_eq!(&r[pos..pos + 4], &[0x32, 0x02, 0xc3, 0xa9]);
}

#[test]
fn recognition_mode_numbers() {
    assert_eq!(RecognitionMode::Unknown.number(), 0);
    assert_eq!(RecognitionMode::Ime.number(), 1);
    assert_eq!(RecognitionMode::Caption.number(), 2);
}
