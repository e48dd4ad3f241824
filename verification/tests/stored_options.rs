use ruffle_ios::options::{
    Letterbox, LoadBehavior, PlayerOptions, PlayerRuntime, StageAlign, StageQuality, StageScaleMode, TimeSpan,
};
use ruffle_ios::stored_options::{decode_options, encode_options};

fn every_option() -> PlayerOptions {
    let mut o = PlayerOptions::unset();
    o.parameters = vec![("a".to_string(), "1".to_string()), ("é".to_string(), "ü€".to_string())];
    o.max_execution_duration = Some(TimeSpan { secs: 0x0102_0304_0506_0708, subsec_nanos: 999_999_999 });
    o.base = Some("https://example.com/base/".to_string());
    o.quality = Some(StageQuality::High16x16Linear);
    o.align = Some(StageAlign::top().union(StageAlign::left()));
    o.force_align = Some(true);
    o.scale = Some(StageScaleMode::NoBorder);
    o.force_scale = Some(false);
    o.upgrade_to_https = Some(true);
    o.load_behavior = Some(LoadBehavior::Blocking);
    o.letterbox = Some(Letterbox::Fullscreen);
    o.spoof_url = Some("https://spoof.example/".to_string());
    o.player_version = Some(32);
    o.player_runtime = Some(PlayerRuntime::AIR);
    o.referer = Some("".to_string());
    o.cookie = Some("k=v".to_string());
    o.dummy_external_interface = Some(false);
    o.frame_rate_bits = Some(24.5f64.to_bits());
    o
}

#[test]
fn unset_options_have_a_short_stored_form() {
    let data = encode_options(&PlayerOptions::unset());
    let mut expected = vec![1u8];
    expected.extend(std::iter::repeat(0u8).take(22));
    expected.extend([0u8, 0, 0, 0, 0, 0, 0]);
    assert_eq!(data, expected);
}

#[test]
fn a_text_is_its_length_then_its_bytes() {
    let mut o = PlayerOptions::unset();
    o.base = Some("ab".to_string());
    let data = encode_options(&o);
    assert_eq!(&data[23..26], &[0u8, 0, 1]);
    assert_eq!(&data[26..36], &[2u8, 0, 0, 0, 0, 0, 0, 0, b'a', b'b']);
    assert_eq!(data.len(), 40);
}

#[test]
fn small_options_are_presence_and_value_bytes() {
    let mut o = PlayerOptions::unset();
    o.quality = Some(StageQuality::High);
    o.player_version = Some(9);
    let data = encode_options(&o);
    assert_eq!(&data[1..3], &[1u8, 2]);
    assert_eq!(&data[17..19], &[1u8, 9]);
}

#[test]
fn every_option_reads_back() {
    let o = every_option();
    let r = decode_options(&encode_options(&o)).expect("stored form reads back");
    assert_eq!(r.parameters, o.parameters);
    assert_eq!(r.max_execution_duration, o.max_execution_duration);
    assert_eq!(r.base, o.base);
    assert_eq!(r.quality, o.quality);
    assert_eq!(r.align, o.align);
    assert_eq!(r.force_align, o.force_align);
    assert_eq!(r.scale, o.scale);
    assert_eq!(r.force_scale, o.force_scale);
    assert_eq!(r.upgrade_to_https, o.upgrade_to_https);
    assert_eq!(r.load_behavior, o.load_behavior);
    assert_eq!(r.letterbox, o.letterbox);
    assert_eq!(r.spoof_url, o.spoof_url);
    assert_eq!(r.player_version, o.player_version);
    assert_eq!(r.player_runtime, o.player_runtime);
    assert_eq!(r.referer, o.referer);
    assert_eq!(r.cookie, o.cookie);
    assert_eq!(r.dummy_external_interface, o.dummy_external_interface);
    assert_eq!(r.frame_rate_bits.map(f64::from_bits), Some(24.5));
}

#[test]
fn a_frame_rate_is_the_bytes_of_its_bit_pattern() {
    let mut o = PlayerOptions::unset();
    o.frame_rate_bits = Some(0x0102_0304_0506_0708);
    let data = encode_options(&o);
    assert_eq!(&data[24..33], &[1u8, 8, 7, 6, 5, 4, 3, 2, 1]);
}

#[test]
fn other_bytes_hold_no_options() {
    assert!(decode_options(b"{}").is_none());
    assert!(decode_options(&[]).is_none());
    let mut data = encode_options(&every_option());
    data[0] = 2;
    assert!(decode_options(&data).is_none());
    let mut data = encode_options(&every_option());
    data.push(0);
    assert!(decode_options(&data).is_none());
    let mut data = encode_options(&PlayerOptions::unset());
    data[1] = 1;
    data[2] = 8;
    assert!(decode_options(&data).is_none());
    let mut data = encode_options(&PlayerOptions::unset());
    data[2] = 5;
    assert!(decode_options(&data).is_none());
}

#[test]
fn texts_must_be_utf8() {
    let mut o = PlayerOptions::unset();
    o.cookie = Some("ab".to_string());
    let mut data = encode_options(&o);
    let at = data.len() - 3;
    data[at] = 0xff;
    assert!(decode_options(&data).is_none());
}
