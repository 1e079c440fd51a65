use recordnote::audio::negotiate::fallback;
use recordnote::audio::negotiate::find_matching_config;
use recordnote::audio::negotiate::negotiate;
use recordnote::audio::negotiate::NegotiatedConfig;
use recordnote::audio::negotiate::SupportedConfigRange;
use recordnote::audio::recorder::RecorderError;

fn range(channels: u16, min: u32, max: u32) -> SupportedConfigRange {
    SupportedConfigRange { channels, min_sample_rate: min, max_sample_rate: max }
}

#[test]
fn exact_match_takes_the_requested_configuration() {
    let supported = vec![range(2, 8000, 48000), range(1, 8000, 48000)];
    let chosen = negotiate(16000, 1, &supported, None).unwrap();
    assert_eq!(chosen, NegotiatedConfig { channels: 1, sample_rate: 16000 });
}

#[test]
fn rate_at_range_bounds_still_matches() {
    let supported = vec![range(1, 16000, 16000)];
    let chosen = find_matching_config(16000, 1, &supported).unwrap();
    assert_eq!(chosen, NegotiatedConfig { channels: 1, sample_rate: 16000 });
}

#[test]
fn wrong_channel_count_is_not_a_match() {
    let supported = vec![range(2, 8000, 48000)];
    assert_eq!(find_matching_config(16000, 1, &supported), None);
}

#[test]
fn rate_outside_the_range_is_not_a_match() {
    let supported = vec![range(1, 44100, 48000)];
    assert_eq!(find_matching_config(16000, 1, &supported), None);
}

#[test]
fn no_match_falls_back_to_the_device_default_with_clamped_channels() {
    let supported = vec![range(4, 8000, 48000)];
    let chosen = negotiate(16000, 2, &supported, Some(1)).unwrap();
    assert_eq!(chosen, NegotiatedConfig { channels: 1, sample_rate: 16000 });
}

#[test]
fn fallback_keeps_the_smaller_requested_channel_count() {
    let chosen = fallback(44100, 1, 2);
    assert_eq!(chosen, NegotiatedConfig { channels: 1, sample_rate: 44100 });
}

#[test]
fn no_match_and_no_default_is_device_unavailable() {
    let supported: Vec<SupportedConfigRange> = Vec::new();
    let res = negotiate(16000, 1, &supported, None);
    assert_eq!(res, Err(RecorderError::DeviceUnavailable));
}
