use rs_pamixer::volume::{
    clamp_volume, limit_boost, percent_to_volume, volume_to_percent, ChannelVolumes, CHANNELS_MAX,
    VOLUME_MAX, VOLUME_NORM,
};

#[test]
fn percent_to_volume_exact_values() {
    assert_eq!(percent_to_volume(100), VOLUME_NORM);
    assert_eq!(percent_to_volume(50), 32768);
    assert_eq!(percent_to_volume(1), 655);
    assert_eq!(percent_to_volume(0), 0);
    assert_eq!(percent_to_volume(150), 98304);
}

#[test]
fn percent_to_volume_wraps_like_a_cast() {
    assert_eq!(percent_to_volume(-1), 4294966641);
    assert_eq!(percent_to_volume(6553599), 4294966640);
    assert_eq!(percent_to_volume(6553600), 0);
    assert_eq!(percent_to_volume(i32::MAX), ((i32::MAX as i64 * 65536 / 100) as u32));
    assert_eq!(percent_to_volume(i32::MIN), ((i32::MIN as i64 * 65536 / 100) as u32));
}

#[test]
fn volume_to_percent_exact_values() {
    assert_eq!(volume_to_percent(VOLUME_NORM), 100);
    assert_eq!(volume_to_percent(655), 0);
    assert_eq!(volume_to_percent(656), 1);
    assert_eq!(volume_to_percent(0), 0);
    assert_eq!(volume_to_percent(u32::MAX), 6553599);
}

#[test]
fn percent_round_trip_loses_at_most_one_point() {
    for p in 0..=1000i32 {
        let back = volume_to_percent(percent_to_volume(p));
        assert!(back == p || back == p - 1, "p = {}", p);
        if p % 25 == 0 {
            assert_eq!(back, p);
        }
    }
    assert_eq!(volume_to_percent(percent_to_volume(1)), 0);
    assert_eq!(volume_to_percent(percent_to_volume(6553599)), 6553598);
}

#[test]
fn percent_to_volume_is_monotonic() {
    let mut last = 0;
    for p in 0..=2000i32 {
        let v = percent_to_volume(p);
        assert!(v >= last);
        last = v;
    }
}

#[test]
fn limit_boost_caps_only_without_boost() {
    assert_eq!(limit_boost(VOLUME_NORM + 1, false), VOLUME_NORM);
    assert_eq!(limit_boost(VOLUME_NORM + 1, true), VOLUME_NORM + 1);
    assert_eq!(limit_boost(VOLUME_NORM, false), VOLUME_NORM);
    assert_eq!(limit_boost(10, false), 10);
}

#[test]
fn clamp_volume_caps_at_max() {
    assert_eq!(clamp_volume(u32::MAX), VOLUME_MAX);
    assert_eq!(clamp_volume(VOLUME_MAX), VOLUME_MAX);
    assert_eq!(clamp_volume(VOLUME_MAX + 1), 0x7fff_ffff);
    assert_eq!(clamp_volume(5), 5);
}

#[test]
fn channel_average_rounds_down() {
    let cv = ChannelVolumes::new(vec![100, 200, 301]);
    assert_eq!(cv.avg(), 200);
    let cv = ChannelVolumes::new(vec![VOLUME_NORM, VOLUME_NORM]);
    assert_eq!(cv.avg(), VOLUME_NORM);
    let cv = ChannelVolumes::new(vec![VOLUME_MAX; CHANNELS_MAX]);
    assert_eq!(cv.avg(), VOLUME_MAX);
}

#[test]
fn channel_average_of_invalid_volumes_is_muted() {
    assert_eq!(ChannelVolumes::new(vec![]).avg(), 0);
    assert_eq!(ChannelVolumes::new(vec![VOLUME_MAX + 1]).avg(), 0);
    assert_eq!(ChannelVolumes::new(vec![1; CHANNELS_MAX + 1]).avg(), 0);
    assert!(!ChannelVolumes::new(vec![]).is_valid());
    assert!(ChannelVolumes::new(vec![0]).is_valid());
}

#[test]
fn set_then_average_gives_the_volume() {
    let mut cv = ChannelVolumes::new(vec![1, 2, 3]);
    cv.set(3, 40000);
    assert_eq!(cv.values, vec![40000, 40000, 40000]);
    assert_eq!(cv.avg(), 40000);
    cv.set(1, 7);
    assert_eq!(cv.values, vec![7]);
    assert_eq!(cv.len(), 1);
}

#[test]
fn copy_keeps_values() {
    let cv = ChannelVolumes::new(vec![9, 8]);
    let c = cv.copy();
    assert_eq!(c.values, vec![9, 8]);
}
