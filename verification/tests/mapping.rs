use duckboard::key_mapping::{encoder_mapping, key_mapping, ReportCode};
use duckboard::keyboard_matrix::KEY_COUNT;
use duckboard::rotary_encoder::RotationDirection;

#[test]
fn every_valid_key_has_a_table_code() {
    assert_eq!(key_mapping(0), ReportCode::KeyA);
    assert_eq!(key_mapping(1), ReportCode::KeyB);
    assert_eq!(key_mapping(2), ReportCode::KeyC);
    assert_eq!(key_mapping(3), ReportCode::KeyD);
    assert_eq!(key_mapping(4), ReportCode::KeyE);
}

#[test]
fn valid_keys_never_map_to_the_sentinel() {
    for key in 0..KEY_COUNT {
        assert_ne!(key_mapping(key), ReportCode::NoEvent);
    }
}

#[test]
fn out_of_range_keys_map_to_the_sentinel() {
    assert_eq!(key_mapping(KEY_COUNT), ReportCode::NoEvent);
    assert_eq!(key_mapping(KEY_COUNT + 1), ReportCode::NoEvent);
    assert_eq!(key_mapping(1000), ReportCode::NoEvent);
    assert_eq!(key_mapping(usize::MAX), ReportCode::NoEvent);
}

#[test]
fn rotation_directions_map_to_the_volume_codes() {
    assert_eq!(
        encoder_mapping(RotationDirection::Clockwise),
        ReportCode::VolumeUp
    );
    assert_eq!(
        encoder_mapping(RotationDirection::CounterClockwise),
        ReportCode::VolumeDown
    );
}
