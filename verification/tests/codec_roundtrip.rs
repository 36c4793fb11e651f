use legion_cli::codec::{decode_profile, effect_code, effect_from_code, encode_profile, DecodeError};
use legion_cli::effects::{Brightness, Direction, Effects};
use legion_cli::profile::{resolve_set, Zone};

#[test]
fn round_trip_keeps_every_field() {
    let p = resolve_set(
        Effects::Breath,
        Some("1,2,3,4,5,6,7,8,9,10,11,12"),
        Brightness::High,
        4,
        Some(Direction::Right),
    )
    .unwrap();
    let bytes = encode_profile(&p);
    assert_eq!(bytes.len(), 16);
    let q = decode_profile(&bytes).unwrap();
    assert_eq!(q.effect, p.effect);
    assert_eq!(q.direction, p.direction);
    assert_eq!(q.brightness, p.brightness);
    assert_eq!(q.speed, p.speed);
    assert_eq!(q.rgb_zones, p.rgb_zones);
    assert!(q.name.is_none());
}

#[test]
fn decode_concrete_bytes() {
    let bytes: Vec<u8> = vec![3, 1, 0, 2, 1, 2, 3, 4, 5, 6, 7, 8, 9, 10, 11, 12];
    let p = decode_profile(&bytes).unwrap();
    assert_eq!(p.effect, Effects::Wave);
    assert_eq!(p.direction, Direction::Right);
    assert_eq!(p.brightness, Brightness::Low);
    assert_eq!(p.speed, 2);
    assert_eq!(p.rgb_zones[0], Zone { red: 1, green: 2, blue: 3 });
    assert_eq!(p.rgb_zones[3], Zone { red: 10, green: 11, blue: 12 });
}

#[test]
fn decode_rejects_wrong_length() {
    assert_eq!(decode_profile(&[0u8; 5]).unwrap_err(), DecodeError::WrongLength);
    assert_eq!(decode_profile(&[0u8; 17]).unwrap_err(), DecodeError::WrongLength);
}

#[test]
fn decode_rejects_unknown_effect() {
    let mut bytes = vec![0u8; 16];
    bytes[0] = 13;
    bytes[3] = 1;
    assert_eq!(decode_profile(&bytes).unwrap_err(), DecodeError::UnknownEffect);
}

#[test]
fn decode_rejects_unknown_direction() {
    let mut bytes = vec![0u8; 16];
    bytes[1] = 2;
    bytes[3] = 1;
    assert_eq!(decode_profile(&bytes).unwrap_err(), DecodeError::UnknownDirection);
}

#[test]
fn decode_rejects_unknown_brightness() {
    let mut bytes = vec![0u8; 16];
    bytes[2] = 9;
    bytes[3] = 1;
    assert_eq!(decode_profile(&bytes).unwrap_err(), DecodeError::UnknownBrightness);
}

#[test]
fn decode_rejects_out_of_range_speed() {
    let mut bytes = vec![0u8; 16];
    bytes[3] = 0;
    assert_eq!(decode_profile(&bytes).unwrap_err(), DecodeError::InvalidSpeed);
    bytes[3] = 6;
    assert_eq!(decode_profile(&bytes).unwrap_err(), DecodeError::InvalidSpeed);
}

#[test]
fn effect_codes_round_trip() {
    for (i, e) in legion_cli::effects::all_effects().into_iter().enumerate() {
        assert_eq!(effect_code(e), i as u8);
        assert_eq!(effect_from_code(i as u8), Some(e));
    }
    assert_eq!(effect_from_code(13), None);
    assert_eq!(effect_from_code(255), None);
}
