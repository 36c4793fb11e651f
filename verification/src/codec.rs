//! The persisted form of a profile: a fixed sixteen-byte layout holding
//! the effect, direction, brightness and speed codes followed by the
//! twelve channel bytes.  Reading and writing the file itself is the
//! caller's business; this module only turns bytes into profiles and
//! back, and proves that nothing is lost on the way.

use vstd::prelude::*;
use crate::effects::{Brightness, Direction, Effects};
use crate::profile::{Profile, Zone};

verus! {

/// The persisted code of each effect.
pub open spec fn spec_effect_code(e: Effects) -> u8 {
    match e {
        Effects::Static => 0,
        Effects::Breath => 1,
        Effects::Smooth => 2,
        Effects::Wave => 3,
        Effects::Lightning => 4,
        Effects::SmoothWave => 5,
        Effects::Swipe => 6,
        Effects::Disco => 7,
        Effects::Christmas => 8,
        Effects::Fade => 9,
        Effects::Temperature => 10,
        Effects::Ripple => 11,
        Effects::AmbientLight => 12,
    }
}

/// The effect a persisted code denotes, if any.
pub open spec fn spec_effect_from_code(c: u8) -> Option<Effects> {
    if c == 0 {
        Some(Effects::Static)
    } else if c == 1 {
        Some(Effects::Breath)
    } else if c == 2 {
        Some(Effects::Smooth)
    } else if c == 3 {
        Some(Effects::Wave)
    } else if c == 4 {
        Some(Effects::Lightning)
    } else if c == 5 {
        Some(Effects::SmoothWave)
    } else if c == 6 {
        Some(Effects::Swipe)
    } else if c == 7 {
        Some(Effects::Disco)
    } else if c == 8 {
        Some(Effects::Christmas)
    } else if c == 9 {
        Some(Effects::Fade)
    } else if c == 10 {
        Some(Effects::Temperature)
    } else if c == 11 {
        Some(Effects::Ripple)
    } else if c == 12 {
        Some(Effects::AmbientLight)
    } else {
        None
    }
}

/// Effect codes are faithful: every effect decodes from its own code, and
/// a code that decodes at all re-encodes to itself.
pub proof fn lemma_effect_code_bijective(e: Effects, c: u8)
    ensures
        spec_effect_from_code(spec_effect_code(e)) == Some(e),
        spec_effect_from_code(c) matches Some(e2) ==> spec_effect_code(e2) == c,
{
}

/// Executable twin of [`spec_effect_code`].
pub fn effect_code(e: Effects) -> (c: u8)
    ensures
        c == spec_effect_code(e),
{
    match e {
        Effects::Static => 0,
        Effects::Breath => 1,
        Effects::Smooth => 2,
        Effects::Wave => 3,
        Effects::Lightning => 4,
        Effects::SmoothWave => 5,
        Effects::Swipe => 6,
        Effects::Disco => 7,
        Effects::Christmas => 8,
        Effects::Fade => 9,
        Effects::Temperature => 10,
        Effects::Ripple => 11,
        Effects::AmbientLight => 12,
    }
}

/// Executable twin of [`spec_effect_from_code`].
pub fn effect_from_code(c: u8) -> (r: Option<Effects>)
    ensures
        r == spec_effect_from_code(c),
{
    match c {
        0 => Some(Effects::Static),
        1 => Some(Effects::Breath),
        2 => Some(Effects::Smooth),
        3 => Some(Effects::Wave),
        4 => Some(Effects::Lightning),
        5 => Some(Effects::SmoothWave),
        6 => Some(Effects::Swipe),
        7 => Some(Effects::Disco),
        8 => Some(Effects::Christmas),
        9 => Some(Effects::Fade),
        10 => Some(Effects::Temperature),
        11 => Some(Effects::Ripple),
        12 => Some(Effects::AmbientLight),
        _ => None,
    }
}

/// The persisted code of a direction.
pub open spec fn spec_direction_code(d: Direction) -> u8 {
    match d {
        Direction::Left => 0,
        Direction::Right => 1,
    }
}

/// The persisted code of a brightness.
pub open spec fn spec_brightness_code(b: Brightness) -> u8 {
    match b {
        Brightness::Low => 0,
        Brightness::High => 1,
    }
}

/// The twelve channel bytes of the four zones, red first within each zone.
pub open spec fn zone_bytes(zs: Seq<Zone>) -> Seq<u8> {
    Seq::new(
        12,
        |i: int|
            {
                if i % 3 == 0 {
                    zs[i / 3].red
                } else if i % 3 == 1 {
                    zs[i / 3].green
                } else {
                    zs[i / 3].blue
                }
            },
    )
}

/// The sixteen-byte persisted form of a profile.  The name is not
/// persisted; a loaded profile starts nameless.
pub open spec fn spec_encode(p: Profile) -> Seq<u8> {
    seq![
        spec_effect_code(p.effect),
        spec_direction_code(p.direction),
        spec_brightness_code(p.brightness),
        p.speed,
    ] + zone_bytes(p.rgb_zones@)
}

/// The byte sequences that decode to a profile: sixteen bytes whose four
/// header codes are all in range.
pub open spec fn spec_decodable(b: Seq<u8>) -> bool {
    &&& b.len() == 16
    &&& spec_effect_from_code(b[0]) is Some
    &&& b[1] <= 1
    &&& b[2] <= 1
    &&& 1 <= b[3] <= 5
}

/// Why a persisted profile was rejected.
#[derive(Clone, Copy, Debug, PartialEq, Eq, Structural)]
pub enum DecodeError {
    /// The payload is not exactly sixteen bytes long.
    WrongLength,
    /// The effect code names no built-in effect.
    UnknownEffect,
    /// The direction code names no direction.
    UnknownDirection,
    /// The brightness code names no brightness.
    UnknownBrightness,
    /// The persisted speed is outside `1..=5`.
    InvalidSpeed,
}

/// Serializes a profile to its sixteen-byte persisted form.
pub fn encode_profile(p: &Profile) -> (r: Vec<u8>)
    requires
        p.wf(),
    ensures
        r@ == spec_encode(*p),
        r@.len() == 16,
{
    let mut out: Vec<u8> = Vec::new();
    out.push(effect_code(p.effect));
    out.push(match p.direction {
        Direction::Left => 0,
        Direction::Right => 1,
    });
    out.push(match p.brightness {
        Brightness::Low => 0,
        Brightness::High => 1,
    });
    out.push(p.speed);
    let z0 = p.rgb_zones[0];
    let z1 = p.rgb_zones[1];
    let z2 = p.rgb_zones[2];
    let z3 = p.rgb_zones[3];
    out.push(z0.red);
    out.push(z0.green);
    out.push(z0.blue);
    out.push(z1.red);
    out.push(z1.green);
    out.push(z1.blue);
    out.push(z2.red);
    out.push(z2.green);
    out.push(z2.blue);
    out.push(z3.red);
    out.push(z3.green);
    out.push(z3.blue);
    proof {
        assert(out@ =~= spec_encode(*p));
    }
    out
}

/// Deserializes a profile from its persisted form.
///
/// Succeeds exactly on [`spec_decodable`] payloads, yields a well-formed
/// nameless profile whose encoding is the payload itself, and names the
/// first malformed field otherwise.
pub fn decode_profile(bytes: &[u8]) -> (r: Result<Profile, DecodeError>)
    ensures
        r is Ok <==> spec_decodable(bytes@),
        r matches Ok(p) ==> p.wf() && p.name is None && bytes@ == spec_encode(p),
        bytes@.len() != 16 ==> r == Err::<Profile, DecodeError>(DecodeError::WrongLength),
        bytes@.len() == 16 && spec_effect_from_code(bytes@[0]) is None ==> r == Err::<
            Profile,
            DecodeError,
        >(DecodeError::UnknownEffect),
        bytes@.len() == 16 && spec_effect_from_code(bytes@[0]) is Some && bytes@[1] > 1 ==> r
            == Err::<Profile, DecodeError>(DecodeError::UnknownDirection),
        bytes@.len() == 16 && spec_effect_from_code(bytes@[0]) is Some && bytes@[1] <= 1
            && bytes@[2] > 1 ==> r == Err::<Profile, DecodeError>(DecodeError::UnknownBrightness),
        bytes@.len() == 16 && spec_effect_from_code(bytes@[0]) is Some && bytes@[1] <= 1
            && bytes@[2] <= 1 && !(1 <= bytes@[3] <= 5) ==> r == Err::<Profile, DecodeError>(
            DecodeError::InvalidSpeed,
        ),
{
    if bytes.len() != 16 {
        return Err(DecodeError::WrongLength);
    }
    let effect = match effect_from_code(bytes[0]) {
        Some(e) => e,
        None => {
            return Err(DecodeError::UnknownEffect);
        },
    };
    let direction = if bytes[1] == 0 {
        Direction::Left
    } else if bytes[1] == 1 {
        Direction::Right
    } else {
        return Err(DecodeError::UnknownDirection);
    };
    let brightness = if bytes[2] == 0 {
        Brightness::Low
    } else if bytes[2] == 1 {
        Brightness::High
    } else {
        return Err(DecodeError::UnknownBrightness);
    };
    let speed = bytes[3];
    if speed < 1 || speed > 5 {
        return Err(DecodeError::InvalidSpeed);
    }
    let mut zones: Vec<Zone> = Vec::new();
    zones.push(Zone { red: bytes[4], green: bytes[5], blue: bytes[6] });
    zones.push(Zone { red: bytes[7], green: bytes[8], blue: bytes[9] });
    zones.push(Zone { red: bytes[10], green: bytes[11], blue: bytes[12] });
    zones.push(Zone { red: bytes[13], green: bytes[14], blue: bytes[15] });
    let p = Profile { name: None, rgb_zones: zones, effect, direction, speed, brightness };
    proof {
        lemma_effect_code_bijective(effect, bytes@[0]);
        assert(bytes@ =~= spec_encode(p));
    }
    Ok(p)
}

/// A well-formed profile's encoding always decodes.
pub proof fn lemma_encode_decodable(p: Profile)
    requires
        p.wf(),
    ensures
        spec_decodable(spec_encode(p)),
{
    lemma_effect_code_bijective(p.effect, 0);
}

/// Persisting is lossless: two well-formed profiles with the same
/// encoding agree on every persisted field, so decoding an encoding gives
/// the original configuration back.
pub proof fn lemma_encode_injective(p1: Profile, p2: Profile)
    requires
        p1.wf(),
        p2.wf(),
        spec_encode(p1) == spec_encode(p2),
    ensures
        p1.effect == p2.effect,
        p1.direction == p2.direction,
        p1.brightness == p2.brightness,
        p1.speed == p2.speed,
        p1.rgb_zones@ == p2.rgb_zones@,
{
    assert(spec_encode(p1)[0] == spec_effect_code(p1.effect));
    assert(spec_encode(p2)[0] == spec_effect_code(p2.effect));
    assert(spec_effect_code(p1.effect) == spec_effect_code(p2.effect));
    lemma_effect_code_bijective(p1.effect, 0);
    lemma_effect_code_bijective(p2.effect, 0);
    assert(p1.effect == p2.effect);
    assert(spec_encode(p1)[1] == spec_direction_code(p1.direction));
    assert(spec_encode(p2)[1] == spec_direction_code(p2.direction));
    assert(p1.direction == p2.direction);
    assert(spec_encode(p1)[2] == spec_brightness_code(p1.brightness));
    assert(spec_encode(p2)[2] == spec_brightness_code(p2.brightness));
    assert(p1.brightness == p2.brightness);
    assert(spec_encode(p1)[3] == p1.speed);
    assert(spec_encode(p2)[3] == p2.speed);
    assert forall|z: int| 0 <= z < 4 implies p1.rgb_zones@[z] == p2.rgb_zones@[z] by {
        assert(spec_encode(p1)[4 + 3 * z] == spec_encode(p2)[4 + 3 * z]);
        assert(spec_encode(p1)[4 + 3 * z + 1] == spec_encode(p2)[4 + 3 * z + 1]);
        assert(spec_encode(p1)[4 + 3 * z + 2] == spec_encode(p2)[4 + 3 * z + 2]);
        assert((3 * z) % 3 == 0 && (3 * z) / 3 == z) by (nonlinear_arith);
        assert((3 * z + 1) % 3 == 1 && (3 * z + 1) / 3 == z) by (nonlinear_arith);
        assert((3 * z + 2) % 3 == 2 && (3 * z + 2) / 3 == z) by (nonlinear_arith);
        let h1 = seq![
            spec_effect_code(p1.effect),
            spec_direction_code(p1.direction),
            spec_brightness_code(p1.brightness),
            p1.speed,
        ];
        let h2 = seq![
            spec_effect_code(p2.effect),
            spec_direction_code(p2.direction),
            spec_brightness_code(p2.brightness),
            p2.speed,
        ];
        assert(h1.len() == 4);
        assert(h2.len() == 4);
        assert(spec_encode(p1)[4 + 3 * z] == zone_bytes(p1.rgb_zones@)[3 * z]);
        assert(spec_encode(p2)[4 + 3 * z] == zone_bytes(p2.rgb_zones@)[3 * z]);
        assert(spec_encode(p1)[4 + 3 * z + 1] == zone_bytes(p1.rgb_zones@)[3 * z + 1]);
        assert(spec_encode(p2)[4 + 3 * z + 1] == zone_bytes(p2.rgb_zones@)[3 * z + 1]);
        assert(spec_encode(p1)[4 + 3 * z + 2] == zone_bytes(p1.rgb_zones@)[3 * z + 2]);
        assert(spec_encode(p2)[4 + 3 * z + 2] == zone_bytes(p2.rgb_zones@)[3 * z + 2]);
        assert(zone_bytes(p1.rgb_zones@)[3 * z] == zone_bytes(p2.rgb_zones@)[3 * z]);
        assert(zone_bytes(p1.rgb_zones@)[3 * z + 1] == zone_bytes(p2.rgb_zones@)[3 * z + 1]);
        assert(zone_bytes(p1.rgb_zones@)[3 * z + 2] == zone_bytes(p2.rgb_zones@)[3 * z + 2]);
        assert(p1.rgb_zones@[z].red == p2.rgb_zones@[z].red);
        assert(p1.rgb_zones@[z].green == p2.rgb_zones@[z].green);
        assert(p1.rgb_zones@[z].blue == p2.rgb_zones@[z].blue);
    }
    assert(p1.rgb_zones@ =~= p2.rgb_zones@);
}

} // verus!
