//! Profiles: a fully specified lighting configuration, and the builder
//! that turns validated command arguments into one.
//!
//! A profile always carries exactly four colour zones derived from a flat
//! twelve-element channel array, a speed in `1..=5`, and a direction that
//! falls back to the selected effect's default when the user names none.

use vstd::prelude::*;
use crate::colors::{color_values, parse_colors, valid_color_list, ColorFormatError};
use crate::effects::{Brightness, Direction, Effects};
use vstd::string::StringSliceAdditionalSpecFns;

verus! {

/// One independently colourable region: an RGB triplet.
#[derive(Clone, Copy, Debug, PartialEq, Eq, Structural)]
pub struct Zone {
    pub red: u8,
    pub green: u8,
    pub blue: u8,
}

/// A fully specified lighting configuration, ready to be applied to the
/// hardware or persisted.
#[derive(Clone, Debug)]
pub struct Profile {
    /// The name under which the profile was persisted, if it ever was.
    pub name: Option<String>,
    /// The four colour zones, in keyboard order.
    pub rgb_zones: Vec<Zone>,
    /// The selected built-in effect.
    pub effect: Effects,
    /// The travel direction of the effect.
    pub direction: Direction,
    /// The effect speed, always in `1..=5`.
    pub speed: u8,
    /// The overall brightness.
    pub brightness: Brightness,
}

/// The four zones a flat twelve-element channel array denotes: channels
/// are grouped in threes, red first.
pub open spec fn zones_of(c: Seq<u8>) -> Seq<Zone> {
    Seq::new(
        4,
        |z: int| Zone { red: c[3 * z], green: c[3 * z + 1], blue: c[3 * z + 2] },
    )
}

/// Four zones with every channel off.
pub open spec fn all_zero_zones() -> Seq<Zone> {
    Seq::new(4, |z: int| Zone { red: 0, green: 0, blue: 0 })
}

impl Profile {
    /// Structural well-formedness: four zones, speed within range.
    pub open spec fn wf(self) -> bool {
        &&& self.rgb_zones@.len() == 4
        &&& 1 <= self.speed <= 5
    }

    /// Records the name under which the profile is being persisted; every
    /// other field is left untouched.
    pub fn set_saved_name(&mut self, name: String)
        ensures
            final(self).name matches Some(n) && n@ == name@,
            final(self).rgb_zones == old(self).rgb_zones,
            final(self).effect == old(self).effect,
            final(self).direction == old(self).direction,
            final(self).speed == old(self).speed,
            final(self).brightness == old(self).brightness,
    {
        self.name = Some(name);
    }
}

/// Groups a flat twelve-element channel array into the four zones.
pub fn arr_to_zones(arr: &Vec<u8>) -> (r: Vec<Zone>)
    requires
        arr@.len() == 12,
    ensures
        r@ == zones_of(arr@),
{
    let mut zones: Vec<Zone> = Vec::new();
    let mut z: usize = 0;
    while z < 4
        invariant
            z <= 4,
            arr@.len() == 12,
            zones@.len() == z,
            forall|q: int| 0 <= q < z ==> zones@[q] == zones_of(arr@)[q],
        decreases 4 - z,
    {
        zones.push(
            Zone { red: arr[3 * z], green: arr[3 * z + 1], blue: arr[3 * z + 2] },
        );
        z += 1;
    }
    proof {
        assert(zones@ =~= zones_of(arr@));
    }
    zones
}

/// Four zones with every channel off, as an executable vector.
fn zero_zones() -> (r: Vec<Zone>)
    ensures
        r@ == all_zero_zones(),
{
    let mut zones: Vec<Zone> = Vec::new();
    let mut z: usize = 0;
    while z < 4
        invariant
            z <= 4,
            zones@.len() == z,
            forall|q: int| 0 <= q < z ==> zones@[q] == all_zero_zones()[q],
        decreases 4 - z,
    {
        zones.push(Zone { red: 0, green: 0, blue: 0 });
        z += 1;
    }
    proof {
        assert(zones@ =~= all_zero_zones());
    }
    zones
}

/// The reason the profile builder rejected its arguments.
#[derive(Clone, Copy, Debug, PartialEq, Eq, Structural)]
pub enum BuildError {
    /// The speed is outside `1..=5`.
    InvalidSpeed,
    /// The selected effect requires an explicit colour specification and
    /// none was supplied.
    MissingColors,
}

impl BuildError {
    /// A human-readable cause for the rejection.
    pub fn message(self) -> (r: &'static str)
        ensures
            self is InvalidSpeed ==> r@ == "the speed must be between 1 and 5"@,
            self is MissingColors ==> r@
                == "this effect requires specifying the colors to use"@,
    {
        match self {
            BuildError::InvalidSpeed => "the speed must be between 1 and 5",
            BuildError::MissingColors => "this effect requires specifying the colors to use",
        }
    }
}

/// Builds a profile from validated parts.
///
/// The speed is accepted exactly when it lies in `1..=5`.  An effect that
/// takes a colour array demands one; for any other effect the zones are
/// all-zero no matter what was supplied.  An omitted direction resolves to
/// the effect's default.
pub fn build_profile(
    effect: Effects,
    colors: Option<&Vec<u8>>,
    brightness: Brightness,
    speed: u8,
    direction: Option<Direction>,
) -> (r: Result<Profile, BuildError>)
    requires
        colors matches Some(c) ==> c@.len() == 12,
    ensures
        r is Ok <==> (1 <= speed <= 5 && (effect.spec_takes_color_array() ==> colors is Some)),
        !(1 <= speed <= 5) ==> r == Err::<Profile, BuildError>(BuildError::InvalidSpeed),
        1 <= speed <= 5 && effect.spec_takes_color_array() && colors is None ==> r == Err::<
            Profile,
            BuildError,
        >(BuildError::MissingColors),
        r matches Ok(p) ==> {
            &&& p.wf()
            &&& p.name is None
            &&& p.effect == effect
            &&& p.speed == speed
            &&& p.brightness == brightness
            &&& p.direction == (match direction {
                Some(d) => d,
                None => effect.spec_default_direction(),
            })
            &&& !effect.spec_takes_color_array() ==> p.rgb_zones@ == all_zero_zones()
        },
        r matches Ok(p) ==> (colors matches Some(c) ==> (effect.spec_takes_color_array()
            ==> p.rgb_zones@ == zones_of(c@))),
{
    if speed < 1 || speed > 5 {
        return Err(BuildError::InvalidSpeed);
    }
    let dir = match direction {
        Some(d) => d,
        None => effect.default_direction(),
    };
    let zones = if effect.takes_color_array() {
        match colors {
            Some(c) => arr_to_zones(c),
            None => {
                return Err(BuildError::MissingColors);
            },
        }
    } else {
        zero_zones()
    };
    Ok(
        Profile {
            name: None,
            rgb_zones: zones,
            effect,
            direction: dir,
            speed,
            brightness,
        },
    )
}

/// The reason a `set` command was rejected.
#[derive(Clone, Copy, Debug, PartialEq, Eq, Structural)]
pub enum SetCommandError {
    /// The speed is outside `1..=5`.
    InvalidSpeed,
    /// The colour list is malformed; the payload says how.
    InvalidColorFormat(ColorFormatError),
    /// The selected effect requires an explicit colour specification and
    /// none was supplied.
    MissingColors,
}

/// Resolves a `set` command into a profile.
///
/// Validation happens in command order: the speed is checked before the
/// colour list is even parsed, and a missing-but-required colour list is
/// reported only for an otherwise acceptable command.
pub fn resolve_set(
    effect: Effects,
    colors_arg: Option<&str>,
    brightness: Brightness,
    speed: u8,
    direction: Option<Direction>,
) -> (r: Result<Profile, SetCommandError>)
    ensures
        r is Ok <==> {
            &&& 1 <= speed <= 5
            &&& (colors_arg matches Some(a) ==> valid_color_list(a.spec_bytes()))
            &&& (effect.spec_takes_color_array() ==> colors_arg is Some)
        },
        !(1 <= speed <= 5) ==> r == Err::<Profile, SetCommandError>(SetCommandError::InvalidSpeed),
        colors_arg matches Some(a) ==> (1 <= speed <= 5 && !valid_color_list(a.spec_bytes())
            ==> r matches Err(SetCommandError::InvalidColorFormat(_))),
        1 <= speed <= 5 && (colors_arg matches Some(a) ==> valid_color_list(a.spec_bytes()))
            && effect.spec_takes_color_array() && colors_arg is None ==> r == Err::<
            Profile,
            SetCommandError,
        >(SetCommandError::MissingColors),
        r matches Ok(p) ==> {
            &&& p.wf()
            &&& p.name is None
            &&& p.effect == effect
            &&& p.speed == speed
            &&& p.brightness == brightness
            &&& p.direction == (match direction {
                Some(d) => d,
                None => effect.spec_default_direction(),
            })
            &&& !effect.spec_takes_color_array() ==> p.rgb_zones@ == all_zero_zones()
        },
        r matches Ok(p) ==> (colors_arg matches Some(a) ==> (effect.spec_takes_color_array()
            ==> p.rgb_zones@ == zones_of(color_values(a.spec_bytes())))),
{
    if speed < 1 || speed > 5 {
        return Err(SetCommandError::InvalidSpeed);
    }
    let parsed: Option<Vec<u8>> = match colors_arg {
        Some(a) => match parse_colors(a) {
            Ok(v) => Some(v),
            Err(e) => {
                return Err(SetCommandError::InvalidColorFormat(e));
            },
        },
        None => None,
    };
    match build_profile(effect, parsed.as_ref(), brightness, speed, direction) {
        Ok(p) => Ok(p),
        Err(BuildError::MissingColors) => Err(SetCommandError::MissingColors),
        Err(BuildError::InvalidSpeed) => Err(SetCommandError::InvalidSpeed),
    }
}

} // verus!
