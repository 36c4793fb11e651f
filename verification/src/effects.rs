//! The catalog of built-in lighting effects, together with the per-effect
//! capability flags the rest of the crate relies on: whether an effect takes
//! an explicit colour array and which direction it moves in by default.

use vstd::prelude::*;

verus! {

/// Travel direction of a moving effect.
#[derive(Clone, Copy, Debug, PartialEq, Eq, Structural)]
pub enum Direction {
    Left,
    Right,
}

/// Overall brightness of an effect.
#[derive(Clone, Copy, Debug, PartialEq, Eq, Structural)]
pub enum Brightness {
    Low,
    High,
}

/// The closed set of built-in lighting patterns.
#[derive(Clone, Copy, Debug, PartialEq, Eq, Structural)]
pub enum Effects {
    Static,
    Breath,
    Smooth,
    Wave,
    Lightning,
    SmoothWave,
    Swipe,
    Disco,
    Christmas,
    Fade,
    Temperature,
    Ripple,
    AmbientLight,
}

impl Effects {
    /// Whether this effect renders user-chosen colours, so that a command
    /// selecting it must supply an explicit colour array.
    pub open spec fn spec_takes_color_array(self) -> bool {
        match self {
            Effects::Static => true,
            Effects::Breath => true,
            Effects::Swipe => true,
            Effects::Fade => true,
            Effects::Ripple => true,
            _ => false,
        }
    }

    /// Executable query for [`Self::spec_takes_color_array`].
    #[verifier::when_used_as_spec(spec_takes_color_array)]
    pub fn takes_color_array(self) -> (b: bool)
        ensures
            b == self.spec_takes_color_array(),
    {
        matches!(
            self,
            Effects::Static | Effects::Breath | Effects::Swipe | Effects::Fade | Effects::Ripple
        )
    }

    /// The direction an effect moves in when the user names none.
    pub open spec fn spec_default_direction(self) -> Direction {
        match self {
            Effects::Wave => Direction::Right,
            Effects::SmoothWave => Direction::Right,
            Effects::Swipe => Direction::Right,
            _ => Direction::Left,
        }
    }

    /// Executable query for [`Self::spec_default_direction`].
    #[verifier::when_used_as_spec(spec_default_direction)]
    pub fn default_direction(self) -> (d: Direction)
        ensures
            d == self.spec_default_direction(),
    {
        match self {
            Effects::Wave | Effects::SmoothWave | Effects::Swipe => Direction::Right,
            _ => Direction::Left,
        }
    }

    /// The display name of the effect.
    pub open spec fn spec_name(self) -> Seq<char> {
        match self {
            Effects::Static => "Static"@,
            Effects::Breath => "Breath"@,
            Effects::Smooth => "Smooth"@,
            Effects::Wave => "Wave"@,
            Effects::Lightning => "Lightning"@,
            Effects::SmoothWave => "SmoothWave"@,
            Effects::Swipe => "Swipe"@,
            Effects::Disco => "Disco"@,
            Effects::Christmas => "Christmas"@,
            Effects::Fade => "Fade"@,
            Effects::Temperature => "Temperature"@,
            Effects::Ripple => "Ripple"@,
            Effects::AmbientLight => "AmbientLight"@,
        }
    }

    /// Executable query for [`Self::spec_name`].
    pub fn name(&self) -> (r: &'static str)
        ensures
            r@ == self.spec_name(),
    {
        match self {
            Effects::Static => "Static",
            Effects::Breath => "Breath",
            Effects::Smooth => "Smooth",
            Effects::Wave => "Wave",
            Effects::Lightning => "Lightning",
            Effects::SmoothWave => "SmoothWave",
            Effects::Swipe => "Swipe",
            Effects::Disco => "Disco",
            Effects::Christmas => "Christmas",
            Effects::Fade => "Fade",
            Effects::Temperature => "Temperature",
            Effects::Ripple => "Ripple",
            Effects::AmbientLight => "AmbientLight",
        }
    }
}

/// Every built-in effect, in catalog order.  The `list` command prints this
/// sequence 1-indexed.
pub open spec fn catalog() -> Seq<Effects> {
    seq![
        Effects::Static,
        Effects::Breath,
        Effects::Smooth,
        Effects::Wave,
        Effects::Lightning,
        Effects::SmoothWave,
        Effects::Swipe,
        Effects::Disco,
        Effects::Christmas,
        Effects::Fade,
        Effects::Temperature,
        Effects::Ripple,
        Effects::AmbientLight,
    ]
}

/// The built-in effects in catalog order, as an executable vector.
pub fn all_effects() -> (r: Vec<Effects>)
    ensures
        r@ == catalog(),
{
    let mut v: Vec<Effects> = Vec::new();
    v.push(Effects::Static);
    v.push(Effects::Breath);
    v.push(Effects::Smooth);
    v.push(Effects::Wave);
    v.push(Effects::Lightning);
    v.push(Effects::SmoothWave);
    v.push(Effects::Swipe);
    v.push(Effects::Disco);
    v.push(Effects::Christmas);
    v.push(Effects::Fade);
    v.push(Effects::Temperature);
    v.push(Effects::Ripple);
    v.push(Effects::AmbientLight);
    proof {
        assert(v@ =~= catalog());
    }
    v
}

} // verus!
