//! Normalisation of raw axis bytes.
//!
//! A normalised axis value is a ratio of two small integers, so that every
//! statement about it is exact. A caller that wants a binary fraction divides
//! the numerator by the denominator.

use vstd::prelude::*;

verus! {

/// The raw value of a fully pressed pedal; a pedal byte is scaled by it.
pub const PEDAL_FULL_SCALE: u8 = 255;

/// The raw value of a centred steering wheel; a steering byte is measured
/// from it and scaled by it.
pub const STEERING_CENTRE: u8 = 127;

/// A normalised axis value: the rational number `numerator / denominator`.
#[derive(Clone, Copy, Debug, PartialEq, Eq, Structural)]
pub struct Axis {
    pub numerator: i16,
    pub denominator: i16,
}

impl Axis {
    /// The denominator is positive, so the ratio is defined and its sign is
    /// the sign of the numerator.
    pub open spec fn wf(self) -> bool {
        self.denominator > 0
    }

    /// `self <= other` as rational numbers.
    pub open spec fn le(self, other: Axis) -> bool {
        self.numerator * other.denominator <= other.numerator * self.denominator
    }

    /// `self == other` as rational numbers.
    pub open spec fn same_value(self, other: Axis) -> bool {
        self.numerator * other.denominator == other.numerator * self.denominator
    }

    /// The ratio is exactly zero.
    pub open spec fn is_zero(self) -> bool {
        self.numerator == 0
    }

    /// The magnitude of the ratio is below one half.
    pub open spec fn below_half(self) -> bool {
        2 * self.numerator < self.denominator && -2 * self.numerator < self.denominator
    }
}

/// A pedal byte on the scale from 0 (released) to 1 (fully pressed):
/// `value / 255`.
pub open spec fn pedal_axis(value: u8) -> Axis {
    Axis { numerator: value as i16, denominator: 255 }
}

/// A steering byte before the dead zone is applied: `(value - 127) / 127`.
pub open spec fn steering_raw(value: u8) -> Axis {
    Axis { numerator: (value - 127) as i16, denominator: 127 }
}

/// A steering byte measured from the centre: `(value - 127) / 127`, except
/// that a magnitude below one half collapses to exactly zero. Values outside
/// the dead zone are kept as they are, not rescaled.
pub open spec fn steering_axis(value: u8) -> Axis {
    if steering_raw(value).below_half() {
        Axis { numerator: 0, denominator: 127 }
    } else {
        steering_raw(value)
    }
}

/// Scales a pedal byte to the range from 0 to 1.
pub fn normalise_pedal_value(value: u8) -> (axis: Axis)
    ensures
        axis == pedal_axis(value),
        axis.wf(),
        0 <= axis.numerator <= axis.denominator,
{
    Axis { numerator: value as i16, denominator: PEDAL_FULL_SCALE as i16 }
}

/// Centres and scales a steering byte, with the dead zone around the centre
/// mapped to zero.
pub fn normalise_steer_value(value: u8) -> (axis: Axis)
    ensures
        axis == steering_axis(value),
        axis.wf(),
        axis.is_zero() || axis == steering_raw(value),
        axis.is_zero() <==> steering_raw(value).below_half(),
{
    let offset: i16 = value as i16 - STEERING_CENTRE as i16;
    let scale: i16 = STEERING_CENTRE as i16;
    if 2 * offset < scale && 2 * offset > -scale {
        Axis { numerator: 0, denominator: scale }
    } else {
        Axis { numerator: offset, denominator: scale }
    }
}

/// Pressing a pedal further never lowers its normalised value.
pub proof fn lemma_pedal_monotonic(lower: u8, higher: u8)
    requires
        lower <= higher,
    ensures
        pedal_axis(lower).le(pedal_axis(higher)),
        pedal_axis(lower).same_value(pedal_axis(higher)) <==> lower == higher,
{
}

/// A pedal value lies between 0 and 1, and reaches the ends exactly at the
/// bytes 0 and 255.
pub proof fn lemma_pedal_range(value: u8)
    ensures
        0 <= pedal_axis(value).numerator <= pedal_axis(value).denominator,
        pedal_axis(value).is_zero() <==> value == 0,
        pedal_axis(value).numerator == pedal_axis(value).denominator <==> value == 255,
{
}

/// A steering value is either exactly zero or the undamped ratio
/// `(value - 127) / 127`, and it is zero exactly on the bytes 64 to 190:
/// those whose ratio has a magnitude below one half. No byte falls on the
/// boundary itself.
pub proof fn lemma_steering_dead_zone(value: u8)
    ensures
        steering_axis(value).is_zero() || steering_axis(value) == steering_raw(value),
        steering_axis(value).is_zero() <==> 64 <= value <= 190,
        !steering_axis(value).is_zero() ==> !steering_axis(value).below_half(),
        2 * steering_raw(value).numerator != steering_raw(value).denominator,
        -2 * steering_raw(value).numerator != steering_raw(value).denominator,
        value <= 63 ==> steering_axis(value).numerator < 0,
        value >= 191 ==> steering_axis(value).numerator > 0,
{
}

} // verus!
