use vstd::prelude::*;

verus! {

/// How far below zero the damage curve reaches before it bottoms out, as a
/// share of its border: half of it for damage taken, all of it for damage dealt.
#[derive(Debug, Clone, Copy, PartialEq, Eq, Structural)]
pub enum BorderFactor {
    Half,
    Whole,
}

/// The piece of a skill-effect curve that an input falls on.
#[derive(Debug, Clone, Copy, PartialEq, Eq, Structural)]
pub enum Segment {
    /// The curve's maximum.
    Max,
    /// The curve's minimum.
    Min,
    /// The damage floor of 1.
    Floor,
    /// The line from the minimum at 0 to the maximum at the border.
    MinToMax,
    /// The line from the floor at the lower threshold to the minimum at 0.
    FloorToMin,
}

/// `sd` is at or below the lower threshold `-border * factor` of the damage curve.
pub open spec fn at_or_below_threshold(sd: int, border: int, factor: BorderFactor) -> bool {
    match factor {
        BorderFactor::Half => 2 * sd <= -border,
        BorderFactor::Whole => sd <= -border,
    }
}

/// The piece of the damage curve with border `border` that `sd` falls on.
pub open spec fn damage_segment_of(sd: int, border: int, factor: BorderFactor) -> Segment {
    if sd >= border {
        Segment::Max
    } else if at_or_below_threshold(sd, border, factor) {
        Segment::Floor
    } else if sd >= 0 {
        Segment::MinToMax
    } else {
        Segment::FloorToMin
    }
}

/// The piece of the effect curve with border `border` that `sd` falls on.
pub open spec fn effect_segment_of(sd: int, border: int) -> Segment {
    if sd >= border {
        Segment::Max
    } else if sd <= 0 {
        Segment::Min
    } else {
        Segment::MinToMax
    }
}

/// Where the damage curve is evaluated at `sd`.
pub fn damage_segment(sd: i64, border: i32, factor: BorderFactor) -> (s: Segment)
    ensures
        s == damage_segment_of(sd as int, border as int, factor),
{
    let below: bool = match factor {
        BorderFactor::Half => 2 * (sd as i128) <= -(border as i128),
        BorderFactor::Whole => sd <= -(border as i64),
    };
    if sd >= border as i64 {
        Segment::Max
    } else if below {
        Segment::Floor
    } else if sd >= 0 {
        Segment::MinToMax
    } else {
        Segment::FloorToMin
    }
}

/// Where the effect curve is evaluated at `sd`.
pub fn effect_segment(sd: i64, border: i32) -> (s: Segment)
    ensures
        s == effect_segment_of(sd as int, border as int),
{
    if sd >= border as i64 {
        Segment::Max
    } else if sd <= 0 {
        Segment::Min
    } else {
        Segment::MinToMax
    }
}

/// Below its border, the damage curve gives the floor for every input at or
/// below the lower threshold, however far below it lies.
pub proof fn lemma_damage_floor(sd: int, border: int, factor: BorderFactor)
    requires
        sd < border,
        at_or_below_threshold(sd, border, factor),
    ensures
        damage_segment_of(sd, border, factor) == Segment::Floor,
{
}

/// Both curves give their maximum for every input at or above the border.
pub proof fn lemma_saturation(sd: int, border: int, factor: BorderFactor)
    requires
        sd >= border,
    ensures
        damage_segment_of(sd, border, factor) == Segment::Max,
        effect_segment_of(sd, border) == Segment::Max,
{
}

/// The sloped pieces lie strictly between their ends, so the border and the
/// threshold that they divide by are not zero.
pub proof fn lemma_sloped_segments(sd: int, border: int, factor: BorderFactor)
    ensures
        damage_segment_of(sd, border, factor) == Segment::MinToMax ==> 0 <= sd < border,
        damage_segment_of(sd, border, factor) == Segment::FloorToMin ==> {
            &&& sd < 0 < border
            &&& !at_or_below_threshold(sd, border, factor)
        },
        effect_segment_of(sd, border) == Segment::MinToMax ==> 0 < sd < border,
{
}

} // verus!
