//! Measurement types: lengths, angles, percentages, and the combined
//! length-plus-percentage measure.
//!
//! Each value keeps the unit it was written in, and its canonical text is a
//! pure function of its fields.

use vstd::prelude::*;

use crate::fixed::{fixed_text, Fixed};

verus! {

/// The unit a length was written in.
#[derive(Debug, Clone, Copy, PartialEq, Eq, Structural)]
pub enum LengthUnit {
    Pt,
    Mm,
    Cm,
    In,
}

/// An absolute length, such as `12pt` or `3cm`.
#[derive(Debug, Clone, Copy, PartialEq, Eq, Structural)]
pub struct Length {
    pub val: Fixed,
    pub unit: LengthUnit,
}

/// The unit an angle was written in.
#[derive(Debug, Clone, Copy, PartialEq, Eq, Structural)]
pub enum AngleUnit {
    Deg,
    Rad,
}

/// An angle, such as `90deg`.
#[derive(Debug, Clone, Copy, PartialEq, Eq, Structural)]
pub struct Angle {
    pub val: Fixed,
    pub unit: AngleUnit,
}

/// A relative value, such as `50%`; the magnitude is kept in percent.
#[derive(Debug, Clone, Copy, PartialEq, Eq, Structural)]
pub struct Relative {
    pub percent: Fixed,
}

/// A combination of an absolute length and a relative value, `20% + 5cm`.
#[derive(Debug, Clone, Copy, PartialEq, Eq, Structural)]
pub struct Linear {
    pub rel: Relative,
    pub abs: Length,
}

/// The suffix of a length unit.
pub open spec fn length_unit_text(u: LengthUnit) -> Seq<char> {
    match u {
        LengthUnit::Pt => "pt"@,
        LengthUnit::Mm => "mm"@,
        LengthUnit::Cm => "cm"@,
        LengthUnit::In => "in"@,
    }
}

/// The canonical text of a length: magnitude, then unit suffix.
pub open spec fn length_text(l: Length) -> Seq<char> {
    fixed_text(l.val.thousandths as int) + length_unit_text(l.unit)
}

/// The suffix of an angle unit.
pub open spec fn angle_unit_text(u: AngleUnit) -> Seq<char> {
    match u {
        AngleUnit::Deg => "deg"@,
        AngleUnit::Rad => "rad"@,
    }
}

/// The canonical text of an angle: magnitude, then unit suffix.
pub open spec fn angle_text(a: Angle) -> Seq<char> {
    fixed_text(a.val.thousandths as int) + angle_unit_text(a.unit)
}

/// The canonical text of a relative value: magnitude in percent, then `%`.
pub open spec fn relative_text(r: Relative) -> Seq<char> {
    fixed_text(r.percent.thousandths as int) + "%"@
}

/// The canonical text of a combined measure: relative part, ` + `, length part.
pub open spec fn linear_text(l: Linear) -> Seq<char> {
    relative_text(l.rel) + " + "@ + length_text(l.abs)
}

impl Length {
    /// A length in points.
    pub fn pt(val: Fixed) -> (r: Self)
        ensures
            r == (Length { val, unit: LengthUnit::Pt }),
    {
        Length { val, unit: LengthUnit::Pt }
    }

    /// A length in millimetres.
    pub fn mm(val: Fixed) -> (r: Self)
        ensures
            r == (Length { val, unit: LengthUnit::Mm }),
    {
        Length { val, unit: LengthUnit::Mm }
    }

    /// A length in centimetres.
    pub fn cm(val: Fixed) -> (r: Self)
        ensures
            r == (Length { val, unit: LengthUnit::Cm }),
    {
        Length { val, unit: LengthUnit::Cm }
    }

    /// A length in inches.
    pub fn inches(val: Fixed) -> (r: Self)
        ensures
            r == (Length { val, unit: LengthUnit::In }),
    {
        Length { val, unit: LengthUnit::In }
    }

    /// The canonical text of this length.
    pub fn to_text(&self) -> (r: String)
        ensures
            r@ == length_text(*self),
    {
        let mut r = self.val.to_text();
        match self.unit {
            LengthUnit::Pt => r.append("pt"),
            LengthUnit::Mm => r.append("mm"),
            LengthUnit::Cm => r.append("cm"),
            LengthUnit::In => r.append("in"),
        }
        r
    }
}

impl Angle {
    /// An angle in degrees.
    pub fn deg(val: Fixed) -> (r: Self)
        ensures
            r == (Angle { val, unit: AngleUnit::Deg }),
    {
        Angle { val, unit: AngleUnit::Deg }
    }

    /// An angle in radians.
    pub fn rad(val: Fixed) -> (r: Self)
        ensures
            r == (Angle { val, unit: AngleUnit::Rad }),
    {
        Angle { val, unit: AngleUnit::Rad }
    }

    /// The canonical text of this angle.
    pub fn to_text(&self) -> (r: String)
        ensures
            r@ == angle_text(*self),
    {
        let mut r = self.val.to_text();
        match self.unit {
            AngleUnit::Deg => r.append("deg"),
            AngleUnit::Rad => r.append("rad"),
        }
        r
    }
}

impl Relative {
    /// A relative value from its magnitude in percent.
    pub fn percent(val: Fixed) -> (r: Self)
        ensures
            r == (Relative { percent: val }),
    {
        Relative { percent: val }
    }

    /// The canonical text of this relative value.
    pub fn to_text(&self) -> (r: String)
        ensures
            r@ == relative_text(*self),
    {
        let mut r = self.percent.to_text();
        r.append("%");
        r
    }
}

impl Linear {
    /// A combined measure from its two parts.
    pub fn new(rel: Relative, abs: Length) -> (r: Self)
        ensures
            r == (Linear { rel, abs }),
    {
        Linear { rel, abs }
    }

    /// A combined measure with no relative part.
    pub fn from_length(abs: Length) -> (r: Self)
        ensures
            r == (Linear { rel: Relative { percent: Fixed { thousandths: 0 } }, abs }),
    {
        Linear { rel: Relative { percent: Fixed { thousandths: 0 } }, abs }
    }

    /// A combined measure with no absolute part.
    pub fn from_relative(rel: Relative) -> (r: Self)
        ensures
            r == (Linear {
                rel,
                abs: Length { val: Fixed { thousandths: 0 }, unit: LengthUnit::Pt },
            }),
    {
        Linear { rel, abs: Length { val: Fixed { thousandths: 0 }, unit: LengthUnit::Pt } }
    }

    /// The canonical text of this combined measure.
    pub fn to_text(&self) -> (r: String)
        ensures
            r@ == linear_text(*self),
    {
        let mut r = self.rel.to_text();
        r.append(" + ");
        let abs = self.abs.to_text();
        r.append(abs.as_str());
        r
    }
}

} // verus!
