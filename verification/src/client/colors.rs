//! CSS colour and gradient strings.

use vstd::prelude::*;

use crate::text::decimal_u64;
use crate::text::spec_decimal;

verus! {

/// A colour stop with a percentage: the colour alone at 100, otherwise the
/// colour followed by " N%".
pub open spec fn spec_color_stop(color: Seq<char>, percent: u8) -> Seq<char> {
    if percent < 100 {
        color + " "@ + spec_decimal(percent as nat) + "%"@
    } else {
        color
    }
}

/// Render a colour stop.
fn color_stop(color: &String, percent: u8) -> (r: String)
    ensures
        r@ == spec_color_stop(color@, percent),
{
    let mut col = color.clone();
    if percent < 100 {
        col.append(" ");
        col.append(decimal_u64(percent as u64).as_str());
        col.append("%");
    }
    col
}

/// A two-stop linear gradient.
#[derive(Debug, Clone, PartialEq)]
pub struct LinearGradient {
    pub color_a: String,
    pub color_a_percent: u8,
    pub color_b: String,
    pub color_b_percent: u8,
    pub is_repeating: bool,
}

impl LinearGradient {
    /// The CSS text of this gradient.
    pub open spec fn spec_css(self) -> Seq<char> {
        (if self.is_repeating {
            "repeating-"@
        } else {
            ""@
        }) + "linear-gradient("@ + spec_color_stop(self.color_a@, self.color_a_percent) + ", "@
            + spec_color_stop(self.color_b@, self.color_b_percent) + ")"@
    }

    /// Render this gradient as CSS.
    pub fn to_css(&self) -> (r: String)
        ensures
            r@ == self.spec_css(),
    {
        let mut out = if self.is_repeating {
            String::from_str("repeating-")
        } else {
            String::from_str("")
        };
        out.append("linear-gradient(");
        out.append(color_stop(&self.color_a, self.color_a_percent).as_str());
        out.append(", ");
        out.append(color_stop(&self.color_b, self.color_b_percent).as_str());
        out.append(")");
        out
    }

    pub fn new(color_a: String, color_a_percent: u8, color_b: String, color_b_percent: u8) -> (r:
        LinearGradient)
        ensures
            r.color_a == color_a,
            r.color_a_percent == color_a_percent,
            r.color_b == color_b,
            r.color_b_percent == color_b_percent,
            r.is_repeating == false,
    {
        LinearGradient { color_a, color_a_percent, color_b, color_b_percent, is_repeating: false }
    }

    pub fn new_repeating(
        color_a: String,
        color_a_percent: u8,
        color_b: String,
        color_b_percent: u8,
    ) -> (r: LinearGradient)
        ensures
            r.color_a == color_a,
            r.color_a_percent == color_a_percent,
            r.color_b == color_b,
            r.color_b_percent == color_b_percent,
            r.is_repeating == true,
    {
        LinearGradient { color_a, color_a_percent, color_b, color_b_percent, is_repeating: true }
    }
}

/// An opaque RGB colour.
#[derive(Debug, Clone, Copy, PartialEq, Eq, Structural)]
pub struct Rgb {
    pub r: u8,
    pub g: u8,
    pub b: u8,
}

impl Rgb {
    /// The CSS text of this colour.
    pub open spec fn spec_css(self) -> Seq<char> {
        "rgb("@ + spec_decimal(self.r as nat) + ", "@ + spec_decimal(self.g as nat) + ", "@
            + spec_decimal(self.b as nat) + ")"@
    }

    /// Render this colour as CSS.
    pub fn to_css(&self) -> (r: String)
        ensures
            r@ == self.spec_css(),
    {
        let mut out = String::from_str("rgb(");
        out.append(decimal_u64(self.r as u64).as_str());
        out.append(", ");
        out.append(decimal_u64(self.g as u64).as_str());
        out.append(", ");
        out.append(decimal_u64(self.b as u64).as_str());
        out.append(")");
        out
    }

    pub fn new(r: u8, g: u8, b: u8) -> (c: Rgb)
        ensures
            c.r == r,
            c.g == g,
            c.b == b,
    {
        Rgb { r, g, b }
    }
}

/// An RGB colour with an alpha component.
#[derive(Debug, Clone, Copy, PartialEq, Eq, Structural)]
pub struct Rgba {
    pub r: u8,
    pub g: u8,
    pub b: u8,
    pub a: u8,
}

impl Rgba {
    /// The CSS text of this colour.
    pub open spec fn spec_css(self) -> Seq<char> {
        "rgba("@ + spec_decimal(self.r as nat) + ", "@ + spec_decimal(self.g as nat) + ", "@
            + spec_decimal(self.b as nat) + ", "@ + spec_decimal(self.a as nat) + ")"@
    }

    /// Render this colour as CSS.
    pub fn to_css(&self) -> (r: String)
        ensures
            r@ == self.spec_css(),
    {
        let mut out = String::from_str("rgba(");
        out.append(decimal_u64(self.r as u64).as_str());
        out.append(", ");
        out.append(decimal_u64(self.g as u64).as_str());
        out.append(", ");
        out.append(decimal_u64(self.b as u64).as_str());
        out.append(", ");
        out.append(decimal_u64(self.a as u64).as_str());
        out.append(")");
        out
    }

    pub fn new(r: u8, g: u8, b: u8, a: u8) -> (c: Rgba)
        ensures
            c.r == r,
            c.g == g,
            c.b == b,
            c.a == a,
    {
        Rgba { r, g, b, a }
    }
}

/// The shape of a radial gradient.
#[derive(Debug, Clone, Copy, PartialEq, Eq, Structural)]
pub enum ColorShape {
    Circle,
    Ellipse,
}

impl ColorShape {
    /// The lower-case CSS name of this shape.
    pub fn as_css(&self) -> (r: &'static str)
        ensures
            r@ == (if *self is Circle {
                "circle"@
            } else {
                "ellipse"@
            }),
    {
        match self {
            ColorShape::Circle => "circle",
            ColorShape::Ellipse => "ellipse",
        }
    }
}

/// A two-colour radial gradient.
#[derive(Debug, Clone, PartialEq)]
pub struct RadialGradient {
    pub shape: ColorShape,
    pub shape_position: u8,
    pub color_a: String,
    pub color_b: String,
    pub is_repeating: bool,
}

impl RadialGradient {
    /// The shape part of the CSS text: the shape's name, with its position
    /// appended when it is under 100.
    pub open spec fn spec_shape_part(self) -> Seq<char> {
        (if self.shape is Circle {
            "circle"@
        } else {
            "ellipse"@
        }) + (if self.shape_position < 100 {
            " at "@ + spec_decimal(self.shape_position as nat) + "%"@
        } else {
            ""@
        })
    }

    /// The CSS text of this gradient.
    pub open spec fn spec_css(self) -> Seq<char> {
        (if self.is_repeating {
            "repeating-"@
        } else {
            ""@
        }) + "radial-gradient("@ + self.spec_shape_part() + ", "@ + self.color_a@ + ", "@
            + self.color_b@ + ")"@
    }

    /// Render this gradient as CSS.
    pub fn to_css(&self) -> (r: String)
        ensures
            r@ == self.spec_css(),
    {
        let mut shape = String::from_str(self.shape.as_css());
        if self.shape_position < 100 {
            shape.append(" at ");
            shape.append(decimal_u64(self.shape_position as u64).as_str());
            shape.append("%");
        }
        proof {
            reveal_strlit("");
            assert(shape@ =~= self.spec_shape_part());
        }
        let mut out = if self.is_repeating {
            String::from_str("repeating-")
        } else {
            String::from_str("")
        };
        out.append("radial-gradient(");
        out.append(shape.as_str());
        out.append(", ");
        out.append(self.color_a.as_str());
        out.append(", ");
        out.append(self.color_b.as_str());
        out.append(")");
        proof {
            assert(out@ =~= self.spec_css());
        }
        out
    }

    pub fn new(shape: ColorShape, shape_position: u8, color_a: String, color_b: String) -> (r:
        RadialGradient)
        ensures
            r.shape == shape,
            r.shape_position == shape_position,
            r.color_a == color_a,
            r.color_b == color_b,
            r.is_repeating == false,
    {
        RadialGradient { shape, shape_position, color_a, color_b, is_repeating: false }
    }

    pub fn new_repeating(shape: ColorShape, shape_position: u8, color_a: String, color_b: String) -> (r:
        RadialGradient)
        ensures
            r.shape == shape,
            r.shape_position == shape_position,
            r.color_a == color_a,
            r.color_b == color_b,
            r.is_repeating == true,
    {
        RadialGradient { shape, shape_position, color_a, color_b, is_repeating: true }
    }
}

} // verus!
