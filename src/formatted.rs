//! Renderings of small value shapes: structural (diagnostic) text built from
//! a shape's name and fields, and display text with a shape's own layout.

use crate::text::{decimal_text, int_text};
use vstd::prelude::*;
use vstd::string::*;

verus! {

/// Diagnostic text of a tuple-like shape with one field: `Name(inner)`.
pub open spec fn tuple_text(name: Seq<char>, inner: Seq<char>) -> Seq<char> {
    name + "("@ + inner + ")"@
}

/// A shape holding one integer.
pub struct Structure(pub i32);

/// A shape holding another shape.
pub struct Deep(pub Structure);

impl Structure {
    /// Diagnostic text: the shape's name around the integer's decimal text.
    pub open spec fn debug_view(&self) -> Seq<char> {
        tuple_text("Structure"@, decimal_text(self.0 as int))
    }

    /// Diagnostic text, e.g. `Structure(3)`.
    pub fn debug_text(&self) -> (r: String)
        ensures
            r@ == self.debug_view(),
    {
        let mut out = String::from_str("Structure");
        out.append("(");
        let digits = int_text(self.0 as i64);
        out.append(digits.as_str());
        out.append(")");
        assert(out@ =~= self.debug_view());
        out
    }
}

impl Deep {
    /// Diagnostic text: the inner shape's diagnostic text, wrapped in this
    /// shape's name.
    pub open spec fn debug_view(&self) -> Seq<char> {
        tuple_text("Deep"@, self.0.debug_view())
    }

    /// Diagnostic text, e.g. `Deep(Structure(7))`; the inner shape is
    /// rendered by its own diagnostic rule.
    pub fn debug_text(&self) -> (r: String)
        ensures
            r@ == self.debug_view(),
            r@ == tuple_text("Deep"@, self.0.debug_view()),
    {
        let mut out = String::from_str("Deep");
        out.append("(");
        let inner = self.0.debug_text();
        out.append(inner.as_str());
        out.append(")");
        assert(out@ =~= self.debug_view());
        out
    }
}

/// A pair of bounds.
pub struct MinMax(pub i64, pub i64);

impl MinMax {
    /// Display text: both bounds in decimal, separated by `", "`.
    pub open spec fn display_view(&self) -> Seq<char> {
        decimal_text(self.0 as int) + ", "@ + decimal_text(self.1 as int)
    }

    /// Diagnostic text: `MinMax(a, b)`.
    pub open spec fn debug_view(&self) -> Seq<char> {
        tuple_text("MinMax"@, self.display_view())
    }

    /// Display text, e.g. `-300, 300`.
    pub fn display_text(&self) -> (r: String)
        ensures
            r@ == self.display_view(),
    {
        let mut out = int_text(self.0);
        out.append(", ");
        let second = int_text(self.1);
        out.append(second.as_str());
        assert(out@ =~= self.display_view());
        out
    }

    /// Diagnostic text, e.g. `MinMax(0, 14)`.
    pub fn debug_text(&self) -> (r: String)
        ensures
            r@ == self.debug_view(),
    {
        let mut out = String::from_str("MinMax");
        out.append("(");
        let inner = self.display_text();
        out.append(inner.as_str());
        out.append(")");
        assert(out@ =~= self.debug_view());
        out
    }
}

/// One component of a complex value: whether it is below zero, and the
/// decimal text of its magnitude (the value with its sign flipped when it
/// is below zero, the value itself otherwise).
pub struct Component {
    pub negative: bool,
    pub magnitude: String,
}

/// A complex value given by its two components.
pub struct Complex {
    pub x: Component,
    pub y: Component,
}

/// Display layout of a complex value from the signs and magnitudes of its
/// components: a component below zero is written as its magnitude followed
/// by `i`; when neither is, the layout is `x + y`.
pub open spec fn complex_text(x_neg: bool, x_mag: Seq<char>, y_neg: bool, y_mag: Seq<char>) -> Seq<char> {
    if x_neg && y_neg {
        x_mag + "i + "@ + y_mag + "i"@
    } else if y_neg {
        x_mag + " + "@ + y_mag + "i"@
    } else if x_neg {
        x_mag + "i + "@ + y_mag
    } else {
        x_mag + " + "@ + y_mag
    }
}

impl Complex {
    /// Display text of this value.
    pub open spec fn display_view(&self) -> Seq<char> {
        complex_text(self.x.negative, self.x.magnitude@, self.y.negative, self.y.magnitude@)
    }

    /// Display text, e.g. `3.3 + 7.2i` for `x = 3.3, y = -7.2`.
    pub fn display_text(&self) -> (r: String)
        ensures
            r@ == self.display_view(),
            !self.x.negative && !self.y.negative ==> r@ == self.x.magnitude@ + " + "@
                + self.y.magnitude@,
            !self.x.negative && self.y.negative ==> r@ == self.x.magnitude@ + " + "@
                + self.y.magnitude@ + "i"@,
            self.x.negative && !self.y.negative ==> r@ == self.x.magnitude@ + "i + "@
                + self.y.magnitude@,
            self.x.negative && self.y.negative ==> r@ == self.x.magnitude@ + "i + "@
                + self.y.magnitude@ + "i"@,
    {
        let mut out = self.x.magnitude.clone();
        if self.x.negative {
            out.append("i + ");
        } else {
            out.append(" + ");
        }
        out.append(self.y.magnitude.as_str());
        if self.y.negative {
            out.append("i");
        }
        assert(out@ =~= self.display_view());
        out
    }
}

} // verus!
