//! The 4x4 coefficient matrix.
//!
//! Each ordered pair of categories (source, target) has its own signed
//! fixed-point coefficient. The matrix is not required to be symmetric:
//! the effect of Blue on Red is independent of the effect of Red on Blue.

use crate::category::Category;
use crate::units::COEFF_LIMIT;
use vstd::prelude::*;

verus! {

/// The coefficient matrix: one signed fixed-point scalar per ordered
/// (source, target) category pair, each within
/// [`-COEFF_LIMIT`, `COEFF_LIMIT`]. The pair space is closed over the
/// four categories, so a lookup has no missing-entry case.
#[derive(Clone, Copy, PartialEq, Eq, Structural, Debug)]
pub struct CoeffMatrix {
    pub red_red: i64,
    pub red_blue: i64,
    pub red_green: i64,
    pub red_yellow: i64,
    pub blue_red: i64,
    pub blue_blue: i64,
    pub blue_green: i64,
    pub blue_yellow: i64,
    pub green_red: i64,
    pub green_blue: i64,
    pub green_green: i64,
    pub green_yellow: i64,
    pub yellow_red: i64,
    pub yellow_blue: i64,
    pub yellow_green: i64,
    pub yellow_yellow: i64,
}

/// The mathematical value of a [`CoeffMatrix`]: sixteen unbounded
/// integers.
pub ghost struct MatrixView {
    pub red_red: int,
    pub red_blue: int,
    pub red_green: int,
    pub red_yellow: int,
    pub blue_red: int,
    pub blue_blue: int,
    pub blue_green: int,
    pub blue_yellow: int,
    pub green_red: int,
    pub green_blue: int,
    pub green_green: int,
    pub green_yellow: int,
    pub yellow_red: int,
    pub yellow_blue: int,
    pub yellow_green: int,
    pub yellow_yellow: int,
}

impl MatrixView {
    /// The entry for the ordered pair (source, target).
    pub open spec fn coeff(self, source: Category, target: Category) -> int {
        match (source, target) {
            (Category::Red, Category::Red) => self.red_red,
            (Category::Red, Category::Blue) => self.red_blue,
            (Category::Red, Category::Green) => self.red_green,
            (Category::Red, Category::Yellow) => self.red_yellow,
            (Category::Blue, Category::Red) => self.blue_red,
            (Category::Blue, Category::Blue) => self.blue_blue,
            (Category::Blue, Category::Green) => self.blue_green,
            (Category::Blue, Category::Yellow) => self.blue_yellow,
            (Category::Green, Category::Red) => self.green_red,
            (Category::Green, Category::Blue) => self.green_blue,
            (Category::Green, Category::Green) => self.green_green,
            (Category::Green, Category::Yellow) => self.green_yellow,
            (Category::Yellow, Category::Red) => self.yellow_red,
            (Category::Yellow, Category::Blue) => self.yellow_blue,
            (Category::Yellow, Category::Green) => self.yellow_green,
            (Category::Yellow, Category::Yellow) => self.yellow_yellow,
        }
    }

    /// Every entry lies within the editable range.
    pub open spec fn wf(self) -> bool {
        forall|s: Category, t: Category|
            -COEFF_LIMIT <= #[trigger] self.coeff(s, t) <= COEFF_LIMIT
    }
}

impl View for CoeffMatrix {
    type V = MatrixView;

    open spec fn view(&self) -> MatrixView {
        MatrixView {
            red_red: self.red_red as int,
            red_blue: self.red_blue as int,
            red_green: self.red_green as int,
            red_yellow: self.red_yellow as int,
            blue_red: self.blue_red as int,
            blue_blue: self.blue_blue as int,
            blue_green: self.blue_green as int,
            blue_yellow: self.blue_yellow as int,
            green_red: self.green_red as int,
            green_blue: self.green_blue as int,
            green_green: self.green_green as int,
            green_yellow: self.green_yellow as int,
            yellow_red: self.yellow_red as int,
            yellow_blue: self.yellow_blue as int,
            yellow_green: self.yellow_green as int,
            yellow_yellow: self.yellow_yellow as int,
        }
    }
}

/// A coefficient as stored after a set: clamped to the editable range.
pub open spec fn clamp_coeff(v: int) -> int {
    if v < -COEFF_LIMIT {
        -COEFF_LIMIT as int
    } else if v > COEFF_LIMIT {
        COEFF_LIMIT as int
    } else {
        v
    }
}

impl CoeffMatrix {
    /// The entry for the ordered pair (source, target).
    pub fn get(&self, source: Category, target: Category) -> (r: i64)
        ensures
            r as int == self@.coeff(source, target),
    {
        match (source, target) {
            (Category::Red, Category::Red) => self.red_red,
            (Category::Red, Category::Blue) => self.red_blue,
            (Category::Red, Category::Green) => self.red_green,
            (Category::Red, Category::Yellow) => self.red_yellow,
            (Category::Blue, Category::Red) => self.blue_red,
            (Category::Blue, Category::Blue) => self.blue_blue,
            (Category::Blue, Category::Green) => self.blue_green,
            (Category::Blue, Category::Yellow) => self.blue_yellow,
            (Category::Green, Category::Red) => self.green_red,
            (Category::Green, Category::Blue) => self.green_blue,
            (Category::Green, Category::Green) => self.green_green,
            (Category::Green, Category::Yellow) => self.green_yellow,
            (Category::Yellow, Category::Red) => self.yellow_red,
            (Category::Yellow, Category::Blue) => self.yellow_blue,
            (Category::Yellow, Category::Green) => self.yellow_green,
            (Category::Yellow, Category::Yellow) => self.yellow_yellow,
        }
    }

    /// Stores `value`, clamped to the editable range, in the entry for
    /// the ordered pair (source, target). Every other entry is kept.
    pub fn set(&mut self, source: Category, target: Category, value: i64)
        ensures
            final(self)@.coeff(source, target) == clamp_coeff(value as int),
            forall|s: Category, t: Category|
                !(s == source && t == target) ==> #[trigger] final(self)@.coeff(s, t)
                    == old(self)@.coeff(s, t),
    {
        let v: i64 = if value < -COEFF_LIMIT {
            -COEFF_LIMIT
        } else if value > COEFF_LIMIT {
            COEFF_LIMIT
        } else {
            value
        };
        match (source, target) {
            (Category::Red, Category::Red) => self.red_red = v,
            (Category::Red, Category::Blue) => self.red_blue = v,
            (Category::Red, Category::Green) => self.red_green = v,
            (Category::Red, Category::Yellow) => self.red_yellow = v,
            (Category::Blue, Category::Red) => self.blue_red = v,
            (Category::Blue, Category::Blue) => self.blue_blue = v,
            (Category::Blue, Category::Green) => self.blue_green = v,
            (Category::Blue, Category::Yellow) => self.blue_yellow = v,
            (Category::Green, Category::Red) => self.green_red = v,
            (Category::Green, Category::Blue) => self.green_blue = v,
            (Category::Green, Category::Green) => self.green_green = v,
            (Category::Green, Category::Yellow) => self.green_yellow = v,
            (Category::Yellow, Category::Red) => self.yellow_red = v,
            (Category::Yellow, Category::Blue) => self.yellow_blue = v,
            (Category::Yellow, Category::Green) => self.yellow_green = v,
            (Category::Yellow, Category::Yellow) => self.yellow_yellow = v,
        }
    }
}

impl Default for CoeffMatrix {
    /// The default matrix: 1.0 on the diagonal (each category attracts
    /// its own kind), -0.5 everywhere else.
    fn default() -> (r: CoeffMatrix)
        ensures
            forall|s: Category, t: Category|
                #[trigger] r@.coeff(s, t) == if s == t {
                    1000int
                } else {
                    -500int
                },
            r@.wf(),
    {
        CoeffMatrix {
            red_red: 1000,
            red_blue: -500,
            red_green: -500,
            red_yellow: -500,
            blue_red: -500,
            blue_blue: 1000,
            blue_green: -500,
            blue_yellow: -500,
            green_red: -500,
            green_blue: -500,
            green_green: 1000,
            green_yellow: -500,
            yellow_red: -500,
            yellow_blue: -500,
            yellow_green: -500,
            yellow_yellow: 1000,
        }
    }
}

} // verus!
