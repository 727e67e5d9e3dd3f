use vstd::prelude::*;
use vstd::std_specs::convert::IntoSpec;

verus! {

/// A numerator/denominator pair, as used for time bases and frame rates.
#[derive(Clone, Copy, Debug, PartialEq, Eq, Structural)]
pub struct Rational {
    pub num: i32,
    pub den: i32,
}

impl Rational {
    pub fn new(num: i32, den: i32) -> (r: Rational)
        ensures
            r == (Rational { num, den }),
    {
        Rational { num, den }
    }

    pub fn numerator(&self) -> (r: i32)
        ensures
            r == self.num,
    {
        self.num
    }

    pub fn denominator(&self) -> (r: i32)
        ensures
            r == self.den,
    {
        self.den
    }
}

impl From<(i32, i32)> for Rational {
    fn from(value: (i32, i32)) -> (r: Rational) {
        Rational { num: value.0, den: value.1 }
    }
}

impl vstd::std_specs::convert::FromSpecImpl<(i32, i32)> for Rational {
    open spec fn obeys_from_spec() -> bool {
        true
    }

    open spec fn from_spec(v: (i32, i32)) -> Rational {
        Rational { num: v.0, den: v.1 }
    }
}

} // verus!
