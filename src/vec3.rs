//! The vector type and its comparison.
use vstd::prelude::*;
use crate::double::{double_bits_eq, double_eq, is_nan_spec};

verus! {

/// A vector in three dimensions. Each component is held as the bit pattern
/// of an IEEE-754 double (as `f64::to_bits` gives it), so that the rule by
/// which two vectors compare equal can be stated and proved exactly.
#[derive(Clone, Copy, Debug)]
pub struct Vec3Bits {
    pub x: u64,
    pub y: u64,
    pub z: u64,
}

impl Vec3Bits {
    /// Two vectors are equal when each pair of components compares equal as
    /// doubles: exact, with no tolerance, `NaN` unequal to everything and the
    /// two zeros equal.
    pub open spec fn equals(self, other: Vec3Bits) -> bool {
        &&& double_eq(self.x, other.x)
        &&& double_eq(self.y, other.y)
        &&& double_eq(self.z, other.z)
    }

    pub open spec fn has_nan(self) -> bool {
        is_nan_spec(self.x) || is_nan_spec(self.y) || is_nan_spec(self.z)
    }

    /// Whether `self` and `other` are equal, component by component.
    pub fn components_eq(&self, other: &Vec3Bits) -> (r: bool)
        ensures
            r == self.equals(*other),
    {
        double_bits_eq(self.x, other.x) && double_bits_eq(self.y, other.y) && double_bits_eq(
            self.z,
            other.z,
        )
    }
}

impl PartialEq for Vec3Bits {
    fn eq(&self, other: &Vec3Bits) -> (r: bool)
        ensures
            r == self.equals(*other),
    {
        self.components_eq(other)
    }
}

impl vstd::std_specs::cmp::PartialEqSpecImpl for Vec3Bits {
    open spec fn obeys_eq_spec() -> bool {
        true
    }

    open spec fn eq_spec(&self, other: &Vec3Bits) -> bool {
        self.equals(*other)
    }
}

/// Vector equality is symmetric.
pub proof fn lemma_equals_symmetric(a: Vec3Bits, b: Vec3Bits)
    ensures
        a.equals(b) == b.equals(a),
{
}

/// A vector equals itself exactly when none of its components is NaN.
pub proof fn lemma_equals_reflexive(a: Vec3Bits)
    ensures
        a.equals(a) == !a.has_nan(),
{
}

/// Vectors are unequal as soon as any single component differs.
pub proof fn lemma_one_component_differs(a: Vec3Bits, b: Vec3Bits)
    requires
        !double_eq(a.x, b.x) || !double_eq(a.y, b.y) || !double_eq(a.z, b.z),
    ensures
        !a.equals(b),
{
}

} // verus!
