//! The vector type and the operations on it that are exact on bit patterns:
//! construction, access to a component, negation and comparison.

use crate::binary64::{equal, is_nan, negate, negated, numerically_equal};
use vstd::prelude::*;
use vstd::std_specs::cmp::PartialEqSpec;
use vstd::std_specs::ops::NegSpec;

verus! {

/// A vector of three binary64 components, each held as its 64-bit pattern.
///
/// Every pattern is a valid component: infinities and NaNs are kept as they are.
#[derive(Debug, Clone, Copy)]
pub struct Vec3 {
    x: u64,
    y: u64,
    z: u64,
}

impl View for Vec3 {
    type V = (u64, u64, u64);

    /// The patterns of the components, in the order x, y, z.
    closed spec fn view(&self) -> (u64, u64, u64) {
        (self.x, self.y, self.z)
    }
}

impl Vec3 {
    /// Whether some component is a NaN.
    pub open spec fn has_nan(self) -> bool {
        is_nan(self@.0) || is_nan(self@.1) || is_nan(self@.2)
    }

    /// The vector with the given components.
    pub fn new(x: u64, y: u64, z: u64) -> (r: Vec3)
        ensures
            r@ == (x, y, z),
    {
        Vec3 { x, y, z }
    }

    /// The first component.
    pub fn x(&self) -> (r: u64)
        ensures
            r == self@.0,
    {
        self.x
    }

    /// The second component.
    pub fn y(&self) -> (r: u64)
        ensures
            r == self@.1,
    {
        self.y
    }

    /// The third component.
    pub fn z(&self) -> (r: u64)
        ensures
            r == self@.2,
    {
        self.z
    }
}

impl Default for Vec3 {
    /// The zero vector: three positive zeros.
    fn default() -> (r: Vec3)
        ensures
            r@ == (0u64, 0u64, 0u64),
    {
        Vec3::new(0, 0, 0)
    }
}

impl core::ops::Neg for Vec3 {
    type Output = Vec3;

    /// The vector with every component negated.
    fn neg(self) -> (r: Vec3)
        ensures
            r@ == (negated(self@.0), negated(self@.1), negated(self@.2)),
    {
        Vec3 { x: negate(self.x), y: negate(self.y), z: negate(self.z) }
    }
}

impl vstd::std_specs::ops::NegSpecImpl for Vec3 {
    open spec fn obeys_neg_spec() -> bool {
        true
    }

    open spec fn neg_req(self) -> bool {
        true
    }

    closed spec fn neg_spec(self) -> Vec3 {
        Vec3 { x: negated(self.x), y: negated(self.y), z: negated(self.z) }
    }
}

impl PartialEq for Vec3 {
    /// Whether the two vectors are equal in every component.
    fn eq(&self, other: &Vec3) -> (r: bool) {
        equal(self.x, other.x) && equal(self.y, other.y) && equal(self.z, other.z)
    }
}

impl vstd::std_specs::cmp::PartialEqSpecImpl for Vec3 {
    open spec fn obeys_eq_spec() -> bool {
        true
    }

    open spec fn eq_spec(&self, other: &Vec3) -> bool {
        &&& numerically_equal(self@.0, other@.0)
        &&& numerically_equal(self@.1, other@.1)
        &&& numerically_equal(self@.2, other@.2)
    }
}

/// Negating a vector inverts the sign of each component and leaves the rest
/// of its pattern.
pub proof fn lemma_neg_components(a: Vec3)
    ensures
        a.neg_spec()@ == (negated(a@.0), negated(a@.1), negated(a@.2)),
{
}

/// Negating a vector twice gives back each of its components bit for bit. The
/// result therefore compares equal to the vector exactly when the vector holds
/// no NaN: a NaN equals nothing, itself included.
pub proof fn lemma_neg_twice(a: Vec3)
    ensures
        a.neg_spec().neg_spec() == a,
        a.neg_spec().neg_spec().eq_spec(&a) <==> !a.has_nan(),
{
    lemma_neg_components(a);
    lemma_neg_components(a.neg_spec());
    lemma_eq_reflexive(a);
}

/// A vector compares equal to itself exactly when it holds no NaN.
pub proof fn lemma_eq_reflexive(a: Vec3)
    ensures
        a.eq_spec(&a) <==> !a.has_nan(),
{
}

/// Equality of vectors is symmetric, as `PartialEq` asks.
pub proof fn lemma_eq_symmetric(a: Vec3, b: Vec3)
    ensures
        a.eq_spec(&b) == b.eq_spec(&a),
{
}

/// Equality of vectors is transitive, as `PartialEq` asks.
pub proof fn lemma_eq_transitive(a: Vec3, b: Vec3, c: Vec3)
    requires
        a.eq_spec(&b),
        b.eq_spec(&c),
    ensures
        a.eq_spec(&c),
{
}

} // verus!
