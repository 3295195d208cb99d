use crate::scalar::Scalar;
use vstd::prelude::*;

verus! {

/// Fixed-size two-component vector over a scalar type. A plain, copyable
/// value type: every operation returns a new vector and mutates nothing.
#[derive(Debug, Clone, Copy, PartialEq)]
pub struct Vec2<T> {
    pub x: T,
    pub y: T,
}

impl<T: Scalar> Vec2<T> {
    /// Componentwise sum, at the spec level.
    pub open spec fn spec_add(self, rhs: Self) -> Self {
        Vec2 { x: self.x.plus(rhs.x), y: self.y.plus(rhs.y) }
    }

    /// Componentwise difference, at the spec level.
    pub open spec fn spec_sub(self, rhs: Self) -> Self {
        Vec2 { x: self.x.minus(rhs.x), y: self.y.minus(rhs.y) }
    }

    /// Componentwise scalar product, at the spec level.
    pub open spec fn spec_scale(self, scalar: T) -> Self {
        Vec2 { x: self.x.times(scalar), y: self.y.times(scalar) }
    }

    /// The dot product `x1*x2 + y1*y2`, at the spec level.
    pub open spec fn spec_dot(self, rhs: Self) -> T {
        self.x.times(rhs.x).plus(self.y.times(rhs.y))
    }

    /// Both componentwise additions are free of overflow.
    pub open spec fn add_ok(self, rhs: Self) -> bool {
        self.x.add_ok(rhs.x) && self.y.add_ok(rhs.y)
    }

    /// Both componentwise subtractions are free of overflow.
    pub open spec fn sub_ok(self, rhs: Self) -> bool {
        self.x.sub_ok(rhs.x) && self.y.sub_ok(rhs.y)
    }

    /// Both componentwise products are free of overflow.
    pub open spec fn scale_ok(self, scalar: T) -> bool {
        self.x.mul_ok(scalar) && self.y.mul_ok(scalar)
    }

    /// Every product and the final sum of the dot product are free of
    /// overflow.
    pub open spec fn dot_ok(self, rhs: Self) -> bool {
        &&& self.x.mul_ok(rhs.x)
        &&& self.y.mul_ok(rhs.y)
        &&& self.x.times(rhs.x).add_ok(self.y.times(rhs.y))
    }

    /// Builds the vector with the given components.
    pub fn new(x: T, y: T) -> (r: Self)
        ensures
            r == (Vec2 { x, y }),
    {
        Vec2 { x, y }
    }

    /// Returns `x1*x2 + y1*y2`.
    pub fn dot(self, other: Self) -> (r: T)
        requires
            self.dot_ok(other),
        ensures
            r == self.spec_dot(other),
    {
        self.x.mul_val(other.x).add_val(self.y.mul_val(other.y))
    }

    /// Componentwise sum.
    pub fn add(self, rhs: Self) -> (r: Self)
        requires
            self.add_ok(rhs),
        ensures
            r == self.spec_add(rhs),
    {
        Vec2 { x: self.x.add_val(rhs.x), y: self.y.add_val(rhs.y) }
    }

    /// Componentwise difference.
    pub fn sub(self, rhs: Self) -> (r: Self)
        requires
            self.sub_ok(rhs),
        ensures
            r == self.spec_sub(rhs),
    {
        Vec2 { x: self.x.sub_val(rhs.x), y: self.y.sub_val(rhs.y) }
    }

    /// Componentwise scalar product.
    pub fn mul(self, scalar: T) -> (r: Self)
        requires
            self.scale_ok(scalar),
        ensures
            r == self.spec_scale(scalar),
    {
        Vec2 { x: self.x.mul_val(scalar), y: self.y.mul_val(scalar) }
    }
}

/// Adding two-component vectors is commutative: the sums are equal, and one
/// is defined exactly when the other is.
pub proof fn lemma_vec2_add_comm<T: Scalar>(a: Vec2<T>, b: Vec2<T>)
    ensures
        a.spec_add(b) == b.spec_add(a),
        a.add_ok(b) == b.add_ok(a),
{
    T::lemma_add_comm(a.x, b.x);
    T::lemma_add_comm(a.y, b.y);
}

/// Scaling by the multiplicative identity is always defined and returns the
/// vector unchanged.
pub proof fn lemma_vec2_scale_one<T: Scalar>(v: Vec2<T>)
    ensures
        v.scale_ok(T::one()),
        v.spec_scale(T::one()) == v,
{
    T::lemma_mul_one(v.x);
    T::lemma_mul_one(v.y);
}

} // verus!
