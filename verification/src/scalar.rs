use vstd::prelude::*;

verus! {

/// The numeric capability every vector component must have: a copyable
/// scalar with addition, subtraction and multiplication, each closed over
/// the scalar type.
///
/// Each operation comes in three parts: a spec-level function giving its
/// mathematical value, a definedness condition saying on which operands the
/// machine operation is free of overflow, and an executable function proved
/// against the spec-level one. The trait also fixes the additive and
/// multiplicative identities and the algebraic laws the vector contracts
/// rely on: addition commutes, multiplying by one changes nothing, and
/// subtracting a scalar from itself yields the additive identity.
pub trait Scalar: Copy + Sized {
    /// Mathematical value of addition on this type.
    spec fn plus(self, rhs: Self) -> Self;

    /// Mathematical value of subtraction on this type.
    spec fn minus(self, rhs: Self) -> Self;

    /// Mathematical value of multiplication on this type.
    spec fn times(self, rhs: Self) -> Self;

    /// The additive identity.
    spec fn zero() -> Self;

    /// The multiplicative identity.
    spec fn one() -> Self;

    /// Operands on which addition is defined (no overflow).
    spec fn add_ok(self, rhs: Self) -> bool;

    /// Operands on which subtraction is defined (no overflow).
    spec fn sub_ok(self, rhs: Self) -> bool;

    /// Operands on which multiplication is defined (no overflow).
    spec fn mul_ok(self, rhs: Self) -> bool;

    fn add_val(self, rhs: Self) -> (r: Self)
        requires
            self.add_ok(rhs),
        ensures
            r == self.plus(rhs),
    ;

    fn sub_val(self, rhs: Self) -> (r: Self)
        requires
            self.sub_ok(rhs),
        ensures
            r == self.minus(rhs),
    ;

    fn mul_val(self, rhs: Self) -> (r: Self)
        requires
            self.mul_ok(rhs),
        ensures
            r == self.times(rhs),
    ;

    fn zero_val() -> (r: Self)
        ensures
            r == Self::zero(),
    ;

    fn one_val() -> (r: Self)
        ensures
            r == Self::one(),
    ;

    /// Addition is commutative, and so is its definedness condition.
    proof fn lemma_add_comm(a: Self, b: Self)
        ensures
            a.plus(b) == b.plus(a),
            a.add_ok(b) == b.add_ok(a),
    ;

    /// One is the multiplicative identity, and multiplying by it is always
    /// defined.
    proof fn lemma_mul_one(a: Self)
        ensures
            a.mul_ok(Self::one()),
            a.times(Self::one()) == a,
    ;

    /// Subtracting a scalar from itself is always defined and yields the
    /// additive identity: a dot product may start its accumulator either
    /// from `zero` or from a self-subtraction and obtain the same value.
    proof fn lemma_sub_self_zero(a: Self)
        ensures
            a.sub_ok(a),
            a.minus(a) == Self::zero(),
    ;
}

impl Scalar for i64 {
    open spec fn plus(self, rhs: Self) -> Self {
        (self + rhs) as i64
    }

    open spec fn minus(self, rhs: Self) -> Self {
        (self - rhs) as i64
    }

    open spec fn times(self, rhs: Self) -> Self {
        (self * rhs) as i64
    }

    open spec fn zero() -> Self {
        0i64
    }

    open spec fn one() -> Self {
        1i64
    }

    open spec fn add_ok(self, rhs: Self) -> bool {
        i64::MIN <= self + rhs <= i64::MAX
    }

    open spec fn sub_ok(self, rhs: Self) -> bool {
        i64::MIN <= self - rhs <= i64::MAX
    }

    open spec fn mul_ok(self, rhs: Self) -> bool {
        i64::MIN <= self * rhs <= i64::MAX
    }

    fn add_val(self, rhs: Self) -> (r: Self) {
        self + rhs
    }

    fn sub_val(self, rhs: Self) -> (r: Self) {
        self - rhs
    }

    fn mul_val(self, rhs: Self) -> (r: Self) {
        self * rhs
    }

    fn zero_val() -> (r: Self) {
        0i64
    }

    fn one_val() -> (r: Self) {
        1i64
    }

    proof fn lemma_add_comm(a: Self, b: Self) {
    }

    proof fn lemma_mul_one(a: Self) {
    }

    proof fn lemma_sub_self_zero(a: Self) {
    }
}

impl Scalar for i32 {
    open spec fn plus(self, rhs: Self) -> Self {
        (self + rhs) as i32
    }

    open spec fn minus(self, rhs: Self) -> Self {
        (self - rhs) as i32
    }

    open spec fn times(self, rhs: Self) -> Self {
        (self * rhs) as i32
    }

    open spec fn zero() -> Self {
        0i32
    }

    open spec fn one() -> Self {
        1i32
    }

    open spec fn add_ok(self, rhs: Self) -> bool {
        i32::MIN <= self + rhs <= i32::MAX
    }

    open spec fn sub_ok(self, rhs: Self) -> bool {
        i32::MIN <= self - rhs <= i32::MAX
    }

    open spec fn mul_ok(self, rhs: Self) -> bool {
        i32::MIN <= self * rhs <= i32::MAX
    }

    fn add_val(self, rhs: Self) -> (r: Self) {
        self + rhs
    }

    fn sub_val(self, rhs: Self) -> (r: Self) {
        self - rhs
    }

    fn mul_val(self, rhs: Self) -> (r: Self) {
        self * rhs
    }

    fn zero_val() -> (r: Self) {
        0i32
    }

    fn one_val() -> (r: Self) {
        1i32
    }

    proof fn lemma_add_comm(a: Self, b: Self) {
    }

    proof fn lemma_mul_one(a: Self) {
    }

    proof fn lemma_sub_self_zero(a: Self) {
    }
}

} // verus!
