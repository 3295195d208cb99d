use crate::scalar::Scalar;
use vstd::prelude::*;

verus! {

/// The one error a dynamic-vector operation can report: the two operands'
/// lengths differ, so there is no common index range to combine them over.
#[derive(Debug, PartialEq)]
pub enum VectorError {
    DimensionMismatch,
}

/// Variable-length vector backed by an ordered sequence of scalars, never
/// empty. An immutable value type: every operation allocates a new vector
/// and mutates neither operand. The binary operations (sum, difference, dot
/// product) require equal lengths and report `DimensionMismatch` otherwise;
/// the check happens at call time, since two independently built vectors
/// may differ in length.
#[derive(Debug, Clone, PartialEq)]
pub struct DVec<T> {
    data: Vec<T>,
}

impl<T> View for DVec<T> {
    type V = Seq<T>;

    closed spec fn view(&self) -> Seq<T> {
        self.data@
    }
}

/// Componentwise sum of two equal-length sequences of scalars.
pub open spec fn add_seq<T: Scalar>(a: Seq<T>, b: Seq<T>) -> Seq<T> {
    Seq::new(a.len(), |i: int| a[i].plus(b[i]))
}

/// Componentwise difference of two equal-length sequences of scalars.
pub open spec fn sub_seq<T: Scalar>(a: Seq<T>, b: Seq<T>) -> Seq<T> {
    Seq::new(a.len(), |i: int| a[i].minus(b[i]))
}

/// Every component of a sequence multiplied by one scalar.
pub open spec fn scale_seq<T: Scalar>(a: Seq<T>, scalar: T) -> Seq<T> {
    Seq::new(a.len(), |i: int| a[i].times(scalar))
}

/// Every componentwise addition is free of overflow.
pub open spec fn add_seq_ok<T: Scalar>(a: Seq<T>, b: Seq<T>) -> bool {
    forall|i: int| 0 <= i < a.len() ==> #[trigger] a[i].add_ok(b[i])
}

/// Every componentwise subtraction is free of overflow.
pub open spec fn sub_seq_ok<T: Scalar>(a: Seq<T>, b: Seq<T>) -> bool {
    forall|i: int| 0 <= i < a.len() ==> #[trigger] a[i].sub_ok(b[i])
}

/// Every componentwise product is free of overflow.
pub open spec fn scale_seq_ok<T: Scalar>(a: Seq<T>, scalar: T) -> bool {
    forall|i: int| 0 <= i < a.len() ==> #[trigger] a[i].mul_ok(scalar)
}

/// Sum of the componentwise products over the first `n` components, folded
/// left to right from the scalar type's additive identity.
pub open spec fn dot_prefix<T: Scalar>(a: Seq<T>, b: Seq<T>, n: int) -> T
    decreases n,
{
    if n <= 0 {
        T::zero()
    } else {
        dot_prefix(a, b, n - 1).plus(a[n - 1].times(b[n - 1]))
    }
}

/// The dot product of two equal-length sequences of scalars.
pub open spec fn spec_dot<T: Scalar>(a: Seq<T>, b: Seq<T>) -> T {
    dot_prefix(a, b, a.len() as int)
}

/// Every componentwise product and every running sum of the dot-product
/// fold over the first `n` components is free of overflow.
pub open spec fn dot_prefix_ok<T: Scalar>(a: Seq<T>, b: Seq<T>, n: int) -> bool
    decreases n,
{
    if n <= 0 {
        true
    } else {
        &&& dot_prefix_ok(a, b, n - 1)
        &&& a[n - 1].mul_ok(b[n - 1])
        &&& dot_prefix(a, b, n - 1).add_ok(a[n - 1].times(b[n - 1]))
    }
}

/// The whole dot-product fold is free of overflow.
pub open spec fn dot_ok<T: Scalar>(a: Seq<T>, b: Seq<T>) -> bool {
    dot_prefix_ok(a, b, a.len() as int)
}

/// A fold that is defined over a prefix range is defined over every shorter
/// prefix of it.
proof fn lemma_dot_prefix_ok_mono<T: Scalar>(a: Seq<T>, b: Seq<T>, m: int, n: int)
    requires
        0 <= m <= n,
        dot_prefix_ok(a, b, n),
    ensures
        dot_prefix_ok(a, b, m),
    decreases n - m,
{
    if m < n {
        lemma_dot_prefix_ok_mono(a, b, m, n - 1);
    }
}

impl<T: Scalar> DVec<T> {
    /// The type's invariant: a dynamic vector holds at least one component.
    pub open spec fn wf(&self) -> bool {
        self@.len() >= 1
    }

    /// Builds a vector from a non-empty sequence of components. An empty
    /// sequence is a precondition violation, ruled out statically: no
    /// zero-length vector can ever be produced.
    pub fn new(data: Vec<T>) -> (r: Self)
        requires
            data@.len() >= 1,
        ensures
            r@ == data@,
            r.wf(),
    {
        DVec { data }
    }

    /// Number of components.
    pub fn len(&self) -> (n: usize)
        ensures
            n == self@.len(),
    {
        self.data.len()
    }

    /// Dot product over the common index range. Returns the fold of the
    /// componentwise products exactly when the lengths match, and
    /// `DimensionMismatch` exactly when they do not.
    pub fn dot(&self, other: &Self) -> (r: Result<T, VectorError>)
        requires
            self@.len() == other@.len() ==> dot_ok(self@, other@),
        ensures
            self@.len() == other@.len() ==> r == Ok::<T, VectorError>(spec_dot(self@, other@)),
            self@.len() != other@.len() ==> r == Err::<T, VectorError>(
                VectorError::DimensionMismatch,
            ),
    {
        if self.data.len() != other.data.len() {
            return Err(VectorError::DimensionMismatch);
        }
        let n: usize = self.data.len();
        let mut acc: T = T::zero_val();
        let mut i: usize = 0;
        while i < n
            invariant
                n == self@.len(),
                self@.len() == other@.len(),
                dot_prefix_ok(self@, other@, n as int),
                i <= n,
                acc == dot_prefix(self@, other@, i as int),
            decreases n - i,
        {
            proof {
                lemma_dot_prefix_ok_mono(self@, other@, i + 1, n as int);
            }
            let p: T = self.data[i].mul_val(other.data[i]);
            acc = acc.add_val(p);
            i = i + 1;
        }
        Ok(acc)
    }

    /// Componentwise sum. Returns the new vector exactly when the lengths
    /// match, and `DimensionMismatch` exactly when they do not.
    pub fn add(&self, rhs: &Self) -> (r: Result<Self, VectorError>)
        requires
            self@.len() == rhs@.len() ==> add_seq_ok(self@, rhs@),
        ensures
            self@.len() == rhs@.len() ==> (r matches Ok(v) && v@ == add_seq(self@, rhs@)),
            self@.len() != rhs@.len() ==> (r matches Err(e) && e == VectorError::DimensionMismatch),
    {
        if self.data.len() != rhs.data.len() {
            return Err(VectorError::DimensionMismatch);
        }
        let n: usize = self.data.len();
        let mut out: Vec<T> = Vec::new();
        let mut i: usize = 0;
        while i < n
            invariant
                n == self@.len(),
                self@.len() == rhs@.len(),
                add_seq_ok(self@, rhs@),
                i <= n,
                out@.len() == i,
                forall|j: int| 0 <= j < i ==> out@[j] == self@[j].plus(#[trigger] rhs@[j]),
            decreases n - i,
        {
            let s: T = self.data[i].add_val(rhs.data[i]);
            out.push(s);
            i = i + 1;
        }
        proof {
            assert(out@ =~= add_seq(self@, rhs@));
        }
        Ok(DVec { data: out })
    }

    /// Componentwise difference. Returns the new vector exactly when the
    /// lengths match, and `DimensionMismatch` exactly when they do not.
    pub fn sub(&self, rhs: &Self) -> (r: Result<Self, VectorError>)
        requires
            self@.len() == rhs@.len() ==> sub_seq_ok(self@, rhs@),
        ensures
            self@.len() == rhs@.len() ==> (r matches Ok(v) && v@ == sub_seq(self@, rhs@)),
            self@.len() != rhs@.len() ==> (r matches Err(e) && e == VectorError::DimensionMismatch),
    {
        if self.data.len() != rhs.data.len() {
            return Err(VectorError::DimensionMismatch);
        }
        let n: usize = self.data.len();
        let mut out: Vec<T> = Vec::new();
        let mut i: usize = 0;
        while i < n
            invariant
                n == self@.len(),
                self@.len() == rhs@.len(),
                sub_seq_ok(self@, rhs@),
                i <= n,
                out@.len() == i,
                forall|j: int| 0 <= j < i ==> out@[j] == self@[j].minus(#[trigger] rhs@[j]),
            decreases n - i,
        {
            let d: T = self.data[i].sub_val(rhs.data[i]);
            out.push(d);
            i = i + 1;
        }
        proof {
            assert(out@ =~= sub_seq(self@, rhs@));
        }
        Ok(DVec { data: out })
    }

    /// Componentwise scalar product. A unary operation: no dimension check,
    /// never fails.
    pub fn mul(&self, scalar: T) -> (r: Self)
        requires
            scale_seq_ok(self@, scalar),
        ensures
            r@ == scale_seq(self@, scalar),
    {
        let n: usize = self.data.len();
        let mut out: Vec<T> = Vec::new();
        let mut i: usize = 0;
        while i < n
            invariant
                n == self@.len(),
                scale_seq_ok(self@, scalar),
                i <= n,
                out@.len() == i,
                forall|j: int| 0 <= j < i ==> out@[j] == #[trigger] self@[j].times(scalar),
            decreases n - i,
        {
            let p: T = self.data[i].mul_val(scalar);
            out.push(p);
            i = i + 1;
        }
        proof {
            assert(out@ =~= scale_seq(self@, scalar));
        }
        DVec { data: out }
    }
}

/// Adding equal-length dynamic vectors is commutative: the sums are equal,
/// and one is defined exactly when the other is.
pub proof fn lemma_dvec_add_comm<T: Scalar>(a: DVec<T>, b: DVec<T>)
    requires
        a@.len() == b@.len(),
    ensures
        add_seq(a@, b@) == add_seq(b@, a@),
        add_seq_ok(a@, b@) == add_seq_ok(b@, a@),
{
    assert forall|i: int| 0 <= i < a@.len() implies add_seq(a@, b@)[i] == add_seq(b@, a@)[i] by {
        T::lemma_add_comm(a@[i], b@[i]);
    }
    assert(add_seq(a@, b@) =~= add_seq(b@, a@));
    if add_seq_ok(a@, b@) {
        assert forall|i: int| 0 <= i < b@.len() implies #[trigger] b@[i].add_ok(a@[i]) by {
            T::lemma_add_comm(a@[i], b@[i]);
        }
    }
    if add_seq_ok(b@, a@) {
        assert forall|i: int| 0 <= i < a@.len() implies #[trigger] a@[i].add_ok(b@[i]) by {
            T::lemma_add_comm(b@[i], a@[i]);
        }
    }
}

/// Scaling a dynamic vector by the multiplicative identity is always
/// defined and returns a vector with the same components.
pub proof fn lemma_dvec_scale_one<T: Scalar>(v: DVec<T>)
    ensures
        scale_seq_ok(v@, T::one()),
        scale_seq(v@, T::one()) == v@,
{
    assert forall|i: int| 0 <= i < v@.len() implies #[trigger] v@[i].mul_ok(T::one()) by {
        T::lemma_mul_one(v@[i]);
    }
    assert forall|i: int| 0 <= i < v@.len() implies scale_seq(v@, T::one())[i] == v@[i] by {
        T::lemma_mul_one(v@[i]);
    }
    assert(scale_seq(v@, T::one()) =~= v@);
}

} // verus!
