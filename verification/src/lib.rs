//! A constrained numeric wrapper holding a value in the closed range
//! `[zero, one]` of its underlying numeric type: a "unit interval" value,
//! as used for probabilities, blend factors and other normalized
//! quantities. Construction checks the range once; every derived
//! operation (complement, multiplication) is proved to keep the result
//! inside the range, so no re-validation is ever needed.

use vstd::prelude::*;

verus! {

/// The minimal numeric capability needed to check the unit-interval
/// range: an additive identity, a multiplicative identity and an
/// ordering. Each executable method is tied to a specification-level
/// counterpart, and both identities must themselves lie in the interval.
pub trait UnitBound: Sized + Copy {
    /// The additive identity, as a specification-level value.
    spec fn spec_zero() -> Self;

    /// The multiplicative identity, as a specification-level value.
    spec fn spec_one() -> Self;

    /// The ordering on values, as a specification-level relation.
    spec fn spec_le(self, other: Self) -> bool;

    /// Both identities lie in the unit interval; in particular the
    /// ordering is reflexive at each identity and `zero <= one`.
    proof fn zero_one_in_unit()
        ensures
            Self::spec_zero().spec_le(Self::spec_zero()),
            Self::spec_one().spec_le(Self::spec_one()),
            Self::spec_zero().spec_le(Self::spec_one()),
    ;

    /// The additive identity.
    fn zero() -> (r: Self)
        ensures
            r == Self::spec_zero(),
    ;

    /// The multiplicative identity.
    fn one() -> (r: Self)
        ensures
            r == Self::spec_one(),
    ;

    /// The ordering comparison.
    fn leq(self, other: Self) -> (r: bool)
        ensures
            r == self.spec_le(other),
    ;
}

/// A value lies in the unit interval when it is between the additive
/// and the multiplicative identity of its type, both included.
pub open spec fn in_unit<T: UnitBound>(x: T) -> bool {
    T::spec_zero().spec_le(x) && x.spec_le(T::spec_one())
}

/// The subtraction-from-one capability that `complement` needs, together
/// with the algebraic facts that make the complement safe without
/// re-validation: it stays inside the interval, it is an involution, and
/// it swaps the two endpoints exactly.
pub trait UnitSub: UnitBound {
    /// What subtracting `self` from one yields, as a specification-level
    /// value.
    spec fn spec_one_minus(self) -> Self;

    /// Subtraction from one.
    fn one_minus(self) -> (r: Self)
        requires
            Self::spec_zero().spec_le(self) && self.spec_le(Self::spec_one()),
        ensures
            r == self.spec_one_minus(),
    ;

    /// Subtracting a unit-interval value from one stays inside the
    /// interval.
    proof fn one_minus_in_unit(self)
        requires
            Self::spec_zero().spec_le(self) && self.spec_le(Self::spec_one()),
        ensures
            Self::spec_zero().spec_le(self.spec_one_minus()),
            self.spec_one_minus().spec_le(Self::spec_one()),
    ;

    /// Subtracting from one twice returns the original value.
    proof fn one_minus_involution(self)
        requires
            Self::spec_zero().spec_le(self) && self.spec_le(Self::spec_one()),
        ensures
            self.spec_one_minus().spec_one_minus() == self,
    ;

    /// Subtraction from one swaps the two endpoints exactly.
    proof fn one_minus_identities()
        ensures
            Self::spec_zero().spec_one_minus() == Self::spec_one(),
            Self::spec_one().spec_one_minus() == Self::spec_zero(),
    ;
}

/// The multiplication capability, together with the closure fact that
/// makes the product safe without re-validation: a product of two
/// unit-interval values stays inside the interval.
pub trait UnitMul: UnitBound {
    /// What multiplying `self` by `other` yields, as a
    /// specification-level value.
    spec fn spec_times(self, other: Self) -> Self;

    /// Multiplication.
    fn times(self, other: Self) -> (r: Self)
        requires
            Self::spec_zero().spec_le(self) && self.spec_le(Self::spec_one()),
            Self::spec_zero().spec_le(other) && other.spec_le(Self::spec_one()),
        ensures
            r == self.spec_times(other),
    ;

    /// The product of two unit-interval values stays inside the
    /// interval.
    proof fn times_in_unit(self, other: Self)
        requires
            Self::spec_zero().spec_le(self) && self.spec_le(Self::spec_one()),
            Self::spec_zero().spec_le(other) && other.spec_le(Self::spec_one()),
        ensures
            Self::spec_zero().spec_le(self.spec_times(other)),
            self.spec_times(other).spec_le(Self::spec_one()),
    ;
}

/// A value guaranteed to be in the range `zero..=one` of its numeric
/// type. The range check runs once, at construction; every live instance
/// satisfies the invariant, and the operations below preserve it by
/// proof, never by a hidden re-check.
#[derive(Debug, Copy, PartialEq, Eq, PartialOrd, Ord, Hash)]
pub struct UnitInterval<T: UnitBound>(T);

impl<T: UnitBound> Clone for UnitInterval<T> {
    /// A clone is the same value.
    fn clone(&self) -> (r: Self)
        ensures
            r == *self,
    {
        proof {
            use_type_invariant(self);
        }
        *self
    }
}

impl<T: UnitBound> View for UnitInterval<T> {
    type V = T;

    closed spec fn view(&self) -> T {
        self.0
    }
}

impl<T: UnitBound> UnitInterval<T> {
    /// Every live instance holds a value inside the unit interval; the
    /// checked constructor establishes this, and the derived operations
    /// preserve it.
    #[verifier::type_invariant]
    spec fn inv(self) -> bool {
        in_unit(self.0)
    }

    /// Wraps `value` when it lies in `zero..=one`, both endpoints
    /// included; yields nothing for any other value. Never panics.
    pub fn new(value: T) -> (r: Option<Self>)
        ensures
            r is Some <==> in_unit(value),
            r matches Some(u) ==> u@ == value,
    {
        let lo = T::zero();
        let hi = T::one();
        if lo.leq(value) && value.leq(hi) {
            Some(UnitInterval(value))
        } else {
            None
        }
    }

    /// Returns the wrapped raw value by copy. The returned value always
    /// lies in the unit interval.
    pub fn get(self) -> (r: T)
        ensures
            r == self@,
            in_unit(r),
    {
        proof {
            use_type_invariant(&self);
        }
        self.0
    }
}

impl<T: UnitBound> UnitInterval<T> {
    /// What the wrapper-to-raw equality test means: the two values agree
    /// under the ordering in both directions.
    pub open spec fn spec_equals_value(self, v: T) -> bool {
        self@.spec_le(v) && v.spec_le(self@)
    }

    /// What the wrapper-to-raw ordering comparison means, three-way:
    /// absent when the two values are unrelated by the ordering.
    pub open spec fn spec_compare_value(self, v: T) -> Option<core::cmp::Ordering> {
        if self@.spec_le(v) && v.spec_le(self@) {
            Some(core::cmp::Ordering::Equal)
        } else if self@.spec_le(v) {
            Some(core::cmp::Ordering::Less)
        } else if v.spec_le(self@) {
            Some(core::cmp::Ordering::Greater)
        } else {
            None
        }
    }

    /// Equality between a wrapped value and a raw value: exactly the
    /// comparison of the wrapped value against the raw one.
    pub fn equals_value(self, v: T) -> (r: bool)
        ensures
            r == self.spec_equals_value(v),
    {
        self.0.leq(v) && v.leq(self.0)
    }

    /// Ordering between a wrapped value and a raw value: exactly the
    /// comparison of the wrapped value against the raw one.
    pub fn compare_value(self, v: T) -> (r: Option<core::cmp::Ordering>)
        ensures
            r == self.spec_compare_value(v),
    {
        let below = self.0.leq(v);
        let above = v.leq(self.0);
        if below && above {
            Some(core::cmp::Ordering::Equal)
        } else if below {
            Some(core::cmp::Ordering::Less)
        } else if above {
            Some(core::cmp::Ordering::Greater)
        } else {
            None
        }
    }
}

/// What the raw-to-wrapper equality test means: the two values agree
/// under the ordering in both directions.
pub open spec fn spec_value_equals<T: UnitBound>(v: T, x: UnitInterval<T>) -> bool {
    v.spec_le(x@) && x@.spec_le(v)
}

/// What the raw-to-wrapper ordering comparison means, three-way: absent
/// when the two values are unrelated by the ordering.
pub open spec fn spec_value_compare<T: UnitBound>(v: T, x: UnitInterval<T>) -> Option<
    core::cmp::Ordering,
> {
    if v.spec_le(x@) && x@.spec_le(v) {
        Some(core::cmp::Ordering::Equal)
    } else if v.spec_le(x@) {
        Some(core::cmp::Ordering::Less)
    } else if x@.spec_le(v) {
        Some(core::cmp::Ordering::Greater)
    } else {
        None
    }
}

/// Equality between a raw value and a wrapped value: exactly the
/// comparison of the raw value against the wrapped one.
pub fn value_equals<T: UnitBound>(v: T, x: UnitInterval<T>) -> (r: bool)
    ensures
        r == spec_value_equals(v, x),
{
    let w = x.get();
    v.leq(w) && w.leq(v)
}

/// Ordering between a raw value and a wrapped value: exactly the
/// comparison of the raw value against the wrapped one.
pub fn value_compare<T: UnitBound>(v: T, x: UnitInterval<T>) -> (r: Option<
    core::cmp::Ordering,
>)
    ensures
        r == spec_value_compare(v, x),
{
    let w = x.get();
    let below = v.leq(w);
    let above = w.leq(v);
    if below && above {
        Some(core::cmp::Ordering::Equal)
    } else if below {
        Some(core::cmp::Ordering::Less)
    } else if above {
        Some(core::cmp::Ordering::Greater)
    } else {
        None
    }
}

/// The opposite of a three-way comparison outcome: the two strict
/// orderings swap, equality and absence stay.
pub open spec fn flipped(o: Option<core::cmp::Ordering>) -> Option<core::cmp::Ordering> {
    match o {
        Some(core::cmp::Ordering::Less) => Some(core::cmp::Ordering::Greater),
        Some(core::cmp::Ordering::Greater) => Some(core::cmp::Ordering::Less),
        _ => o,
    }
}

/// Law: comparing a wrapped value against a raw value and comparing the
/// raw value against the wrapped one agree in both directions — the
/// equality tests coincide, and the three-way comparisons are opposites.
pub proof fn lemma_comparison_symmetry<T: UnitBound>(x: UnitInterval<T>, v: T)
    ensures
        x.spec_equals_value(v) == spec_value_equals(v, x),
        x.spec_compare_value(v) == flipped(spec_value_compare(v, x)),
{
}

impl<T: UnitSub> UnitInterval<T> {
    /// The complement of `x` is `one - x`. The result needs no re-check:
    /// subtraction from one is proved to keep the value in the interval.
    pub fn complement(self) -> (r: Self)
        ensures
            r@ == self@.spec_one_minus(),
    {
        proof {
            use_type_invariant(&self);
        }
        let opposite = self.0.one_minus();
        proof {
            self.0.one_minus_in_unit();
        }
        UnitInterval(opposite)
    }
}

impl<T: UnitMul> UnitInterval<T> {
    /// The product of two unit-interval values. The result needs no
    /// re-check: the unit interval is proved closed under
    /// multiplication.
    pub fn multiply(self, rhs: Self) -> (r: Self)
        ensures
            r@ == self@.spec_times(rhs@),
    {
        proof {
            use_type_invariant(&self);
            use_type_invariant(&rhs);
        }
        let product = self.0.times(rhs.0);
        proof {
            self.0.times_in_unit(rhs.0);
        }
        UnitInterval(product)
    }
}

/// Law: taking the complement twice returns the original value, and the
/// complement swaps the two endpoints exactly — the complement of zero
/// is one and the complement of one is zero.
pub proof fn lemma_complement_involution<T: UnitSub>(x: UnitInterval<T>)
    requires
        in_unit(x@),
    ensures
        x@.spec_one_minus().spec_one_minus() == x@,
        T::spec_zero().spec_one_minus() == T::spec_one(),
        T::spec_one().spec_one_minus() == T::spec_zero(),
{
    x@.one_minus_involution();
    T::one_minus_identities();
}

/// Law: the unit interval is closed under multiplication — the product
/// of two valid values is itself a valid unit-interval value, so a
/// validator re-checking the product always accepts it.
pub proof fn lemma_multiply_closed<T: UnitMul>(a: UnitInterval<T>, b: UnitInterval<T>)
    requires
        in_unit(a@),
        in_unit(b@),
    ensures
        in_unit(a@.spec_times(b@)),
{
    a@.times_in_unit(b@);
}

impl<T: UnitBound> Default for UnitInterval<T> {
    /// The default unit-interval value is zero.
    fn default() -> (r: Self)
        ensures
            r@ == T::spec_zero(),
    {
        proof {
            T::zero_one_in_unit();
        }
        UnitInterval(T::zero())
    }
}

/// How many fixed-point steps make up the value one: `Fixed` counts in
/// millionths.
pub const FIXED_ONE: i64 = 1_000_000;

/// An exact decimal fixed-point number with six fractional digits: the
/// wrapped integer counts millionths. Arithmetic on it is exact but for
/// the product, which truncates toward zero at the sixth fractional
/// digit.
#[derive(Debug, Clone, Copy, PartialEq, Eq, PartialOrd, Ord, Hash, Structural)]
pub struct Fixed(pub i64);

impl UnitBound for Fixed {
    open spec fn spec_zero() -> Fixed {
        Fixed(0)
    }

    open spec fn spec_one() -> Fixed {
        Fixed(FIXED_ONE)
    }

    open spec fn spec_le(self, other: Self) -> bool {
        self.0 <= other.0
    }

    proof fn zero_one_in_unit() {
    }

    fn zero() -> (r: Self) {
        Fixed(0)
    }

    fn one() -> (r: Self) {
        Fixed(FIXED_ONE)
    }

    fn leq(self, other: Self) -> (r: bool) {
        self.0 <= other.0
    }
}

impl UnitSub for Fixed {
    open spec fn spec_one_minus(self) -> Fixed {
        Fixed((FIXED_ONE - self.0) as i64)
    }

    fn one_minus(self) -> (r: Self) {
        Fixed(FIXED_ONE - self.0)
    }

    proof fn one_minus_in_unit(self) {
    }

    proof fn one_minus_involution(self) {
    }

    proof fn one_minus_identities() {
    }
}

impl UnitMul for Fixed {
    open spec fn spec_times(self, other: Self) -> Fixed {
        Fixed(((self.0 * other.0) / (FIXED_ONE as int)) as i64)
    }

    fn times(self, other: Self) -> (r: Self) {
        let a: u64 = self.0 as u64;
        let b: u64 = other.0 as u64;
        proof {
            assert(a * b <= 1_000_000_000_000) by (nonlinear_arith)
                requires
                    a <= 1_000_000,
                    b <= 1_000_000,
            ;
        }
        let q: u64 = (a * b) / 1_000_000;
        Fixed(q as i64)
    }

    proof fn times_in_unit(self, other: Self) {
        assert(self.0 * other.0 <= 1_000_000_000_000 && 0 <= self.0 * other.0)
            by (nonlinear_arith)
            requires
                0 <= self.0 <= 1_000_000,
                0 <= other.0 <= 1_000_000,
        ;
    }
}

} // verus!
