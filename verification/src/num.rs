//! Bounded numbers: percentages that can be held to the full scale of their
//! scalar, and bytes that stay within a range fixed in their type.
use std::cmp::Ordering;
use std::ops::Neg;
use vstd::prelude::*;
use vstd::std_specs::cmp::PartialEqSpec;
use vstd::std_specs::cmp::PartialOrdSpec;
use vstd::std_specs::ops::NegSpec;

verus! {

/// Whether `value` is comparable with both ends and lies between them, ends included.
pub open spec fn lies_between<T: PartialOrd>(value: T, origin: T, unity: T) -> bool {
    &&& value.partial_cmp_spec(&origin) matches Some(lower)
    &&& lower != Ordering::Less
    &&& value.partial_cmp_spec(&unity) matches Some(upper)
    &&& upper != Ordering::Greater
}

/// A scalar with a distinguished origin (0%) and unity (100%).
pub trait FullScale: Sized {
    /// The value that `origin` returns.
    spec fn origin_spec(&self) -> Self;

    /// The value that `unity` returns.
    spec fn unity_spec(&self) -> Self;

    /// The value that stands for 0%.
    fn origin(&self) -> (origin: &Self)
        ensures
            *origin == self.origin_spec(),
    ;

    /// How the value compares with the origin, if it does.
    fn origin_cmp(&self) -> (ordering: Option<Ordering>) where Self: PartialOrd
        ensures
            Self::obeys_partial_cmp_spec() ==> ordering == self.partial_cmp_spec(
                &self.origin_spec(),
            ),
    {
        self.partial_cmp(self.origin())
    }

    /// The value that stands for 100%.
    fn unity(&self) -> (unity: &Self)
        ensures
            *unity == self.unity_spec(),
    ;

    /// How the value compares with the unity, if it does.
    fn unity_cmp(&self) -> (ordering: Option<Ordering>) where Self: PartialOrd
        ensures
            Self::obeys_partial_cmp_spec() ==> ordering == self.partial_cmp_spec(
                &self.unity_spec(),
            ),
    {
        self.partial_cmp(self.unity())
    }

    /// Whether the value lies on the scale: not below the origin, not above the
    /// unity, and comparable with both.
    fn is_bounded(&self) -> (bounded: bool) where Self: PartialOrd
        ensures
            Self::obeys_partial_cmp_spec() ==> bounded == lies_between(
                *self,
                self.origin_spec(),
                self.unity_spec(),
            ),
    {
        let Some(lower) = self.origin_cmp() else {
            return false;
        };
        if matches!(lower, Ordering::Less) {
            return false;
        };
        let Some(upper) = self.unity_cmp() else {
            return false;
        };
        if matches!(upper, Ordering::Greater) {
            return false;
        };
        true
    }

    /// The value that stands for -100%, for scalars that can be negated.
    fn negative_unity<'a>(&'a self) -> (negated: <&'a Self as Neg>::Output) where &'a Self: Neg
        requires
            (&self.unity_spec()).neg_req(),
        ensures
            <&'a Self as NegSpec>::obeys_neg_spec() ==> negated == (&self.unity_spec()).neg_spec(),
    {
        self.unity().neg()
    }
}

impl FullScale for u8 {
    open spec fn origin_spec(&self) -> u8 {
        0
    }

    open spec fn unity_spec(&self) -> u8 {
        u8::MAX
    }

    fn origin(&self) -> &u8 {
        &0
    }

    fn unity(&self) -> &u8 {
        &u8::MAX
    }
}

/// A value measured against the full scale of its scalar, with no bound on it.
#[derive(Debug)]
pub struct Percentage<T>(pub T);

impl<T: Copy> Clone for Percentage<T> {
    fn clone(&self) -> (copy: Percentage<T>)
        ensures
            copy == *self,
    {
        *self
    }
}

impl<T: Copy> Copy for Percentage<T> {

}

impl<T: View> View for Percentage<T> {
    type V = T::V;

    open spec fn view(&self) -> T::V {
        self.0@
    }
}

impl<T> Percentage<T> {
    /// The scalar held, given up by the percentage.
    pub fn into_inner(self) -> (inner: T)
        ensures
            inner == self.0,
    {
        self.0
    }

    /// A copy of the scalar held.
    pub fn copy_inner(&self) -> (inner: T) where T: Copy
        ensures
            inner == self.0,
    {
        self.0
    }

    /// The same value as a bounded percentage, or `None` where it lies off the scale.
    pub fn bound(self) -> (bounded: Option<BoundedPercentage<T>>) where T: FullScale + PartialOrd
        ensures
            bounded matches Some(held) ==> held.inner() == self.0,
            T::obeys_partial_cmp_spec() ==> (bounded is Some <==> lies_between(
                self.0,
                self.0.origin_spec(),
                self.0.unity_spec(),
            )),
    {
        BoundedPercentage::from_full_scale(self.0)
    }
}

impl<T: PartialEq> PartialEq<T> for Percentage<T> {
    fn eq(&self, other: &T) -> (equal: bool) {
        self.0.eq(other)
    }
}

impl<T: PartialEq> vstd::std_specs::cmp::PartialEqSpecImpl<T> for Percentage<T> {
    open spec fn obeys_eq_spec() -> bool {
        T::obeys_eq_spec()
    }

    open spec fn eq_spec(&self, other: &T) -> bool {
        self.0.eq_spec(other)
    }
}

impl<T: PartialOrd> PartialOrd<T> for Percentage<T> {
    fn partial_cmp(&self, other: &T) -> (ordering: Option<Ordering>) {
        self.0.partial_cmp(other)
    }
}

impl<T: PartialOrd> vstd::std_specs::cmp::PartialOrdSpecImpl<T> for Percentage<T> {
    open spec fn obeys_partial_cmp_spec() -> bool {
        T::obeys_partial_cmp_spec()
    }

    open spec fn partial_cmp_spec(&self, other: &T) -> Option<Ordering> {
        self.0.partial_cmp_spec(other)
    }
}

impl<T: PartialEq> PartialEq for Percentage<T> {
    fn eq(&self, other: &Percentage<T>) -> (equal: bool) {
        self.0.eq(&other.0)
    }
}

impl<T: PartialEq> vstd::std_specs::cmp::PartialEqSpecImpl for Percentage<T> {
    open spec fn obeys_eq_spec() -> bool {
        T::obeys_eq_spec()
    }

    open spec fn eq_spec(&self, other: &Percentage<T>) -> bool {
        self.0.eq_spec(&other.0)
    }
}

impl<T: PartialOrd> PartialOrd for Percentage<T> {
    fn partial_cmp(&self, other: &Percentage<T>) -> (ordering: Option<Ordering>) {
        self.0.partial_cmp(&other.0)
    }
}

impl<T: PartialOrd> vstd::std_specs::cmp::PartialOrdSpecImpl for Percentage<T> {
    open spec fn obeys_partial_cmp_spec() -> bool {
        T::obeys_partial_cmp_spec()
    }

    open spec fn partial_cmp_spec(&self, other: &Percentage<T>) -> Option<Ordering> {
        self.0.partial_cmp_spec(&other.0)
    }
}

/// A percentage that lies between the origin and the unity of its scalar.
/// It is made once and never changed.
#[derive(Debug)]
pub struct BoundedPercentage<T: FullScale + PartialOrd>(T);

impl<T: FullScale + PartialOrd + Copy> Clone for BoundedPercentage<T> {
    fn clone(&self) -> (copy: BoundedPercentage<T>)
        ensures
            copy == *self,
    {
        *self
    }
}

impl<T: FullScale + PartialOrd + Copy> Copy for BoundedPercentage<T> {

}

impl<T: FullScale + PartialOrd + View> View for BoundedPercentage<T> {
    type V = T::V;

    open spec fn view(&self) -> T::V {
        self.inner()@
    }
}

impl<T: FullScale + PartialOrd> BoundedPercentage<T> {
    #[verifier::type_invariant]
    spec fn on_scale(self) -> bool {
        T::obeys_partial_cmp_spec() ==> lies_between(
            self.0,
            self.0.origin_spec(),
            self.0.unity_spec(),
        )
    }

    /// The scalar that the percentage holds.
    pub closed spec fn inner(self) -> T {
        self.0
    }

    /// The bounded percentage of `value`, or `None` where it lies off the scale.
    pub fn from_full_scale(value: T) -> (bounded: Option<BoundedPercentage<T>>)
        ensures
            bounded matches Some(held) ==> held.inner() == value,
            T::obeys_partial_cmp_spec() ==> (bounded is Some <==> lies_between(
                value,
                value.origin_spec(),
                value.unity_spec(),
            )),
    {
        if value.is_bounded() {
            Some(BoundedPercentage(value))
        } else {
            None
        }
    }

    /// The scalar held, which lies on the scale.
    pub fn get(&self) -> (value: &T)
        ensures
            *value == self.inner(),
            T::obeys_partial_cmp_spec() ==> lies_between(
                *value,
                value.origin_spec(),
                value.unity_spec(),
            ),
    {
        proof {
            use_type_invariant(self);
        }
        &self.0
    }
}

impl<T: FullScale + PartialOrd> PartialEq<T> for BoundedPercentage<T> {
    fn eq(&self, other: &T) -> (equal: bool) {
        self.0.eq(other)
    }
}

impl<T: FullScale + PartialOrd> vstd::std_specs::cmp::PartialEqSpecImpl<T> for BoundedPercentage<T> {
    open spec fn obeys_eq_spec() -> bool {
        T::obeys_eq_spec()
    }

    open spec fn eq_spec(&self, other: &T) -> bool {
        self.inner().eq_spec(other)
    }
}

impl<T: FullScale + PartialOrd> PartialOrd<T> for BoundedPercentage<T> {
    fn partial_cmp(&self, other: &T) -> (ordering: Option<Ordering>) {
        self.0.partial_cmp(other)
    }
}

impl<T: FullScale + PartialOrd> vstd::std_specs::cmp::PartialOrdSpecImpl<T> for BoundedPercentage<T> {
    open spec fn obeys_partial_cmp_spec() -> bool {
        T::obeys_partial_cmp_spec()
    }

    open spec fn partial_cmp_spec(&self, other: &T) -> Option<Ordering> {
        self.inner().partial_cmp_spec(other)
    }
}

/// Conversion of a scalar into a percentage of its own full scale.
pub trait IntoPercentage<T>: Sized {
    /// The percentage that `into_percentage` returns.
    spec fn percentage_spec(self) -> Percentage<T>;

    /// The scalar as a bounded percentage, or `None` where it lies off the scale.
    fn into_bounded_percentage(self) -> (bounded: Option<BoundedPercentage<T>>) where
        T: FullScale + PartialOrd,

        ensures
            bounded matches Some(held) ==> held.inner() == self.percentage_spec().0,
            T::obeys_partial_cmp_spec() ==> (bounded is Some <==> lies_between(
                self.percentage_spec().0,
                self.percentage_spec().0.origin_spec(),
                self.percentage_spec().0.unity_spec(),
            )),
    {
        self.into_percentage().bound()
    }

    /// The scalar as a percentage of its full scale.
    fn into_percentage(self) -> (percentage: Percentage<T>)
        ensures
            percentage == self.percentage_spec(),
    ;
}

impl IntoPercentage<u8> for u8 {
    open spec fn percentage_spec(self) -> Percentage<u8> {
        Percentage(self)
    }

    fn into_percentage(self) -> Percentage<u8> {
        Percentage(self)
    }
}

/// A byte that lies in the closed range from `A` to `B`.
#[derive(Clone, Copy, Debug)]
pub struct Constu8InclusiveRange<const A: u8, const B: u8>(u8);

impl<const A: u8, const B: u8> View for Constu8InclusiveRange<A, B> {
    type V = int;

    closed spec fn view(&self) -> int {
        self.0 as int
    }
}

impl<const A: u8, const B: u8> Constu8InclusiveRange<A, B> {
    #[verifier::type_invariant]
    spec fn in_range(self) -> bool {
        A < B && A <= self.0 <= B
    }

    /// Whether `value` can be held: the range is not empty and contains it.
    pub open spec fn accepts(value: int) -> bool {
        A < B && A <= value <= B
    }

    /// Holds `value`, which the range must accept.
    pub fn new(value: u8) -> (ranged: Self)
        requires
            Self::accepts(value as int),
        ensures
            ranged@ == value,
    {
        Constu8InclusiveRange(value)
    }

    /// The ranged value of `value`, or `None` where `new` would not take it.
    pub fn try_new(value: u8) -> (ranged: Option<Self>)
        ensures
            ranged is Some <==> Self::accepts(value as int),
            ranged matches Some(r) ==> r@ == value,
    {
        if A >= B || value < A || value > B {
            None
        } else {
            Some(Constu8InclusiveRange(value))
        }
    }

    /// The byte held.
    pub fn get(&self) -> (value: u8)
        ensures
            value == self@,
            Self::accepts(value as int),
    {
        proof {
            use_type_invariant(self);
        }
        self.0
    }

    /// Whether the byte lies above the lower end.
    pub fn is_bounded_below_exclusive(&self) -> (bounded: bool)
        ensures
            bounded == (self@ > A),
    {
        self.0 > A
    }

    /// Whether the byte lies at or above the lower end, which it always does.
    pub fn is_bounded_below_inclusive(&self) -> (bounded: bool)
        ensures
            bounded,
            self@ >= A,
    {
        proof {
            use_type_invariant(self);
        }
        self.0 >= A
    }

    /// Whether the byte lies below the upper end.
    pub fn is_bounded_above_exclusive(&self) -> (bounded: bool)
        ensures
            bounded == (self@ < B),
    {
        self.0 < B
    }

    /// Whether the byte lies at or below the upper end, which it always does.
    pub fn is_bounded_above_inclusive(&self) -> (bounded: bool)
        ensures
            bounded,
            self@ <= B,
    {
        proof {
            use_type_invariant(self);
        }
        self.0 <= B
    }
}

impl<const A: u8, const B: u8> std::ops::Add for Constu8InclusiveRange<A, B> {
    type Output = Option<Self>;

    /// The sum, or `None` where it passes the upper end.
    fn add(self, rhs: Self) -> (sum: Option<Self>)
        ensures
            sum is Some <==> self@ + rhs@ <= B,
            sum matches Some(s) ==> s@ == self@ + rhs@,
    {
        proof {
            use_type_invariant(&self);
            use_type_invariant(&rhs);
        }
        let value: u16 = self.0 as u16 + rhs.0 as u16;
        if value <= B as u16 {
            Some(Constu8InclusiveRange(value as u8))
        } else {
            None
        }
    }
}

impl<const A: u8, const B: u8> vstd::std_specs::ops::AddSpecImpl for Constu8InclusiveRange<A, B> {
    open spec fn obeys_add_spec() -> bool {
        true
    }

    open spec fn add_req(self, rhs: Self) -> bool {
        true
    }

    closed spec fn add_spec(self, rhs: Self) -> Option<Self> {
        if self.0 + rhs.0 <= B {
            Some(Constu8InclusiveRange((self.0 + rhs.0) as u8))
        } else {
            None
        }
    }
}

impl<const A: u8, const B: u8> std::ops::Sub for Constu8InclusiveRange<A, B> {
    type Output = Option<Self>;

    /// The difference, or `None` where it passes the lower end.
    fn sub(self, rhs: Self) -> (difference: Option<Self>)
        ensures
            difference is Some <==> self@ - rhs@ >= A,
            difference matches Some(d) ==> d@ == self@ - rhs@,
    {
        proof {
            use_type_invariant(&self);
            use_type_invariant(&rhs);
        }
        if self.0 >= rhs.0 && self.0 - rhs.0 >= A {
            Some(Constu8InclusiveRange(self.0 - rhs.0))
        } else {
            None
        }
    }
}

impl<const A: u8, const B: u8> vstd::std_specs::ops::SubSpecImpl for Constu8InclusiveRange<A, B> {
    open spec fn obeys_sub_spec() -> bool {
        true
    }

    open spec fn sub_req(self, rhs: Self) -> bool {
        true
    }

    closed spec fn sub_spec(self, rhs: Self) -> Option<Self> {
        if self.0 - rhs.0 >= A {
            Some(Constu8InclusiveRange((self.0 - rhs.0) as u8))
        } else {
            None
        }
    }
}

} // verus!
