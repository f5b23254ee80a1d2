//! The scalars that percentages are counted in besides bytes: hundredths for
//! multipliers, and ratios of two counts for parts of a whole.
use crate::num::lies_between;
use crate::num::FullScale;
use crate::num::IntoPercentage;
use crate::num::Percentage;
use std::cmp::Ordering;
use vstd::prelude::*;

verus! {

/// A signed fixed-point scalar counted in hundredths: `Hundredths(150)` is 1.5.
/// Its full scale runs from 0 to 100 hundredths.
#[derive(Clone, Copy, Debug)]
pub struct Hundredths(pub i32);

impl View for Hundredths {
    type V = int;

    open spec fn view(&self) -> int {
        self.0 as int
    }
}

impl PartialEq for Hundredths {
    fn eq(&self, other: &Hundredths) -> (equal: bool) {
        self.0 == other.0
    }
}

impl Eq for Hundredths {

}

impl vstd::std_specs::cmp::PartialEqSpecImpl for Hundredths {
    open spec fn obeys_eq_spec() -> bool {
        true
    }

    open spec fn eq_spec(&self, other: &Hundredths) -> bool {
        self.0 == other.0
    }
}

impl PartialOrd for Hundredths {
    fn partial_cmp(&self, other: &Hundredths) -> (ordering: Option<Ordering>) {
        if self.0 < other.0 {
            Some(Ordering::Less)
        } else if self.0 == other.0 {
            Some(Ordering::Equal)
        } else {
            Some(Ordering::Greater)
        }
    }
}

impl vstd::std_specs::cmp::PartialOrdSpecImpl for Hundredths {
    open spec fn obeys_partial_cmp_spec() -> bool {
        true
    }

    open spec fn partial_cmp_spec(&self, other: &Hundredths) -> Option<Ordering> {
        if self.0 < other.0 {
            Some(Ordering::Less)
        } else if self.0 == other.0 {
            Some(Ordering::Equal)
        } else {
            Some(Ordering::Greater)
        }
    }
}

impl std::ops::Neg for &Hundredths {
    type Output = Hundredths;

    fn neg(self) -> (negated: Hundredths) {
        Hundredths(-self.0)
    }
}

impl vstd::std_specs::ops::NegSpecImpl for &Hundredths {
    open spec fn obeys_neg_spec() -> bool {
        true
    }

    open spec fn neg_req(self) -> bool {
        self.0 != i32::MIN
    }

    open spec fn neg_spec(self) -> Hundredths {
        Hundredths((-self.0) as i32)
    }
}

impl FullScale for Hundredths {
    open spec fn origin_spec(&self) -> Hundredths {
        Hundredths(0)
    }

    open spec fn unity_spec(&self) -> Hundredths {
        Hundredths(100)
    }

    fn origin(&self) -> &Hundredths {
        &Hundredths(0)
    }

    fn unity(&self) -> &Hundredths {
        &Hundredths(100)
    }
}

impl IntoPercentage<Hundredths> for Hundredths {
    open spec fn percentage_spec(self) -> Percentage<Hundredths> {
        Percentage(self)
    }

    fn into_percentage(self) -> Percentage<Hundredths> {
        Percentage(self)
    }
}

impl IntoPercentage<Hundredths> for &Hundredths {
    open spec fn percentage_spec(self) -> Percentage<Hundredths> {
        Percentage(*self)
    }

    fn into_percentage(self) -> Percentage<Hundredths> {
        Percentage(*self)
    }
}

/// A count of hundredths lies on its full scale exactly from 0 to 100.
pub proof fn lemma_hundredths_on_scale(value: Hundredths)
    ensures
        lies_between(value, value.origin_spec(), value.unity_spec()) <==> 0 <= value@ <= 100,
{
}

/// Every byte lies on the full scale of bytes.
pub proof fn lemma_byte_on_scale(value: u8)
    ensures
        lies_between(value, value.origin_spec(), value.unity_spec()),
{
}

impl std::ops::Add<Percentage<Hundredths>> for Percentage<Hundredths> {
    type Output = Percentage<Hundredths>;

    fn add(self, rhs: Percentage<Hundredths>) -> (sum: Percentage<Hundredths>) {
        Percentage(Hundredths(self.0.0 + rhs.0.0))
    }
}

impl vstd::std_specs::ops::AddSpecImpl<Percentage<Hundredths>> for Percentage<Hundredths> {
    open spec fn obeys_add_spec() -> bool {
        true
    }

    open spec fn add_req(self, rhs: Percentage<Hundredths>) -> bool {
        i32::MIN <= self.0.0 + rhs.0.0 <= i32::MAX
    }

    open spec fn add_spec(self, rhs: Percentage<Hundredths>) -> Percentage<Hundredths> {
        Percentage(Hundredths((self.0.0 + rhs.0.0) as i32))
    }
}

impl std::ops::Add<&Percentage<Hundredths>> for Percentage<Hundredths> {
    type Output = Percentage<Hundredths>;

    fn add(self, rhs: &Percentage<Hundredths>) -> (sum: Percentage<Hundredths>) {
        Percentage(Hundredths(self.0.0 + rhs.0.0))
    }
}

impl vstd::std_specs::ops::AddSpecImpl<&Percentage<Hundredths>> for Percentage<Hundredths> {
    open spec fn obeys_add_spec() -> bool {
        true
    }

    open spec fn add_req(self, rhs: &Percentage<Hundredths>) -> bool {
        i32::MIN <= self.0.0 + rhs.0.0 <= i32::MAX
    }

    open spec fn add_spec(self, rhs: &Percentage<Hundredths>) -> Percentage<Hundredths> {
        Percentage(Hundredths((self.0.0 + rhs.0.0) as i32))
    }
}

/// The product of two counts of hundredths, again in hundredths, rounded down.
pub open spec fn product_of_hundredths(left: int, right: int) -> int {
    (left * right) / 100
}

/// Computes `product_of_hundredths` in 64-bit arithmetic.
fn multiply_hundredths(left: i32, right: i32) -> (product: i32)
    requires
        i32::MIN <= product_of_hundredths(left as int, right as int) <= i32::MAX,
    ensures
        product == product_of_hundredths(left as int, right as int),
{
    let wide: i64 = (left as i64) * (right as i64);
    if wide >= 0 {
        (wide / 100) as i32
    } else {
        (-1 - (-1 - wide) / 100) as i32
    }
}

impl std::ops::Mul<Percentage<Hundredths>> for Percentage<Hundredths> {
    type Output = Percentage<Hundredths>;

    fn mul(self, rhs: Percentage<Hundredths>) -> (product: Percentage<Hundredths>) {
        Percentage(Hundredths(multiply_hundredths(self.0.0, rhs.0.0)))
    }
}

impl vstd::std_specs::ops::MulSpecImpl<Percentage<Hundredths>> for Percentage<Hundredths> {
    open spec fn obeys_mul_spec() -> bool {
        true
    }

    open spec fn mul_req(self, rhs: Percentage<Hundredths>) -> bool {
        i32::MIN <= product_of_hundredths(self.0.0 as int, rhs.0.0 as int) <= i32::MAX
    }

    open spec fn mul_spec(self, rhs: Percentage<Hundredths>) -> Percentage<Hundredths> {
        Percentage(Hundredths(product_of_hundredths(self.0.0 as int, rhs.0.0 as int) as i32))
    }
}

impl std::ops::Mul<&Percentage<Hundredths>> for Percentage<Hundredths> {
    type Output = Percentage<Hundredths>;

    fn mul(self, rhs: &Percentage<Hundredths>) -> (product: Percentage<Hundredths>) {
        Percentage(Hundredths(multiply_hundredths(self.0.0, rhs.0.0)))
    }
}

impl vstd::std_specs::ops::MulSpecImpl<&Percentage<Hundredths>> for Percentage<Hundredths> {
    open spec fn obeys_mul_spec() -> bool {
        true
    }

    open spec fn mul_req(self, rhs: &Percentage<Hundredths>) -> bool {
        i32::MIN <= product_of_hundredths(self.0.0 as int, rhs.0.0 as int) <= i32::MAX
    }

    open spec fn mul_spec(self, rhs: &Percentage<Hundredths>) -> Percentage<Hundredths> {
        Percentage(Hundredths(product_of_hundredths(self.0.0 as int, rhs.0.0 as int) as i32))
    }
}

/// A part of a whole, kept as the two counts: `Ratio { numerator: 3, denominator: 4 }`
/// is three quarters. A ratio over zero stands for no number and compares with nothing.
#[derive(Clone, Copy, Debug)]
pub struct Ratio {
    pub numerator: u32,
    pub denominator: u32,
}

/// The product of two 32-bit counts, which always fits 64 bits.
fn cross_product(left: u32, right: u32) -> (product: u64)
    ensures
        product == left * right,
{
    assert(left * right <= u32::MAX * u32::MAX) by (nonlinear_arith)
        requires
            0 <= left <= u32::MAX,
            0 <= right <= u32::MAX,
    ;
    (left as u64) * (right as u64)
}

impl PartialEq for Ratio {
    fn eq(&self, other: &Ratio) -> (equal: bool) {
        self.denominator != 0 && other.denominator != 0 && cross_product(
            self.numerator,
            other.denominator,
        ) == cross_product(other.numerator, self.denominator)
    }
}

impl vstd::std_specs::cmp::PartialEqSpecImpl for Ratio {
    open spec fn obeys_eq_spec() -> bool {
        true
    }

    open spec fn eq_spec(&self, other: &Ratio) -> bool {
        &&& self.denominator != 0
        &&& other.denominator != 0
        &&& self.numerator * other.denominator == other.numerator * self.denominator
    }
}

impl PartialOrd for Ratio {
    fn partial_cmp(&self, other: &Ratio) -> (ordering: Option<Ordering>) {
        if self.denominator == 0 || other.denominator == 0 {
            return None;
        }
        let left = cross_product(self.numerator, other.denominator);
        let right = cross_product(other.numerator, self.denominator);
        if left < right {
            Some(Ordering::Less)
        } else if left == right {
            Some(Ordering::Equal)
        } else {
            Some(Ordering::Greater)
        }
    }
}

impl vstd::std_specs::cmp::PartialOrdSpecImpl for Ratio {
    open spec fn obeys_partial_cmp_spec() -> bool {
        true
    }

    open spec fn partial_cmp_spec(&self, other: &Ratio) -> Option<Ordering> {
        if self.denominator == 0 || other.denominator == 0 {
            None
        } else if self.numerator * other.denominator < other.numerator * self.denominator {
            Some(Ordering::Less)
        } else if self.numerator * other.denominator == other.numerator * self.denominator {
            Some(Ordering::Equal)
        } else {
            Some(Ordering::Greater)
        }
    }
}

impl FullScale for Ratio {
    open spec fn origin_spec(&self) -> Ratio {
        Ratio { numerator: 0, denominator: 1 }
    }

    open spec fn unity_spec(&self) -> Ratio {
        Ratio { numerator: 1, denominator: 1 }
    }

    fn origin(&self) -> &Ratio {
        &Ratio { numerator: 0, denominator: 1 }
    }

    fn unity(&self) -> &Ratio {
        &Ratio { numerator: 1, denominator: 1 }
    }
}

impl IntoPercentage<Ratio> for Ratio {
    open spec fn percentage_spec(self) -> Percentage<Ratio> {
        Percentage(self)
    }

    fn into_percentage(self) -> Percentage<Ratio> {
        Percentage(self)
    }
}

/// A ratio lies on its full scale exactly where it is a number and its
/// numerator does not exceed its denominator.
pub proof fn lemma_ratio_on_scale(value: Ratio)
    ensures
        lies_between(value, value.origin_spec(), value.unity_spec()) <==> value.denominator != 0
            && value.numerator <= value.denominator,
{
}

} // verus!
