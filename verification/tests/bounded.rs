use pokerus_core::num::BoundedPercentage;
use pokerus_core::num::Constu8InclusiveRange;
use pokerus_core::num::FullScale;
use pokerus_core::num::IntoPercentage;
use pokerus_core::num::Percentage;
use pokerus_core::scalar::Hundredths;
use pokerus_core::scalar::Ratio;
use std::cmp::Ordering;

#[test]
fn ranged_accepts_exactly_its_interval() {
    for value in 0..=u8::MAX {
        let ranged = Constu8InclusiveRange::<10, 20>::try_new(value);
        assert_eq!(ranged.is_some(), (10..=20).contains(&value));
        if let Some(ranged) = ranged {
            assert_eq!(ranged.get(), value);
        }
    }
}

#[test]
fn ranged_accepts_both_ends() {
    assert_eq!(Constu8InclusiveRange::<1, 100>::new(1).get(), 1);
    assert_eq!(Constu8InclusiveRange::<1, 100>::new(100).get(), 100);
    assert!(Constu8InclusiveRange::<1, 100>::try_new(0).is_none());
    assert!(Constu8InclusiveRange::<1, 100>::try_new(101).is_none());
}

#[test]
fn ranged_rejects_a_range_that_is_empty_or_reversed() {
    for value in 0..=u8::MAX {
        assert!(Constu8InclusiveRange::<5, 5>::try_new(value).is_none());
        assert!(Constu8InclusiveRange::<9, 3>::try_new(value).is_none());
    }
}

#[test]
fn ranged_takes_the_whole_byte_range() {
    for value in 0..=u8::MAX {
        assert_eq!(Constu8InclusiveRange::<0, 255>::new(value).get(), value);
    }
}

#[test]
fn ranged_boundary_queries_at_the_lower_end() {
    let lowest = Constu8InclusiveRange::<1, 100>::new(1);
    assert!(!lowest.is_bounded_below_exclusive());
    assert!(lowest.is_bounded_below_inclusive());
    assert!(lowest.is_bounded_above_exclusive());
    assert!(lowest.is_bounded_above_inclusive());
}

#[test]
fn ranged_boundary_queries_at_the_upper_end() {
    let highest = Constu8InclusiveRange::<1, 100>::new(100);
    assert!(highest.is_bounded_below_exclusive());
    assert!(highest.is_bounded_below_inclusive());
    assert!(!highest.is_bounded_above_exclusive());
    assert!(highest.is_bounded_above_inclusive());
}

#[test]
fn ranged_boundary_queries_inside() {
    let middle = Constu8InclusiveRange::<1, 100>::new(50);
    assert!(middle.is_bounded_below_exclusive());
    assert!(middle.is_bounded_below_inclusive());
    assert!(middle.is_bounded_above_exclusive());
    assert!(middle.is_bounded_above_inclusive());
}

#[test]
fn ranged_addition_is_checked_against_the_upper_end() {
    let sixty = Constu8InclusiveRange::<1, 100>::new(60);
    let forty = Constu8InclusiveRange::<1, 100>::new(40);
    let forty_one = Constu8InclusiveRange::<1, 100>::new(41);
    assert_eq!((sixty + forty).map(|sum| sum.get()), Some(100));
    assert!((sixty + forty_one).is_none());
    assert!((sixty + sixty).is_none());
}

#[test]
fn ranged_addition_past_the_byte_gives_nothing() {
    let large = Constu8InclusiveRange::<0, 255>::new(200);
    let small = Constu8InclusiveRange::<0, 255>::new(55);
    let more = Constu8InclusiveRange::<0, 255>::new(56);
    assert_eq!((large + small).map(|sum| sum.get()), Some(255));
    assert!((large + more).is_none());
    assert!((large + large).is_none());
}

#[test]
fn ranged_subtraction_is_checked_against_the_lower_end() {
    let sixty = Constu8InclusiveRange::<10, 100>::new(60);
    let fifty = Constu8InclusiveRange::<10, 100>::new(50);
    let fifty_one = Constu8InclusiveRange::<10, 100>::new(51);
    assert_eq!((sixty - fifty).map(|difference| difference.get()), Some(10));
    assert!((sixty - fifty_one).is_none());
    assert!((fifty - sixty).is_none());
    assert!((sixty - sixty).is_none());
}

#[test]
fn percentage_hands_its_scalar_back() {
    assert_eq!(Percentage(7u8).into_inner(), 7);
    assert_eq!(Percentage(Hundredths(250)).copy_inner(), Hundredths(250));
    let ratio = Percentage(Ratio { numerator: 3, denominator: 4 }).into_inner();
    assert_eq!((ratio.numerator, ratio.denominator), (3, 4));
}

#[test]
fn into_percentage_wraps_the_scalar() {
    assert_eq!(9u8.into_percentage().into_inner(), 9);
    assert_eq!(Hundredths(50).into_percentage(), Percentage(Hundredths(50)));
    assert_eq!((&Hundredths(-5)).into_percentage(), Percentage(Hundredths(-5)));
}

#[test]
fn every_byte_can_be_bounded() {
    for value in 0..=u8::MAX {
        let bounded = Percentage(value).bound();
        assert!(bounded.is_some());
        assert_eq!(*bounded.unwrap().get(), value);
        assert!(value.is_bounded());
    }
}

#[test]
fn hundredths_are_bounded_from_zero_to_one_hundred() {
    for count in -300..=300 {
        let value = Hundredths(count);
        let expected = (0..=100).contains(&count);
        assert_eq!(value.is_bounded(), expected);
        assert_eq!(Percentage(value).bound().is_some(), expected);
        assert_eq!(BoundedPercentage::from_full_scale(value).is_some(), expected);
        assert_eq!(value.into_bounded_percentage().is_some(), expected);
    }
    assert!(Hundredths(i32::MIN).into_bounded_percentage().is_none());
    assert!(Hundredths(i32::MAX).into_bounded_percentage().is_none());
}

#[test]
fn a_bounded_percentage_keeps_its_value() {
    let half = Hundredths(50).into_bounded_percentage().unwrap();
    assert_eq!(*half.get(), Hundredths(50));
    let full = BoundedPercentage::from_full_scale(255u8).unwrap();
    assert_eq!(*full.get(), 255);
}

#[test]
fn ratios_are_bounded_up_to_their_denominator() {
    for numerator in 0..=12u32 {
        for denominator in 0..=12u32 {
            let ratio = Ratio { numerator, denominator };
            let expected = denominator != 0 && numerator <= denominator;
            assert_eq!(ratio.is_bounded(), expected);
            assert_eq!(ratio.into_bounded_percentage().is_some(), expected);
        }
    }
    let widest = Ratio { numerator: u32::MAX, denominator: u32::MAX };
    assert!(widest.is_bounded());
    let beyond = Ratio { numerator: u32::MAX, denominator: u32::MAX - 1 };
    assert!(!beyond.is_bounded());
}

#[test]
fn ratios_compare_by_their_value() {
    let half = Ratio { numerator: 1, denominator: 2 };
    let two_quarters = Ratio { numerator: 2, denominator: 4 };
    let two_thirds = Ratio { numerator: 2, denominator: 3 };
    assert!(half == two_quarters);
    assert!(half != two_thirds);
    assert_eq!(half.partial_cmp(&two_quarters), Some(Ordering::Equal));
    assert_eq!(half.partial_cmp(&two_thirds), Some(Ordering::Less));
    assert_eq!(two_thirds.partial_cmp(&half), Some(Ordering::Greater));
    assert!(half < two_thirds);
}

#[test]
fn a_ratio_over_zero_compares_with_nothing() {
    let undefined = Ratio { numerator: 1, denominator: 0 };
    let half = Ratio { numerator: 1, denominator: 2 };
    assert!(undefined != undefined);
    assert_eq!(undefined.partial_cmp(&half), None);
    assert_eq!(half.partial_cmp(&undefined), None);
    assert_eq!(undefined.origin_cmp(), None);
    assert_eq!(undefined.unity_cmp(), None);
}

#[test]
fn scales_have_their_ends() {
    assert_eq!(*7u8.origin(), 0);
    assert_eq!(*7u8.unity(), 255);
    assert_eq!(*Hundredths(7).origin(), Hundredths(0));
    assert_eq!(*Hundredths(7).unity(), Hundredths(100));
    let ratio = Ratio { numerator: 3, denominator: 4 };
    assert!(*ratio.origin() == Ratio { numerator: 0, denominator: 9 });
    assert!(*ratio.unity() == Ratio { numerator: 9, denominator: 9 });
}

#[test]
fn a_scalar_is_compared_with_both_ends() {
    assert_eq!(0u8.origin_cmp(), Some(Ordering::Equal));
    assert_eq!(1u8.origin_cmp(), Some(Ordering::Greater));
    assert_eq!(254u8.unity_cmp(), Some(Ordering::Less));
    assert_eq!(255u8.unity_cmp(), Some(Ordering::Equal));
    assert_eq!(Hundredths(-1).origin_cmp(), Some(Ordering::Less));
    assert_eq!(Hundredths(101).unity_cmp(), Some(Ordering::Greater));
    assert_eq!(Hundredths(100).unity_cmp(), Some(Ordering::Equal));
}

#[test]
fn negative_unity_of_hundredths() {
    assert_eq!(Hundredths(30).negative_unity(), Hundredths(-100));
    assert_eq!(-&Hundredths(25), Hundredths(-25));
}

#[test]
fn hundredths_are_ordered_by_their_count() {
    assert!(Hundredths(50) < Hundredths(100));
    assert!(Hundredths(-1) < Hundredths(0));
    assert!(Hundredths(200) > Hundredths(100));
    assert_eq!(Hundredths(5).partial_cmp(&Hundredths(5)), Some(Ordering::Equal));
    assert!(Hundredths(5) != Hundredths(6));
}

#[test]
fn a_percentage_compares_with_a_raw_scalar() {
    assert!(Percentage(5u8) == 5u8);
    assert!(Percentage(5u8) != 6u8);
    assert!(Percentage(5u8) < 7u8);
    assert!(Percentage(9u8) > 7u8);
    assert_eq!(Percentage(Hundredths(50)).partial_cmp(&Hundredths(100)), Some(Ordering::Less));
}

#[test]
fn percentages_compare_with_each_other() {
    assert!(Percentage(Hundredths(50)) == Percentage(Hundredths(50)));
    assert!(Percentage(Hundredths(50)) != Percentage(Hundredths(100)));
    assert!(Percentage(Hundredths(50)) < Percentage(Hundredths(100)));
    assert_eq!(Percentage(3u8).partial_cmp(&Percentage(2u8)), Some(Ordering::Greater));
}

#[test]
fn a_bounded_percentage_compares_with_a_raw_scalar() {
    let accuracy = BoundedPercentage::from_full_scale(128u8).unwrap();
    assert!(accuracy == 128u8);
    assert!(accuracy != 127u8);
    assert!(accuracy > 127u8);
    assert!(accuracy <= 128u8);
    assert!(accuracy < 129u8);
    assert_eq!(accuracy.partial_cmp(&200u8), Some(Ordering::Less));
}

#[test]
fn a_copied_percentage_equals_the_first() {
    let first = Percentage(Hundredths(75));
    let second = first.clone();
    assert_eq!(first, second);
    let bounded = BoundedPercentage::from_full_scale(9u8).unwrap();
    let copied = bounded.clone();
    assert_eq!(*copied.get(), *bounded.get());
}

#[test]
fn percentages_of_hundredths_add_up() {
    assert_eq!(Percentage(Hundredths(50)) + Percentage(Hundredths(50)), Percentage(Hundredths(100)));
    assert_eq!(Percentage(Hundredths(50)) + &Percentage(Hundredths(200)), Percentage(Hundredths(250)));
    assert_eq!(Percentage(Hundredths(-30)) + Percentage(Hundredths(10)), Percentage(Hundredths(-20)));
}

#[test]
fn percentages_of_hundredths_multiply() {
    assert_eq!(
        Percentage(Hundredths(200)) * Percentage(Hundredths(100)),
        Percentage(Hundredths(200))
    );
    assert_eq!(
        Percentage(Hundredths(200)) * Percentage(Hundredths(150)),
        Percentage(Hundredths(300))
    );
    assert_eq!(Percentage(Hundredths(50)) * &Percentage(Hundredths(50)), Percentage(Hundredths(25)));
    assert_eq!(Percentage(Hundredths(0)) * Percentage(Hundredths(999)), Percentage(Hundredths(0)));
}

#[test]
fn a_product_of_hundredths_is_rounded_down() {
    assert_eq!(Percentage(Hundredths(33)) * Percentage(Hundredths(33)), Percentage(Hundredths(10)));
    assert_eq!(Percentage(Hundredths(-50)) * Percentage(Hundredths(50)), Percentage(Hundredths(-25)));
    assert_eq!(Percentage(Hundredths(-51)) * Percentage(Hundredths(50)), Percentage(Hundredths(-26)));
    assert_eq!(Percentage(Hundredths(-1)) * &Percentage(Hundredths(1)), Percentage(Hundredths(-1)));
    assert_eq!(Percentage(Hundredths(-10)) * Percentage(Hundredths(-10)), Percentage(Hundredths(1)));
}
