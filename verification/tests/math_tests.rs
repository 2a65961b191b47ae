use asset_tokens::env::Timestamp;
use asset_tokens::keys::{compare_keys, KeyOrder};
use asset_tokens::math::{amount_to_text, Decimal, DECIMAL_FRACTIONAL};

fn whole(units: u128) -> Decimal {
    Decimal::raw(units * DECIMAL_FRACTIONAL)
}

#[test]
fn decimal_constructors() {
    assert_eq!(Decimal::zero().atomics, 0);
    assert_eq!(Decimal::one().atomics, 1_000_000_000_000_000_000);
    assert_eq!(Decimal::raw(7).atomics, 7);
    assert_eq!(Decimal::one().atomics, cosmwasm_std::Decimal::one().atomics().u128());
}

#[test]
fn decimal_sum_and_difference_are_exact() {
    assert_eq!(whole(500).checked_add(whole(1000)), Some(whole(1500)));
    assert_eq!(whole(100_000).checked_sub(whole(1000)), Some(whole(99_000)));
    assert_eq!(Decimal::raw(7).checked_sub(Decimal::raw(7)), Some(Decimal::zero()));
}

#[test]
fn decimal_sum_out_of_range_is_none() {
    assert_eq!(Decimal::raw(u128::MAX).checked_add(Decimal::raw(1)), None);
    assert_eq!(Decimal::raw(u128::MAX).checked_add(Decimal::raw(0)), Some(Decimal::raw(u128::MAX)));
}

#[test]
fn decimal_difference_below_zero_is_none() {
    assert_eq!(Decimal::raw(5).checked_sub(Decimal::raw(6)), None);
}

#[test]
fn decimal_product_rounds_down() {
    let one_and_a_half = Decimal::raw(1_500_000_000_000_000_000);
    assert_eq!(one_and_a_half.checked_mul(whole(2)), Some(whole(3)));
    assert_eq!(Decimal::raw(1).checked_mul(Decimal::raw(1)), Some(Decimal::zero()));
    assert_eq!(
        Decimal::raw(333_333_333_333_333_333).checked_mul(Decimal::raw(333_333_333_333_333_333)),
        Some(Decimal::raw(111_111_111_111_111_110))
    );
}

#[test]
fn decimal_product_out_of_range_is_none() {
    assert_eq!(Decimal::raw(u128::MAX).checked_mul(whole(2)), None);
    assert_eq!(Decimal::raw(u128::MAX).checked_mul(whole(1)), Some(Decimal::raw(u128::MAX)));
}

#[test]
fn decimal_product_agrees_with_cosmwasm() {
    let a = 123_456_789_012_345_678_901u128;
    let b = 987_654_321_098_765_432u128;
    let expected = cosmwasm_std::Decimal::raw(a) * cosmwasm_std::Decimal::raw(b);
    assert_eq!(Decimal::raw(a).checked_mul(Decimal::raw(b)), Some(Decimal::raw(expected.atomics().u128())));
}

#[test]
fn decimal_times_units_is_exact() {
    assert_eq!(whole(100).checked_mul_units(400), Some(whole(40_000)));
    assert_eq!(Decimal::raw(1).checked_mul_units(3), Some(Decimal::raw(3)));
    assert_eq!(Decimal::raw(u128::MAX).checked_mul_units(2), None);
    assert_eq!(Decimal::raw(5).checked_mul_units(0), Some(Decimal::zero()));
}

#[test]
fn ratio_rounds_down() {
    assert_eq!(Decimal::checked_from_ratio(1, 3), Some(Decimal::raw(333_333_333_333_333_333)));
    assert_eq!(Decimal::checked_from_ratio(30, 365), Some(Decimal::raw(82_191_780_821_917_808)));
    assert_eq!(Decimal::checked_from_ratio(30, 360), Some(Decimal::raw(83_333_333_333_333_333)));
    assert_eq!(Decimal::checked_from_ratio(365, 365), Some(Decimal::one()));
}

#[test]
fn ratio_with_zero_denominator_is_none() {
    assert_eq!(Decimal::checked_from_ratio(1, 0), None);
}

#[test]
fn ratio_out_of_range_is_none() {
    assert_eq!(Decimal::checked_from_ratio(u128::MAX, 1), None);
}

#[test]
fn amount_times_decimal_rounds_down() {
    let half = Decimal::raw(500_000_000_000_000_000);
    assert_eq!(half.checked_mul_floor(7), Some(3));
    assert_eq!(whole(2).checked_mul_floor(600), Some(1200));
    assert_eq!(Decimal::zero().checked_mul_floor(600), Some(0));
    assert_eq!(whole(2).checked_mul_floor(u128::MAX), None);
    assert_eq!(Decimal::raw(u128::MAX).checked_mul_floor(u128::MAX), None);
}

#[test]
fn decimal_text_is_decimal_notation() {
    assert_eq!(whole(1500).to_text(), "1500");
    assert_eq!(Decimal::raw(1_500_000_000_000_000_000).to_text(), "1.5");
    assert_eq!(Decimal::raw(50_000_000_000_000_000).to_text(), "0.05");
    assert_eq!(Decimal::zero().to_text(), "0");
    assert_eq!(Decimal::raw(1).to_text(), "0.000000000000000001");
}

#[test]
fn amount_text_is_decimal_notation() {
    assert_eq!(amount_to_text(400), "400");
    assert_eq!(amount_to_text(250), "250");
    assert_eq!(amount_to_text(0), "0");
    assert_eq!(amount_to_text(9), "9");
    assert_eq!(amount_to_text(10), "10");
    assert_eq!(amount_to_text(1_000_000), "1000000");
    assert_eq!(amount_to_text(1_234_567_890), "1234567890");
    assert_eq!(amount_to_text(u128::MAX), "340282366920938463463374607431768211455");
}

#[test]
fn timestamp_seconds_drop_the_fraction() {
    let t = Timestamp::from_nanos(1_000_000_202);
    assert_eq!(t.nanos(), 1_000_000_202);
    assert_eq!(t.seconds(), 1);
    assert_eq!(t.seconds(), cosmwasm_std::Timestamp::from_nanos(1_000_000_202).seconds());
    assert_eq!(Timestamp::from_nanos(999_999_999).seconds(), 0);
}

#[test]
fn timestamp_from_seconds() {
    assert_eq!(Timestamp::from_seconds(3), Some(Timestamp::from_nanos(3_000_000_000)));
    assert_eq!(Timestamp::from_seconds(18_446_744_073), Some(Timestamp::from_nanos(18_446_744_073_000_000_000)));
    assert_eq!(Timestamp::from_seconds(18_446_744_074), None);
}

#[test]
fn keys_are_ordered_byte_by_byte() {
    let a = "a".to_string();
    let ab = "ab".to_string();
    let b = "b".to_string();
    let empty = String::new();
    assert_eq!(compare_keys(&a, &b), KeyOrder::Before);
    assert_eq!(compare_keys(&b, &a), KeyOrder::After);
    assert_eq!(compare_keys(&a, &a), KeyOrder::Same);
    assert_eq!(compare_keys(&a, &ab), KeyOrder::Before);
    assert_eq!(compare_keys(&ab, &b), KeyOrder::Before);
    assert_eq!(compare_keys(&empty, &a), KeyOrder::Before);
    assert_eq!(compare_keys(&empty, &empty), KeyOrder::Same);
}

#[test]
fn keys_order_agrees_with_string_order() {
    let samples = vec!["", "a", "A", "ab", "b", "pay-10", "pay-2", "z", "\u{e9}", "\u{4e2d}", "zz"];
    for x in samples.iter() {
        for y in samples.iter() {
            let expected = if x < y {
                KeyOrder::Before
            } else if x == y {
                KeyOrder::Same
            } else {
                KeyOrder::After
            };
            assert_eq!(compare_keys(&x.to_string(), &y.to_string()), expected);
        }
    }
}
