use dexchain::constants::{
    deposit, PRIMARY_PROBABILITY, target_block_fullness, Perbill, WeightToFee,
    WeightToFeeCoefficient, CENTS, DAYS, DOLLARS, EPOCH_DURATION_IN_BLOCKS, HOURS, MICROCENTS,
    MILLICENTS, MINUTES,
};

#[test]
fn currency_units() {
    assert_eq!(DOLLARS, 1_000_000_000_000_000_000);
    assert_eq!(CENTS, 10_000_000_000_000_000);
    assert_eq!(MILLICENTS, 10_000_000_000_000);
    assert_eq!(MICROCENTS, 10_000_000_000);
}

#[test]
fn deposit_values() {
    assert_eq!(deposit(0, 0), 0);
    assert_eq!(deposit(1, 0), 15 * CENTS);
    assert_eq!(deposit(1, 1), 21 * CENTS);
    assert_eq!(deposit(2, 10), 90 * CENTS);
    assert_eq!(deposit(u32::MAX, u32::MAX), u32::MAX as u128 * 21 * CENTS);
}

#[test]
fn time_units() {
    assert_eq!(MINUTES, 10);
    assert_eq!(HOURS, 600);
    assert_eq!(DAYS, 14_400);
    assert_eq!(EPOCH_DURATION_IN_BLOCKS, 600);
    assert_eq!(PRIMARY_PROBABILITY, (1, 4));
}

#[test]
fn perbill_values() {
    assert_eq!(target_block_fullness(), Perbill { parts: 250_000_000 });
    assert_eq!(Perbill::from_percent(150).parts, 1_000_000_000);
    assert_eq!(Perbill::from_rational(1, 3).parts, 333_333_333);
    assert_eq!(Perbill::from_rational(1, 0).parts, 1_000_000_000);
    assert_eq!(Perbill::from_rational(5, 4).parts, 1_000_000_000);
}

#[test]
fn weight_to_fee_polynomial() {
    let p = WeightToFee::polynomial(125_000_000);
    assert_eq!(
        p,
        vec![WeightToFeeCoefficient {
            coeff_integer: 8_000_000,
            coeff_frac: Perbill { parts: 0 },
            negative: false,
            degree: 1,
        }]
    );
    let p = WeightToFee::polynomial(3);
    assert_eq!(p[0].coeff_integer, 333_333_333_333_333);
    assert_eq!(p[0].coeff_frac, Perbill { parts: 333_333_333 });
}
