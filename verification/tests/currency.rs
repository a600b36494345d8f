use athenut_mint::cdk_wallet;
use athenut_mint::cln;
use athenut_mint::currency::{fee_to_rail_amount, msats_to_sats, ConversionError};

#[test]
fn cost_of_333_cents_at_60000_dollars() {
    assert_eq!(fee_to_rail_amount(333, 1, Some(60_000)), Ok(5_550_000));
    assert_eq!(cdk_wallet::cents_to_msats(333, 60_000), Ok(5_550_000));
    assert_eq!(cln::cents_to_msats(333, 60_000), Ok(5_550_000));
}

#[test]
fn fractional_amounts_round_up_to_a_whole_satoshi() {
    assert_eq!(fee_to_rail_amount(1, 1, Some(3)), Ok(333_334_000));
    assert_eq!(fee_to_rail_amount(3, 1, Some(97_000)), Ok(31_000));
    assert_eq!(fee_to_rail_amount(150, 1, Some(43_210)), Ok(3_472_000));
}

#[test]
fn a_fraction_above_a_whole_satoshi_is_not_dropped() {
    // One cent at 1001 dollars is 999000.999 millisatoshis.
    assert_eq!(fee_to_rail_amount(1, 1, Some(1001)), Ok(1_000_000));
    assert_eq!(cdk_wallet::cents_to_msats(1, 1001), Ok(1_000_000));
}

#[test]
fn quantity_times_unit_price_is_the_cost() {
    assert_eq!(fee_to_rail_amount(111, 3, Some(60_000)), Ok(5_550_000));
    assert_eq!(fee_to_rail_amount(0, 3, Some(60_000)), Ok(0));
}

#[test]
fn invoice_never_undercharges_and_overcharges_less_than_a_satoshi() {
    let prices: [u64; 6] = [1, 3, 1001, 43_210, 60_000, 1_000_000];
    let costs: [u64; 7] = [0, 1, 2, 7, 333, 99_999, 12_345_678];
    for price in prices {
        for cents in costs {
            let amount = fee_to_rail_amount(cents, 1, Some(price)).unwrap() as u128;
            let price_cents = price as u128 * 100;
            let cost = cents as u128 * 100_000_000_000;
            assert_eq!(amount % 1000, 0);
            assert!(amount * price_cents >= cost);
            assert!(amount == 0 && cost == 0 || (amount - 1000) * price_cents < cost);
        }
    }
}

#[test]
fn missing_and_zero_price_are_refused() {
    assert_eq!(fee_to_rail_amount(1, 1, Some(0)), Err(ConversionError::MissingPrice));
    assert_eq!(fee_to_rail_amount(1, 1, None), Err(ConversionError::MissingPrice));
    assert_eq!(
        cln::cents_to_msats(5, 0),
        Err(cln::Error::Conversion(ConversionError::MissingPrice))
    );
    assert_eq!(cdk_wallet::cents_to_msats(5, 0), Err(ConversionError::MissingPrice));
    assert_eq!(cdk_wallet::cents_to_msats(u64::MAX, 1), Err(ConversionError::Overflow));
}

#[test]
fn amounts_beyond_64_bits_are_refused() {
    assert_eq!(fee_to_rail_amount(18_446_744_073, 1, Some(1)), Ok(18_446_744_073_000_000_000));
    assert_eq!(fee_to_rail_amount(18_446_744_074, 1, Some(1)), Err(ConversionError::Overflow));
    assert_eq!(fee_to_rail_amount(u64::MAX, 2, Some(u64::MAX)), Err(ConversionError::Overflow));
    assert_eq!(
        cln::cents_to_msats(u64::MAX, 1),
        Err(cln::Error::Conversion(ConversionError::Overflow))
    );
}

#[test]
fn largest_price_does_not_overflow() {
    assert_eq!(fee_to_rail_amount(1, 1, Some(u64::MAX)), Ok(1000));
    assert_eq!(fee_to_rail_amount(0, 1, Some(u64::MAX)), Ok(0));
}

#[test]
fn whole_satoshis_drop_the_remainder() {
    assert_eq!(msats_to_sats(5_550_999), 5_550);
    assert_eq!(msats_to_sats(999), 0);
    assert_eq!(msats_to_sats(1000), 1);
}
