//! Conversion between fiat cents, millisatoshis, satoshis and the settlement unit.
//!
//! Money that a payer is asked for is always rounded up, first to a whole
//! millisatoshi and then to a whole satoshi, so that an invoice never falls
//! short of the cost it stands for. Conversions that only feed the books
//! truncate.

use vstd::prelude::*;

verus! {

/// Millisatoshis in one bitcoin.
pub const MSATS_PER_BTC: u64 = 100_000_000_000;

/// Millisatoshis in one satoshi, the smallest amount an invoice is issued for.
pub const MSATS_PER_SAT: u64 = 1_000;

/// Cents in one dollar.
pub const CENTS_PER_DOLLAR: u64 = 100;

/// Why a conversion produced no amount.
#[derive(Clone, Copy, Debug, PartialEq, Eq, Structural)]
pub enum ConversionError {
    /// No reference price was supplied, or it was zero.
    MissingPrice,
    /// The cost in cents or the resulting amount does not fit in 64 bits.
    Overflow,
}

/// The least number of `step`-sized increments that cover `amount`.
pub open spec fn ceil_div(amount: nat, step: nat) -> nat
    recommends
        step > 0,
{
    if amount % step == 0 {
        amount / step
    } else {
        amount / step + 1
    }
}

/// The price of `cents` in millisatoshis when one bitcoin costs
/// `price_dollars`, rounded up to a whole millisatoshi.
pub open spec fn msats_covering(cents: nat, price_dollars: nat) -> nat {
    ceil_div(cents * (MSATS_PER_BTC as nat), price_dollars * (CENTS_PER_DOLLAR as nat))
}

/// The amount an invoice is issued for: `msats_covering` rounded up again to
/// a whole satoshi, expressed in millisatoshis.
pub open spec fn rail_amount(cents: nat, price_dollars: nat) -> nat {
    ceil_div(msats_covering(cents, price_dollars), MSATS_PER_SAT as nat) * (MSATS_PER_SAT as nat)
}

/// What `fee_to_rail_amount` returns.
pub open spec fn rail_amount_checked(
    quantity: nat,
    unit_price_cents: nat,
    price_dollars: Option<u64>,
) -> Result<u64, ConversionError> {
    match price_dollars {
        None => Err(ConversionError::MissingPrice),
        Some(price) => if price == 0 {
            Err(ConversionError::MissingPrice)
        } else if quantity * unit_price_cents > u64::MAX || rail_amount(
            quantity * unit_price_cents,
            price as nat,
        ) > u64::MAX {
            Err(ConversionError::Overflow)
        } else {
            Ok(rail_amount(quantity * unit_price_cents, price as nat) as u64)
        },
    }
}

/// Whole satoshis in a millisatoshi amount, the remainder dropped.
pub open spec fn sats_in(msats: nat) -> nat {
    msats / (MSATS_PER_SAT as nat)
}

proof fn lemma_ceil_div_bounds(amount: nat, step: nat)
    requires
        step > 0,
    ensures
        ceil_div(amount, step) * step >= amount,
        ceil_div(amount, step) * step < amount + step,
{
    let q = amount / step;
    let r = amount % step;
    assert(amount == q * step + r && 0 <= r < step) by (nonlinear_arith)
        requires
            step > 0,
            q == amount / step,
            r == amount % step,
    ;
    assert((q + 1) * step == q * step + step) by (nonlinear_arith);
}

/// An invoice never asks for less than the cost it stands for, and asks for
/// less than one satoshi more: with the price in cents per bitcoin on one
/// side and millisatoshis per bitcoin on the other, the amount covers the
/// cost, and the amount less one satoshi does not.
pub proof fn lemma_rail_amount_never_undercharges(cents: nat, price_dollars: nat)
    requires
        price_dollars > 0,
    ensures
        rail_amount(cents, price_dollars) % (MSATS_PER_SAT as nat) == 0,
        rail_amount(cents, price_dollars) * (price_dollars * CENTS_PER_DOLLAR) >= cents
            * MSATS_PER_BTC,
        (rail_amount(cents, price_dollars) - MSATS_PER_SAT) * (price_dollars * CENTS_PER_DOLLAR)
            < cents * MSATS_PER_BTC,
{
    let cost: nat = cents * (MSATS_PER_BTC as nat);
    let price_cents: nat = price_dollars * (CENTS_PER_DOLLAR as nat);
    let msats: nat = msats_covering(cents, price_dollars);
    let sats: nat = ceil_div(msats, MSATS_PER_SAT as nat);
    let amount: nat = rail_amount(cents, price_dollars);
    lemma_ceil_div_bounds(cost, price_cents);
    lemma_ceil_div_bounds(msats, MSATS_PER_SAT as nat);
    assert(amount == sats * 1000);
    assert(amount % 1000 == 0) by (nonlinear_arith)
        requires
            amount == sats * 1000,
    ;
    assert(amount * price_cents >= msats * price_cents) by (nonlinear_arith)
        requires
            amount >= msats,
    ;
    assert((amount - 1000) * price_cents <= (msats - 1) * price_cents) by (nonlinear_arith)
        requires
            amount - 1000 <= msats - 1,
            price_cents > 0,
    ;
    assert((msats - 1) * price_cents == msats * price_cents - price_cents) by (nonlinear_arith);
}

/// What `fee_to_rail_amount` returns at a price above zero covers the cost
/// of the quantity and exceeds it by less than one satoshi; where it returns
/// no amount, the cost or the amount does not fit in 64 bits.
pub proof fn lemma_fee_covers_cost(quantity: u64, unit_price_cents: u64, price_dollars: u64)
    requires
        price_dollars > 0,
    ensures
        match rail_amount_checked(quantity as nat, unit_price_cents as nat, Some(price_dollars)) {
            Ok(amount) => {
                &&& amount % MSATS_PER_SAT == 0
                &&& amount * (price_dollars * CENTS_PER_DOLLAR) >= (quantity * unit_price_cents)
                    * MSATS_PER_BTC
                &&& (amount - MSATS_PER_SAT) * (price_dollars * CENTS_PER_DOLLAR) < (quantity
                    * unit_price_cents) * MSATS_PER_BTC
            },
            Err(error) => error == ConversionError::Overflow,
        },
{
    lemma_rail_amount_never_undercharges(
        (quantity * unit_price_cents) as nat,
        price_dollars as nat,
    );
}

/// The invoice amount in millisatoshis for a cost in cents, in 128 bits.
fn rail_amount_wide(cents: u64, btc_price_dollars: u64) -> (msats: u128)
    requires
        btc_price_dollars > 0,
    ensures
        msats == rail_amount(cents as nat, btc_price_dollars as nat),
{
    assert(cents * 100_000_000_000 <= u64::MAX * 100_000_000_000) by (nonlinear_arith)
        requires
            cents <= u64::MAX,
    ;
    assert(btc_price_dollars * CENTS_PER_DOLLAR == btc_price_dollars * 100 && cents * MSATS_PER_BTC
        == cents * 100_000_000_000) by (nonlinear_arith)
        requires
            CENTS_PER_DOLLAR == 100,
            MSATS_PER_BTC == 100_000_000_000,
    ;
    let price_cents: u128 = btc_price_dollars as u128 * CENTS_PER_DOLLAR as u128;
    let cost: u128 = cents as u128 * MSATS_PER_BTC as u128;
    let whole: u128 = cost / price_cents;
    let msats: u128 = if cost % price_cents == 0 {
        whole
    } else {
        whole + 1
    };
    let whole_sats: u128 = msats / MSATS_PER_SAT as u128;
    let sats: u128 = if msats % MSATS_PER_SAT as u128 == 0 {
        whole_sats
    } else {
        whole_sats + 1
    };
    assert(sats * MSATS_PER_SAT == sats * 1000) by (nonlinear_arith)
        requires
            MSATS_PER_SAT == 1000,
    ;
    sats * MSATS_PER_SAT as u128
}

/// The invoice amount in millisatoshis for a cost in cents, or `None` where
/// it does not fit in 64 bits.
fn rail_amount_of(cents: u64, btc_price_dollars: u64) -> (msats: Option<u64>)
    requires
        btc_price_dollars > 0,
    ensures
        msats == (if rail_amount(cents as nat, btc_price_dollars as nat) <= u64::MAX {
            Some(rail_amount(cents as nat, btc_price_dollars as nat) as u64)
        } else {
            None
        }),
{
    let rounded: u128 = rail_amount_wide(cents, btc_price_dollars);
    if rounded <= u64::MAX as u128 {
        Some(rounded as u64)
    } else {
        None
    }
}

/// Converts a settlement quantity, priced per unit in cents, to the invoice
/// amount in millisatoshis at the given reference price of one bitcoin in
/// dollars.
pub fn fee_to_rail_amount(
    settlement_quantity: u64,
    unit_price_cents: u64,
    btc_price_dollars: Option<u64>,
) -> (amount: Result<u64, ConversionError>)
    ensures
        amount == rail_amount_checked(
            settlement_quantity as nat,
            unit_price_cents as nat,
            btc_price_dollars,
        ),
{
    match btc_price_dollars {
        None => Err(ConversionError::MissingPrice),
        Some(price) => {
            if price == 0 {
                return Err(ConversionError::MissingPrice);
            }
            match settlement_quantity.checked_mul(unit_price_cents) {
                None => Err(ConversionError::Overflow),
                Some(cents) => match rail_amount_of(cents, price) {
                    Some(msats) => Ok(msats),
                    None => Err(ConversionError::Overflow),
                },
            }
        },
    }
}

/// Whole satoshis in a millisatoshi amount, the remainder dropped.
pub fn msats_to_sats(msats: u64) -> (sats: u64)
    ensures
        sats == sats_in(msats as nat),
{
    msats / MSATS_PER_SAT
}

} // verus!
