//! Currency units and the conversion of amounts between them.

use vstd::prelude::*;

verus! {

/// The name of the unit in which the mint issues its tokens: one search.
pub const SETTLEMENT_UNIT_NAME: &'static str = "xsr";

/// A unit of account.
#[derive(Debug, PartialEq, Eq)]
pub enum Unit {
    /// Satoshis.
    Sat,
    /// Millisatoshis.
    Msat,
    /// US dollars.
    Usd,
    /// Euros.
    Eur,
    /// Authentication tokens.
    Auth,
    /// Any other unit, by its name.
    Custom(String),
}

/// A unit with its name as a sequence of characters.
pub enum UnitView {
    Sat,
    Msat,
    Usd,
    Eur,
    Auth,
    Custom(Seq<char>),
}

impl View for Unit {
    type V = UnitView;

    open spec fn view(&self) -> UnitView {
        match self {
            Unit::Sat => UnitView::Sat,
            Unit::Msat => UnitView::Msat,
            Unit::Usd => UnitView::Usd,
            Unit::Eur => UnitView::Eur,
            Unit::Auth => UnitView::Auth,
            Unit::Custom(name) => UnitView::Custom(name@),
        }
    }
}

/// Why an amount could not be converted.
#[derive(Clone, Copy, Debug, PartialEq, Eq, Structural)]
pub enum AmountError {
    /// The converted amount does not fit in 64 bits.
    AmountOverflow,
    /// There is no conversion between the two units.
    CannotConvertUnits,
}

/// The settlement unit.
pub open spec fn settlement_unit() -> UnitView {
    UnitView::Custom(SETTLEMENT_UNIT_NAME@)
}

/// An amount of `value` in `from`, expressed in `to`: unchanged between equal
/// units, multiplied by a thousand from satoshis to millisatoshis, divided by
/// a thousand with the remainder dropped the other way, and not defined
/// between any other two units.
pub open spec fn conversion(value: u64, from: UnitView, to: UnitView) -> Result<u64, AmountError> {
    if from == to {
        Ok(value)
    } else if from == UnitView::Sat && to == UnitView::Msat {
        if value * 1000 <= u64::MAX {
            Ok((value * 1000) as u64)
        } else {
            Err(AmountError::AmountOverflow)
        }
    } else if from == UnitView::Msat && to == UnitView::Sat {
        Ok((value / 1000) as u64)
    } else {
        Err(AmountError::CannotConvertUnits)
    }
}

#[verifier::external_type_specification]
#[verifier::external_body]
pub struct ExCurrencyUnit(cdk_common::CurrencyUnit);

/// Builds the `cdk_common::CurrencyUnit` that stands for a unit: the variant
/// of the same name, a custom unit with its name unchanged.
#[verifier::external_body]
fn currency_unit(unit: &Unit) -> cdk_common::CurrencyUnit {
    match unit {
        Unit::Sat => cdk_common::CurrencyUnit::Sat,
        Unit::Msat => cdk_common::CurrencyUnit::Msat,
        Unit::Usd => cdk_common::CurrencyUnit::Usd,
        Unit::Eur => cdk_common::CurrencyUnit::Eur,
        Unit::Auth => cdk_common::CurrencyUnit::Auth,
        Unit::Custom(name) => cdk_common::CurrencyUnit::Custom(name.as_str().into()),
    }
}

/// Calls `cdk_common::Amount::convert_to` on an amount made by
/// `cdk_common::Amount::new`. That method returns the amount unchanged where
/// the two units are equal, multiplies with an overflow check from `Sat` to
/// `Msat`, divides from `Msat` to `Sat`, and refuses every other pair with
/// `CannotConvertUnits`.
#[verifier::external_body]
pub(crate) fn convert(value: u64, from: &Unit, to: &Unit) -> (converted: Result<
    u64,
    AmountError,
>)
    ensures
        converted == conversion(value, from@, to@),
{
    match cdk_common::Amount::new(value, currency_unit(from)).convert_to(&currency_unit(to)) {
        Ok(amount) => Ok(amount.value()),
        Err(cdk_common::amount::Error::AmountOverflow) => Err(AmountError::AmountOverflow),
        Err(_) => Err(AmountError::CannotConvertUnits),
    }
}

impl Unit {
    /// The settlement unit.
    pub fn settlement() -> (unit: Unit)
        ensures
            unit@ == settlement_unit(),
    {
        Unit::Custom(SETTLEMENT_UNIT_NAME.to_owned())
    }

    /// A copy of this unit.
    pub fn duplicate(&self) -> (unit: Unit)
        ensures
            unit@ == self@,
    {
        match self {
            Unit::Sat => Unit::Sat,
            Unit::Msat => Unit::Msat,
            Unit::Usd => Unit::Usd,
            Unit::Eur => Unit::Eur,
            Unit::Auth => Unit::Auth,
            Unit::Custom(name) => Unit::Custom(name.clone()),
        }
    }

    /// Whether two units are the same unit.
    pub fn same_as(&self, other: &Unit) -> (same: bool)
        ensures
            same == (self@ == other@),
    {
        match (self, other) {
            (Unit::Sat, Unit::Sat) => true,
            (Unit::Msat, Unit::Msat) => true,
            (Unit::Usd, Unit::Usd) => true,
            (Unit::Eur, Unit::Eur) => true,
            (Unit::Auth, Unit::Auth) => true,
            (Unit::Custom(a), Unit::Custom(b)) => *a == *b,
            _ => false,
        }
    }

    /// Whether this is the settlement unit.
    pub fn is_settlement(&self) -> (yes: bool)
        ensures
            yes == (self@ == settlement_unit()),
    {
        match self {
            Unit::Custom(name) => {
                let settlement = SETTLEMENT_UNIT_NAME.to_owned();
                *name == settlement
            },
            _ => false,
        }
    }
}

} // verus!
