use marketplace::classified_ad::FakeCurrencyLookup;
use marketplace::errors::DomainError;
use marketplace::ports::ICurrencyLookup;
use marketplace::simple_types::{result_add, CurrencyCode, CurrencyDetails, Money, Price};

/// A lookup whose only currency is retired: EUR exists but is out of use,
/// and AUD is unknown.
struct RetiredCurrencyLookup;

impl ICurrencyLookup for RetiredCurrencyLookup {
    // The ghost table is erased from compiled code and never called.
    fn spec_find(&self, _currency_code: CurrencyCode) -> Option<CurrencyDetails> {
        unreachable!()
    }

    fn find_currency(&self, currency_code: CurrencyCode) -> Result<CurrencyDetails, DomainError> {
        match currency_code {
            CurrencyCode::EUR => Ok(CurrencyDetails {
                currency_code: CurrencyCode::EUR,
                in_use: false,
                decimal_places: 2,
            }),
            CurrencyCode::AUD => Err(DomainError::UnknownCurrency(currency_code)),
        }
    }
}

#[test]
fn retired_currency_is_rejected() {
    assert_eq!(
        Money::from_decimal(10000, Some(CurrencyCode::EUR), &RetiredCurrencyLookup),
        Err(DomainError::CurrencyNotInUse(CurrencyCode::EUR))
    );
}

#[test]
fn unknown_currency_is_rejected() {
    assert_eq!(
        Money::from_decimal(10000, Some(CurrencyCode::AUD), &RetiredCurrencyLookup),
        Err(DomainError::UnknownCurrency(CurrencyCode::AUD))
    );
}

// Amounts are fixed-point decimals: a value of n stands for n / 10^4
// currency units, so e.g. 10.55 is written 105500.

#[test]
fn money_with_same_amount_should_be_equal() {
    let first_amount = Money::from_decimal(50000, None, &FakeCurrencyLookup).unwrap();
    let second_amount = Money::from_decimal(50000, None, &FakeCurrencyLookup).unwrap();
    assert_eq!(first_amount, second_amount);
}

#[test]
fn sum_of_money_gives_full_amount() {
    let coin1 = Money::from_decimal(10000, None, &FakeCurrencyLookup).unwrap();
    let coin2 = Money::from_decimal(20000, None, &FakeCurrencyLookup).unwrap();
    let coin3 = Money::from_decimal(20000, None, &FakeCurrencyLookup).unwrap();

    let banknote = Money::from_decimal(50000, None, &FakeCurrencyLookup).unwrap();

    assert_eq!(banknote, result_add(coin1.add(coin2), coin3).unwrap());
}

#[test]
fn subtracting_money() {
    let coin1 = Money::from_decimal(40000, None, &FakeCurrencyLookup).unwrap();
    let coin2 = Money::from_decimal(30000, None, &FakeCurrencyLookup).unwrap();
    let coin3 = Money::from_decimal(10000, None, &FakeCurrencyLookup).unwrap();

    assert_eq!(coin1.sub(coin2).unwrap(), coin3);
}

#[test]
fn sum_preserves_currency_code() {
    let a = Money::new(15000, CurrencyCode::AUD);
    let b = Money::new(25000, CurrencyCode::AUD);
    let sum = a.add(b).unwrap();
    assert_eq!(sum.amount, 40000);
    assert_eq!(sum.currency_code, CurrencyCode::AUD);
    let diff = b.sub(a).unwrap();
    assert_eq!(diff.amount, 10000);
    assert_eq!(diff.currency_code, CurrencyCode::AUD);
}

#[test]
fn adding_different_currencies_fails() {
    // Ten euros plus five Australian dollars.
    let eur = Money::from_decimal(100000, Some(CurrencyCode::EUR), &FakeCurrencyLookup).unwrap();
    let aud = Money::from_decimal(50000, Some(CurrencyCode::AUD), &FakeCurrencyLookup).unwrap();
    assert_eq!(eur.add(aud), Err(DomainError::CurrencyMismatch));
}

#[test]
fn subtracting_different_currencies_fails() {
    let eur = Money::from_decimal(100000, Some(CurrencyCode::EUR), &FakeCurrencyLookup).unwrap();
    let aud = Money::from_decimal(50000, Some(CurrencyCode::AUD), &FakeCurrencyLookup).unwrap();
    assert_eq!(eur.sub(aud), Err(DomainError::CurrencyMismatch));
}

#[test]
fn chained_addition_propagates_the_first_failure() {
    let eur = Money::from_decimal(100000, Some(CurrencyCode::EUR), &FakeCurrencyLookup).unwrap();
    let aud = Money::from_decimal(50000, Some(CurrencyCode::AUD), &FakeCurrencyLookup).unwrap();
    let mismatch = eur.add(aud);
    assert_eq!(result_add(mismatch, eur), Err(DomainError::CurrencyMismatch));
    assert_eq!(eur.add_result(Err(DomainError::ZeroPrice)), Err(DomainError::ZeroPrice));
    assert_eq!(
        eur.add_result(Ok(eur)),
        Ok(Money::new(200000, CurrencyCode::EUR))
    );
}

#[test]
fn addition_at_the_edge_of_the_range() {
    let a = Money::new(i64::MAX, CurrencyCode::EUR);
    let b = Money::new(0, CurrencyCode::EUR);
    assert_eq!(a.add(b).unwrap().amount, i64::MAX);
    let c = Money::new(i64::MIN, CurrencyCode::EUR);
    assert_eq!(c.sub(b).unwrap().amount, i64::MIN);
}

#[test]
fn too_much_precision_is_rejected() {
    // 10.555 has three decimal places; EUR supports two.
    assert_eq!(
        Money::from_decimal(105550, Some(CurrencyCode::EUR), &FakeCurrencyLookup),
        Err(DomainError::TooManyDecimals(CurrencyCode::EUR, 2))
    );
}

#[test]
fn matching_precision_round_trips_the_amount() {
    // 10.55 fits two decimal places exactly.
    let m = Money::from_decimal(105500, Some(CurrencyCode::EUR), &FakeCurrencyLookup).unwrap();
    assert_eq!(m.amount, 105500);
    assert_eq!(m.currency_code, CurrencyCode::EUR);
}

#[test]
fn half_rounds_toward_zero() {
    // 10.005 rounds to 10.00 (an exact half goes toward zero), so the
    // amount does not survive rounding and is rejected.
    assert_eq!(
        Money::from_decimal(100050, Some(CurrencyCode::EUR), &FakeCurrencyLookup),
        Err(DomainError::TooManyDecimals(CurrencyCode::EUR, 2))
    );
    // Just above the half rounds away from zero: 10.0051 -> 10.01.
    assert_eq!(
        Money::from_decimal(100051, Some(CurrencyCode::EUR), &FakeCurrencyLookup),
        Err(DomainError::TooManyDecimals(CurrencyCode::EUR, 2))
    );
    // A negative amount with too much precision is rejected the same way.
    assert_eq!(
        Money::from_decimal(-105550, Some(CurrencyCode::EUR), &FakeCurrencyLookup),
        Err(DomainError::TooManyDecimals(CurrencyCode::EUR, 2))
    );
    // A negative amount that fits is kept exactly.
    let m = Money::from_decimal(-105500, Some(CurrencyCode::EUR), &FakeCurrencyLookup).unwrap();
    assert_eq!(m.amount, -105500);
}

#[test]
fn default_currency_skips_the_lookup() {
    // With no currency code the amount is taken as it stands in EUR.
    let m = Money::from_decimal(105555, None, &FakeCurrencyLookup).unwrap();
    assert_eq!(m.amount, 105555);
    assert_eq!(m.currency_code, CurrencyCode::EUR);
}

#[test]
fn negative_price_is_rejected() {
    assert_eq!(
        Price::from_decimal(-10000, None, &FakeCurrencyLookup),
        Err(DomainError::NegativeAmount)
    );
}

#[test]
fn non_negative_price_round_trips_the_amount() {
    let p = Price::from_decimal(105500, Some(CurrencyCode::EUR), &FakeCurrencyLookup).unwrap();
    assert_eq!(p.money().amount, 105500);
    assert_eq!(p.money().currency_code, CurrencyCode::EUR);
    assert!(!p.is_zero());

    let zero = Price::from_decimal(0, None, &FakeCurrencyLookup).unwrap();
    assert!(zero.is_zero());
}
