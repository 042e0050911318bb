use vstd::prelude::*;
use vstd::string::StrSliceExecFns;

use crate::errors::DomainError;
use crate::ports::ICurrencyLookup;

verus! {

/// Identifies the user who owns or approves a listing.
///
/// An opaque wrapper around a 128-bit universally-unique value; equality is
/// by wrapped value and the value is immutable once constructed.
#[derive(Debug, Clone, Copy, PartialEq, Eq, Hash, Structural)]
pub struct UserId {
    _value: u128,
}

impl View for UserId {
    type V = u128;

    closed spec fn view(&self) -> u128 {
        self._value
    }
}

impl UserId {
    pub fn new(value: u128) -> (r: Self)
        ensures
            r@ == value,
    {
        Self { _value: value }
    }

    /// Get the user id's wrapped value.
    pub fn value(&self) -> (r: u128)
        ensures
            r == self@,
    {
        self._value
    }
}

/// Identifies one classified-ad aggregate.
///
/// An opaque wrapper around a 128-bit universally-unique value; equality is
/// by wrapped value and the value is immutable once constructed.
#[derive(Debug, Clone, Copy, PartialEq, Eq, Hash, Structural)]
pub struct ClassifiedAdId {
    _value: u128,
}

impl View for ClassifiedAdId {
    type V = u128;

    closed spec fn view(&self) -> u128 {
        self._value
    }
}

impl ClassifiedAdId {
    pub fn new(value: u128) -> (r: Self)
        ensures
            r@ == value,
    {
        Self { _value: value }
    }

    /// Get the classified ad id's wrapped value.
    pub fn value(&self) -> (r: u128)
        ensures
            r == self@,
    {
        self._value
    }
}

/// The closed set of currencies the system knows about.
#[derive(Debug, Clone, Copy, PartialEq, Eq, Structural)]
pub enum CurrencyCode {
    EUR,
    AUD,
}

/// Per-currency metadata supplied by a currency lookup: the code itself,
/// whether the currency is currently usable, and how many decimal places
/// it supports.
#[derive(Debug, Clone, Copy, PartialEq, Eq, Structural)]
pub struct CurrencyDetails {
    pub currency_code: CurrencyCode,
    pub in_use: bool,
    pub decimal_places: u32,
}

/// The lifecycle states of a classified-ad aggregate.
#[derive(Debug, Clone, Copy, PartialEq, Eq, Structural)]
pub enum ClassifiedAdState {
    PendingReview,
    Active,
    InActive,
    MarkedAsSold,
}

/// Monetary amounts are fixed-point decimals: an `amount` field holding `n`
/// stands for `n / 10^4` currency units, so every representable amount has at
/// most this many decimal places.
pub const AMOUNT_DECIMAL_PLACES: u32 = 4;

/// `10^e`.
pub open spec fn pow10(e: nat) -> nat
    decreases e,
{
    if e == 0 {
        1
    } else {
        10 * pow10((e - 1) as nat)
    }
}

/// Rounds a non-negative fixed-point magnitude to a multiple of `step`,
/// rounding an exact half down (toward zero).
pub open spec fn round_magnitude(mag: int, step: int) -> int {
    let q = mag / step;
    let r = mag % step;
    if r > step / 2 {
        (q + 1) * step
    } else {
        q * step
    }
}

/// `amount` (a fixed-point value with [`AMOUNT_DECIMAL_PLACES`] fractional
/// digits) rounded to `places` decimal places, rounding an exact half toward
/// zero.
pub open spec fn spec_round_half_toward_zero(amount: int, places: nat) -> int {
    if places >= AMOUNT_DECIMAL_PLACES {
        amount
    } else {
        let step = pow10((AMOUNT_DECIMAL_PLACES - places) as nat) as int;
        if amount >= 0 {
            round_magnitude(amount, step)
        } else {
            -round_magnitude(-amount, step)
        }
    }
}

/// `10^e` for the small exponents that decimal rounding needs.
fn pow10_u64(e: u32) -> (r: u64)
    requires
        e <= 4,
    ensures
        r == pow10(e as nat),
        1 <= r <= 10000,
{
    proof {
        reveal_with_fuel(pow10, 5);
    }
    match e {
        0 => 1,
        1 => 10,
        2 => 100,
        3 => 1000,
        _ => 10000,
    }
}

/// Does `amount` survive rounding to `places` decimal places unchanged?
fn amount_fits_places(amount: i64, places: u32) -> (b: bool)
    ensures
        b == (spec_round_half_toward_zero(amount as int, places as nat) == amount as int),
{
    if places >= AMOUNT_DECIMAL_PLACES {
        return true;
    }
    let step: u64 = pow10_u64(AMOUNT_DECIMAL_PLACES - places);
    let mag: u64 = if amount >= 0 {
        amount as u64
    } else {
        (-(amount as i128)) as u64
    };
    proof {
        if amount >= 0 {
            assert(mag as int == amount as int);
        } else {
            assert(mag as int == -(amount as int));
        }
        assert(mag <= 0x8000_0000_0000_0000u64);
    }
    let q = mag / step;
    let r = mag % step;
    proof {
        vstd::arithmetic::div_mod::lemma_fundamental_div_mod(mag as int, step as int);
        assert(mag as int == (step as int) * (q as int) + (r as int));
        assert(r as int >= 0);
        assert((q as int) * (step as int) <= mag as int);
    }
    let rounded: u64 = if r > step / 2 {
        q * step + step
    } else {
        q * step
    };
    proof {
        assert(rounded as int == round_magnitude(mag as int, step as int)) by {
            assert(q as int == (mag as int) / (step as int));
            assert(r as int == (mag as int) % (step as int));
            assert(((q as int) + 1) * (step as int) == (q as int) * (step as int) + (step as int))
                by (nonlinear_arith);
        };
        if amount < 0 {
            assert((spec_round_half_toward_zero(amount as int, places as nat) == amount as int)
                == (round_magnitude(mag as int, step as int) == mag as int));
        }
    }
    rounded == mag
}

/// A currency-validated monetary amount.
///
/// `amount` is a fixed-point decimal (see [`AMOUNT_DECIMAL_PLACES`]): the
/// field holds the number of `10^-4` currency units.  Two `Money` values may
/// only be combined when their currency codes match.
#[derive(Debug, Clone, Copy, PartialEq, Eq, Structural)]
pub struct Money {
    pub amount: i64,
    pub currency_code: CurrencyCode,
}

/// What `Money::from_decimal` returns, given what the currency lookup holds
/// for the requested code (`found` is irrelevant when no code is requested).
pub open spec fn spec_money_from_decimal(
    amount: i64,
    currency_code: Option<CurrencyCode>,
    found: Option<CurrencyDetails>,
) -> Result<Money, DomainError> {
    match currency_code {
        Some(code) => match found {
            Some(details) => if !details.in_use {
                Err(DomainError::CurrencyNotInUse(code))
            } else if spec_round_half_toward_zero(
                amount as int,
                details.decimal_places as nat,
            ) != amount as int {
                Err(DomainError::TooManyDecimals(details.currency_code, details.decimal_places))
            } else {
                Ok(Money { amount, currency_code: details.currency_code })
            },
            None => Err(DomainError::UnknownCurrency(code)),
        },
        None => Ok(Money { amount, currency_code: CurrencyCode::EUR }),
    }
}

/// What the given lookup holds for the requested code, if one was requested.
pub open spec fn spec_looked_up<L: ICurrencyLookup>(
    lookup: &L,
    currency_code: Option<CurrencyCode>,
) -> Option<CurrencyDetails> {
    match currency_code {
        Some(code) => lookup.spec_find(code),
        None => None,
    }
}

impl Money {
    pub fn new(amount: i64, currency: CurrencyCode) -> (r: Self)
        ensures
            r == (Money { amount, currency_code: currency }),
    {
        Self { amount, currency_code: currency }
    }

    /// Builds a `Money` from a fixed-point decimal amount.
    ///
    /// With no currency code the amount is taken in the default currency
    /// (EUR) as it stands.  Otherwise the code is resolved through the
    /// lookup; the construction fails if the code is unknown, if the currency
    /// is not in use, or if rounding the amount to the currency's decimal
    /// places (an exact half rounds toward zero) would change it.
    pub fn from_decimal<L: ICurrencyLookup>(
        amount: i64,
        currency_code: Option<CurrencyCode>,
        currency_lookup: &L,
    ) -> (r: Result<Money, DomainError>)
        ensures
            r == spec_money_from_decimal(
                amount,
                currency_code,
                spec_looked_up(currency_lookup, currency_code),
            ),
    {
        let resolved = match currency_code {
            Some(code) => {
                let currency = match currency_lookup.find_currency(code) {
                    Ok(details) => details,
                    Err(e) => {
                        return Err(e);
                    },
                };
                if !currency.in_use {
                    return Err(DomainError::CurrencyNotInUse(code));
                }
                if !amount_fits_places(amount, currency.decimal_places) {
                    return Err(
                        DomainError::TooManyDecimals(
                            currency.currency_code,
                            currency.decimal_places,
                        ),
                    );
                }
                currency.currency_code
            },
            None => CurrencyCode::EUR,
        };
        Ok(Money::new(amount, resolved))
    }

    /// Adds two amounts of the same currency; amounts of different
    /// currencies cannot be combined.
    pub fn add(self, rhs: Money) -> (r: Result<Money, DomainError>)
        requires
            self.currency_code == rhs.currency_code ==> i64::MIN <= self.amount + rhs.amount
                <= i64::MAX,
        ensures
            self.currency_code != rhs.currency_code ==> r == Err::<Money, DomainError>(
                DomainError::CurrencyMismatch,
            ),
            self.currency_code == rhs.currency_code ==> r == Ok::<Money, DomainError>(
                Money {
                    amount: (self.amount + rhs.amount) as i64,
                    currency_code: self.currency_code,
                },
            ),
    {
        if self.currency_code != rhs.currency_code {
            return Err(DomainError::CurrencyMismatch);
        }
        Ok(Money::new(self.amount + rhs.amount, self.currency_code))
    }

    /// Subtracts two amounts of the same currency; amounts of different
    /// currencies cannot be combined.
    pub fn sub(self, rhs: Money) -> (r: Result<Money, DomainError>)
        requires
            self.currency_code == rhs.currency_code ==> i64::MIN <= self.amount - rhs.amount
                <= i64::MAX,
        ensures
            self.currency_code != rhs.currency_code ==> r == Err::<Money, DomainError>(
                DomainError::CurrencyMismatch,
            ),
            self.currency_code == rhs.currency_code ==> r == Ok::<Money, DomainError>(
                Money {
                    amount: (self.amount - rhs.amount) as i64,
                    currency_code: self.currency_code,
                },
            ),
    {
        if self.currency_code != rhs.currency_code {
            return Err(DomainError::CurrencyMismatch);
        }
        Ok(Money::new(self.amount - rhs.amount, self.currency_code))
    }

    /// Adds a fallible right-hand side, so chained sums can be written
    /// without intermediate unwrapping; the first failure propagates.
    pub fn add_result(self, rhs: Result<Money, DomainError>) -> (r: Result<Money, DomainError>)
        requires
            match rhs {
                Ok(m) => self.currency_code == m.currency_code ==> i64::MIN <= self.amount
                    + m.amount <= i64::MAX,
                Err(_) => true,
            },
        ensures
            match rhs {
                Ok(m) => if self.currency_code != m.currency_code {
                    r == Err::<Money, DomainError>(DomainError::CurrencyMismatch)
                } else {
                    r == Ok::<Money, DomainError>(
                        Money {
                            amount: (self.amount + m.amount) as i64,
                            currency_code: self.currency_code,
                        },
                    )
                },
                Err(e) => r == Err::<Money, DomainError>(e),
            },
    {
        match rhs {
            Ok(m) => self.add(m),
            Err(e) => Err(e),
        }
    }
}

/// Adds one more `Money` value onto a fallible sum, so chained sums can be
/// written without intermediate unwrapping; the first failure propagates.
pub fn result_add(lhs: Result<Money, DomainError>, rhs: Money) -> (r: Result<Money, DomainError>)
    requires
        match lhs {
            Ok(m) => m.currency_code == rhs.currency_code ==> i64::MIN <= m.amount + rhs.amount
                <= i64::MAX,
            Err(_) => true,
        },
    ensures
        match lhs {
            Ok(m) => if m.currency_code != rhs.currency_code {
                r == Err::<Money, DomainError>(DomainError::CurrencyMismatch)
            } else {
                r == Ok::<Money, DomainError>(
                    Money { amount: (m.amount + rhs.amount) as i64, currency_code: m.currency_code },
                )
            },
            Err(e) => r == Err::<Money, DomainError>(e),
        },
{
    match lhs {
        Ok(m) => m.add(rhs),
        Err(e) => Err(e),
    }
}

/// A `Money` whose amount is never negative.
#[derive(Debug, Clone, Copy, PartialEq, Eq, Structural)]
pub struct Price {
    money: Money,
}

impl View for Price {
    type V = Money;

    closed spec fn view(&self) -> Money {
        self.money
    }
}

impl Price {
    /// Every price carries a non-negative amount.
    #[verifier::type_invariant]
    spec fn wf(self) -> bool {
        self.money.amount >= 0
    }

    /// The wrapped monetary value.
    pub fn money(&self) -> (m: Money)
        ensures
            m == self@,
    {
        self.money
    }

    /// Is the wrapped amount exactly zero?
    pub fn is_zero(&self) -> (b: bool)
        ensures
            b == (self@.amount == 0),
    {
        self.money.amount == 0
    }

    /// Builds a `Price` like [`Money::from_decimal`], additionally rejecting
    /// negative amounts before the currency is resolved.
    pub fn from_decimal<L: ICurrencyLookup>(
        amount: i64,
        currency: Option<CurrencyCode>,
        lookup: &L,
    ) -> (r: Result<Price, DomainError>)
        ensures
            amount < 0 ==> r == Err::<Price, DomainError>(DomainError::NegativeAmount),
            amount >= 0 ==> match spec_money_from_decimal(
                amount,
                currency,
                spec_looked_up(lookup, currency),
            ) {
                Ok(m) => r matches Ok(p) && p@ == m,
                Err(e) => r == Err::<Price, DomainError>(e),
            },
    {
        if amount < 0 {
            return Err(DomainError::NegativeAmount);
        }
        match Money::from_decimal(amount, currency, lookup) {
            Ok(money) => Ok(Price { money }),
            Err(e) => Err(e),
        }
    }
}

/// A validated title: never longer than 100 characters.
#[derive(Debug, PartialEq)]
pub struct ClassifiedAdTitle {
    _value: String,
}

impl View for ClassifiedAdTitle {
    type V = Seq<char>;

    closed spec fn view(&self) -> Seq<char> {
        self._value@
    }
}

impl Clone for ClassifiedAdTitle {
    fn clone(&self) -> (r: Self)
        ensures
            r@ == self@,
    {
        proof {
            use_type_invariant(self);
        }
        ClassifiedAdTitle { _value: self._value.clone() }
    }
}

impl ClassifiedAdTitle {
    /// A title never exceeds 100 characters.
    #[verifier::type_invariant]
    spec fn wf(self) -> bool {
        self._value@.len() <= 100
    }

    /// Validates and wraps a title; titles longer than 100 characters are
    /// rejected.
    pub fn new(title: String) -> (r: Result<Self, DomainError>)
        ensures
            title@.len() > 100 ==> r == Err::<ClassifiedAdTitle, DomainError>(
                DomainError::TitleTooLong,
            ),
            title@.len() <= 100 ==> (r matches Ok(t) && t@ == title@),
    {
        if title.as_str().unicode_len() > 100 {
            return Err(DomainError::TitleTooLong);
        }
        Ok(Self { _value: title })
    }

    /// Get the title's wrapped text.
    pub fn value(&self) -> (r: String)
        ensures
            r@ == self@,
    {
        self._value.clone()
    }
}

/// An unconstrained ad text: any string is accepted.
#[derive(Debug, PartialEq)]
pub struct ClassifiedAdText {
    _value: String,
}

impl View for ClassifiedAdText {
    type V = Seq<char>;

    closed spec fn view(&self) -> Seq<char> {
        self._value@
    }
}

impl Clone for ClassifiedAdText {
    fn clone(&self) -> (r: Self)
        ensures
            r@ == self@,
    {
        ClassifiedAdText { _value: self._value.clone() }
    }
}

impl ClassifiedAdText {
    /// Wraps an ad text; there is no format constraint.
    pub fn new(text: String) -> (r: Self)
        ensures
            r@ == text@,
    {
        Self { _value: text }
    }

    /// Get the text's wrapped value.
    pub fn value(&self) -> (r: String)
        ensures
            r@ == self@,
    {
        self._value.clone()
    }
}

} // verus!
