use vstd::prelude::*;

use crate::simple_types::{ClassifiedAdState, CurrencyCode};

verus! {

/// Every way a command or a value-object constructor can fail.
///
/// The variants fall into four kinds: validation errors raised by value-object
/// constructors (`TitleTooLong`, `NegativeAmount`, `CurrencyNotInUse`,
/// `TooManyDecimals`, `CurrencyMismatch`), precondition errors raised by
/// commands whose required prior state is missing (`EmptyTitle`, `EmptyText`,
/// `ZeroPrice`, `MissingId`), the state-invariant error reported when an
/// aggregate's field combination is illegal for its declared state
/// (`InvalidState`), and the lookup error for an unknown currency code
/// (`UnknownCurrency`).
#[derive(Debug, Clone, Copy, PartialEq, Eq, Structural)]
pub enum DomainError {
    /// A title longer than 100 characters was rejected.
    TitleTooLong,
    /// A negative amount was offered as a price.
    NegativeAmount,
    /// Two monetary values with different currency codes were combined.
    CurrencyMismatch,
    /// The currency lookup does not know this code.
    UnknownCurrency(CurrencyCode),
    /// The currency exists but is not currently usable.
    CurrencyNotInUse(CurrencyCode),
    /// The amount carries more decimal places than the currency supports.
    TooManyDecimals(CurrencyCode, u32),
    /// `request_to_publish` was attempted without a title.
    EmptyTitle,
    /// `request_to_publish` was attempted without a text.
    EmptyText,
    /// `request_to_publish` was attempted without a strictly positive price.
    ZeroPrice,
    /// The aggregate's field combination is illegal for this state.
    InvalidState(ClassifiedAdState),
    /// The aggregate has no identifier, which is an illegal state.
    MissingId,
}

} // verus!
