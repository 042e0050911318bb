use vstd::prelude::*;

use crate::errors::DomainError;
use crate::simple_types::{CurrencyCode, CurrencyDetails};

verus! {

/// The currency-lookup capability the core consumes from its environment.
///
/// An implementation is modelled by the abstract table `spec_find`;
/// `find_currency` must report exactly what that table holds: the details for
/// a known code, or an `UnknownCurrency` error for a code the table lacks.
/// Any table-driven, remote, or configuration-backed implementation may
/// supply this capability.
pub trait ICurrencyLookup {
    /// The abstract table behind this lookup.
    spec fn spec_find(&self, currency_code: CurrencyCode) -> Option<CurrencyDetails>;

    fn find_currency(&self, currency_code: CurrencyCode) -> (r: Result<
        CurrencyDetails,
        DomainError,
    >)
        ensures
            r == match self.spec_find(currency_code) {
                Some(details) => Ok::<CurrencyDetails, DomainError>(details),
                None => Err::<CurrencyDetails, DomainError>(
                    DomainError::UnknownCurrency(currency_code),
                ),
            },
    ;
}

} // verus!
