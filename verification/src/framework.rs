use vstd::prelude::*;

use crate::errors::DomainError;

verus! {

/// The view of an optional value: the view of its content, if any.
pub open spec fn option_view<T: View>(o: Option<T>) -> Option<T::V> {
    match o {
        Some(t) => Some(t@),
        None => None,
    }
}

/// The reusable mutation pipeline shared by every aggregate type.
///
/// A concrete aggregate supplies the projection `when`, the per-state
/// invariant check `ensure_valid_state`, and the event log append
/// `store_changes`; the provided `apply` runs them in that order.  Each is
/// specified against four spec functions over the aggregate's view: `step`
/// (what one event does to the state), `valid` and `invalid_error` (which
/// field combinations are legal, and the error reported otherwise), and
/// `record` (the state with one more pending event).
pub trait AggregateRoot: View + Sized {
    type Event: View;

    /// Is this field combination legal for the aggregate's current state?
    spec fn valid(v: Self::V) -> bool;

    /// The validation error reported when a field combination is illegal.
    spec fn invalid_error(v: Self::V) -> DomainError;

    /// How one event projects onto the aggregate's state: the next state,
    /// or the validation error that rejects the event's payload.  A rejected
    /// event leaves the state untouched.
    spec fn step(v: Self::V, event: <Self::Event as View>::V) -> Result<Self::V, DomainError>;

    /// The state with `event` appended to the pending-changes list.
    spec fn record(v: Self::V, event: <Self::Event as View>::V) -> Self::V;

    /// Checks that the current field combination is legal for the current
    /// state; a pure read of the fields.
    fn ensure_valid_state(&self) -> (r: Result<(), DomainError>)
        ensures
            r == if Self::valid(self@) {
                Ok::<(), DomainError>(())
            } else {
                Err::<(), DomainError>(Self::invalid_error(self@))
            },
    ;

    /// Updates the in-memory fields according to the event's payload: pure
    /// state projection, no invariant validation.
    fn when(&mut self, event: &Self::Event) -> (r: Result<(), DomainError>)
        ensures
            match Self::step(old(self)@, event@) {
                Ok(v) => r == Ok::<(), DomainError>(()) && final(self)@ == v,
                Err(e) => r == Err::<(), DomainError>(e) && final(self)@ == old(self)@,
            },
    ;

    /// Appends the event to the pending-changes list.
    fn store_changes(&mut self, event: Self::Event) -> (r: Result<(), DomainError>)
        ensures
            r == Ok::<(), DomainError>(()),
            final(self)@ == Self::record(old(self)@, event@),
    ;

    /// The uniform mutation pipeline: project the event, check the
    /// per-state invariant, then append the event to the pending changes.
    ///
    /// Note the deliberate mutation-before-validation ordering: when the
    /// invariant check fails, the fields have already been projected, but
    /// the pending-changes list is not advanced.
    fn apply(&mut self, event: Self::Event) -> (r: Result<(), DomainError>)
        ensures
            match Self::step(old(self)@, event@) {
                Err(e) => r == Err::<(), DomainError>(e) && final(self)@ == old(self)@,
                Ok(v) => if Self::valid(v) {
                    r == Ok::<(), DomainError>(()) && final(self)@ == Self::record(v, event@)
                } else {
                    r == Err::<(), DomainError>(Self::invalid_error(v)) && final(self)@ == v
                },
            },
    {
        match self.when(&event) {
            Ok(_) => (),
            Err(e) => {
                return Err(e);
            },
        }
        match self.ensure_valid_state() {
            Ok(_) => (),
            Err(e) => {
                return Err(e);
            },
        }
        self.store_changes(event)
    }
}

} // verus!
