use vstd::prelude::*;

use crate::errors::DomainError;
use crate::framework::AggregateRoot;
use crate::simple_types::UserId;

verus! {

/// A user's legal name; a placeholder value object.
#[derive(Debug, Clone, Copy, PartialEq, Eq, Structural)]
pub struct FullName {}

/// The name a user shows to others; a placeholder value object.
#[derive(Debug, Clone, Copy, PartialEq, Eq, Structural)]
pub struct DisplayName {}

/// A new profile was registered.
#[derive(Debug, Clone, Copy, PartialEq, Eq, Structural)]
pub struct UserRegistered {
    pub id: UserId,
    pub full_name: FullName,
    pub display_name: DisplayName,
}

/// The profile's full name was replaced.
#[derive(Debug, Clone, Copy, PartialEq, Eq, Structural)]
pub struct UserFullNameUpdated {
    pub full_name: FullName,
    pub id: UserId,
}

/// The profile's display name was replaced.
#[derive(Debug, Clone, Copy, PartialEq, Eq, Structural)]
pub struct UserDisplayNameUpdated {
    pub display_name: DisplayName,
    pub id: UserId,
}

/// An immutable fact about one user profile.
#[derive(Debug, Clone, Copy, PartialEq, Eq, Structural)]
pub enum UserEvents {
    UserRegistered(UserRegistered),
    UserFullNameUpdated(UserFullNameUpdated),
    UserDisplayNameUpdated(UserDisplayNameUpdated),
}

impl View for UserEvents {
    type V = UserEvents;

    open spec fn view(&self) -> UserEvents {
        *self
    }
}

/// The mathematical state of a user profile.
#[verifier::ext_equal]
pub struct UserProfileView {
    pub id: Option<UserId>,
    pub full_name: Option<FullName>,
    pub display_name: Option<DisplayName>,
    pub changes: Seq<UserEvents>,
}

/// How one event projects onto the profile's state.  No event sets the
/// profile's own id, and every field combination is legal, so projection
/// never fails.
pub open spec fn profile_step(v: UserProfileView, e: UserEvents) -> UserProfileView {
    match e {
        UserEvents::UserRegistered(ev) => UserProfileView {
            full_name: Some(ev.full_name),
            display_name: Some(ev.display_name),
            ..v
        },
        UserEvents::UserFullNameUpdated(ev) => UserProfileView {
            full_name: Some(ev.full_name),
            ..v
        },
        UserEvents::UserDisplayNameUpdated(ev) => UserProfileView {
            display_name: Some(ev.display_name),
            ..v
        },
    }
}

/// A user profile aggregate: every mutation goes through the same
/// aggregate-root protocol as the classified ad, with an invariant that
/// accepts every field combination.
pub struct UserProfile {
    _id: Option<UserId>,
    _full_name: Option<FullName>,
    _display_name: Option<DisplayName>,
    _changes: Vec<UserEvents>,
}

impl View for UserProfile {
    type V = UserProfileView;

    closed spec fn view(&self) -> UserProfileView {
        UserProfileView {
            id: self._id,
            full_name: self._full_name,
            display_name: self._display_name,
            changes: self._changes@.map_values(|e: UserEvents| e@),
        }
    }
}

impl AggregateRoot for UserProfile {
    type Event = UserEvents;

    /// Every field combination is legal for a profile.
    open spec fn valid(v: UserProfileView) -> bool {
        true
    }

    /// Never reported, since every profile state is valid.
    open spec fn invalid_error(v: UserProfileView) -> DomainError {
        DomainError::MissingId
    }

    open spec fn step(v: UserProfileView, event: UserEvents) -> Result<
        UserProfileView,
        DomainError,
    > {
        Ok(profile_step(v, event))
    }

    open spec fn record(v: UserProfileView, event: UserEvents) -> UserProfileView {
        UserProfileView { changes: v.changes.push(event), ..v }
    }

    fn ensure_valid_state(&self) -> (r: Result<(), DomainError>) {
        Ok(())
    }

    fn when(&mut self, event: &UserEvents) -> (r: Result<(), DomainError>) {
        match event {
            UserEvents::UserRegistered(e) => {
                self._display_name = Some(e.display_name);
                self._full_name = Some(e.full_name);
            },
            UserEvents::UserFullNameUpdated(e) => {
                self._full_name = Some(e.full_name);
            },
            UserEvents::UserDisplayNameUpdated(e) => {
                self._display_name = Some(e.display_name);
            },
        }
        proof {
            assert(self@ =~= profile_step(old(self)@, *event));
        }
        Ok(())
    }

    fn store_changes(&mut self, event: UserEvents) -> (r: Result<(), DomainError>) {
        self._changes.push(event);
        proof {
            assert(self@.changes =~= old(self)@.changes.push(event));
            assert(self@ =~= <UserProfile as AggregateRoot>::record(old(self)@, event));
        }
        Ok(())
    }
}

impl UserProfile {
    /// A profile with nothing registered yet and no pending changes.
    pub fn new_empty() -> (p: Self)
        ensures
            p@ == (UserProfileView {
                id: None,
                full_name: None,
                display_name: None,
                changes: Seq::<UserEvents>::empty(),
            }),
    {
        let p = UserProfile { _id: None, _full_name: None, _display_name: None, _changes: Vec::new() };
        proof {
            assert(p@ =~= (UserProfileView {
                id: None,
                full_name: None,
                display_name: None,
                changes: Seq::<UserEvents>::empty(),
            }));
        }
        p
    }

    /// Registers the profile by raising `UserRegistered` through the
    /// mutation pipeline; always succeeds.
    pub fn create_new_profile(
        &mut self,
        id: UserId,
        full_name: FullName,
        display_name: DisplayName,
    ) -> (r: Result<(), DomainError>)
        ensures
            r == Ok::<(), DomainError>(()),
            final(self)@ == (UserProfileView {
                full_name: Some(full_name),
                display_name: Some(display_name),
                changes: old(self)@.changes.push(
                    UserEvents::UserRegistered(UserRegistered { id, full_name, display_name }),
                ),
                ..old(self)@
            }),
    {
        self.apply(UserEvents::UserRegistered(UserRegistered { id, full_name, display_name }))
    }

    /// Replaces the full name through the mutation pipeline; always
    /// succeeds.
    pub fn update_full_name(&mut self, id: UserId, full_name: FullName) -> (r: Result<
        (),
        DomainError,
    >)
        ensures
            r == Ok::<(), DomainError>(()),
            final(self)@ == (UserProfileView {
                full_name: Some(full_name),
                changes: old(self)@.changes.push(
                    UserEvents::UserFullNameUpdated(UserFullNameUpdated { id, full_name }),
                ),
                ..old(self)@
            }),
    {
        self.apply(UserEvents::UserFullNameUpdated(UserFullNameUpdated { id, full_name }))
    }

    /// Replaces the display name through the mutation pipeline; always
    /// succeeds.
    pub fn update_display_name(&mut self, id: UserId, display_name: DisplayName) -> (r: Result<
        (),
        DomainError,
    >)
        ensures
            r == Ok::<(), DomainError>(()),
            final(self)@ == (UserProfileView {
                display_name: Some(display_name),
                changes: old(self)@.changes.push(
                    UserEvents::UserDisplayNameUpdated(
                        UserDisplayNameUpdated { id, display_name },
                    ),
                ),
                ..old(self)@
            }),
    {
        self.apply(
            UserEvents::UserDisplayNameUpdated(UserDisplayNameUpdated { id, display_name }),
        )
    }

    /// The registered full name.  A profile that was never registered has
    /// none to report.
    pub fn full_name(&self) -> (r: FullName)
        requires
            self@.full_name is Some,
        ensures
            r == self@.full_name->0,
    {
        self._full_name.unwrap()
    }

    /// The profile's id.  No event ever sets it, so it must have been
    /// supplied by other means before it can be read.
    pub fn id(&self) -> (r: UserId)
        requires
            self@.id is Some,
        ensures
            r == self@.id->0,
    {
        self._id.unwrap()
    }

    /// The registered display name.  A profile that was never registered
    /// has none to report.
    pub fn display_name(&self) -> (r: DisplayName)
        requires
            self@.display_name is Some,
        ensures
            r == self@.display_name->0,
    {
        self._display_name.unwrap()
    }
}

} // verus!
