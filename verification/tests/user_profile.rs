use marketplace::user_profile::{DisplayName, FullName, UserProfile};
use marketplace::simple_types::UserId;

#[test]
fn empty_profile_has_nothing_registered() {
    let profile = UserProfile::new_empty();
    // The getters demand a registered profile, so all we can observe of an
    // empty one is that registration succeeds from it.
    let mut profile = profile;
    profile
        .create_new_profile(UserId::new(7), FullName {}, DisplayName {})
        .unwrap();
    assert_eq!(profile.full_name(), FullName {});
    assert_eq!(profile.display_name(), DisplayName {});
}

#[test]
fn profile_names_can_be_updated() {
    let mut profile = UserProfile::new_empty();
    profile
        .create_new_profile(UserId::new(7), FullName {}, DisplayName {})
        .unwrap();
    profile.update_full_name(UserId::new(7), FullName {}).unwrap();
    profile
        .update_display_name(UserId::new(7), DisplayName {})
        .unwrap();
    assert_eq!(profile.full_name(), FullName {});
    assert_eq!(profile.display_name(), DisplayName {});
}
