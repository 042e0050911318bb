use marketplace::classified_ad::{ClassifiedAd, FakeCurrencyLookup};
use marketplace::errors::DomainError;
use marketplace::events::{
    ClassifiedAdCreated, ClassifiedAdEvents, ClassifiedAdPriceUpdated, ClassifiedAdTitleChanged,
};
use marketplace::framework::AggregateRoot;
use marketplace::simple_types::{
    ClassifiedAdId, ClassifiedAdState, ClassifiedAdText, ClassifiedAdTitle, CurrencyCode, Price,
    UserId,
};

fn fresh_ad() -> ClassifiedAd {
    ClassifiedAd::new(ClassifiedAdId::new(0x11), UserId::new(0x22))
}

fn euros(amount: i64) -> Price {
    Price::from_decimal(amount, Some(CurrencyCode::EUR), &FakeCurrencyLookup).unwrap()
}

#[test]
fn new_ad_starts_inactive_with_nothing_set() {
    let ad = fresh_ad();
    assert_eq!(ad.state(), ClassifiedAdState::InActive);
    assert_eq!(ad.id().unwrap().value(), 0x11);
    assert!(ad.title().is_none());
    assert!(ad.text().is_none());
    assert!(ad.price().is_none());
    assert!(ad.changes().is_empty());
}

#[test]
fn can_publish_an_ad() {
    let mut ad = fresh_ad();
    ad.set_title(ClassifiedAdTitle::new(String::from("Selling bike")).unwrap())
        .unwrap();
    ad.set_text(ClassifiedAdText::new(String::from("Barely used")))
        .unwrap();
    // 100.00 EUR.
    ad.update_price(euros(1000000)).unwrap();
    ad.request_to_publish().unwrap();

    assert_eq!(ad.state(), ClassifiedAdState::PendingReview);
    assert_eq!(ad.title().unwrap().value(), "Selling bike");
    assert_eq!(ad.text().unwrap().value(), "Barely used");
    assert_eq!(ad.price().unwrap().money().amount, 1000000);
    assert_eq!(ad.changes().len(), 4);
    assert!(matches!(ad.changes()[0], ClassifiedAdEvents::TitleChanged(_)));
    assert!(matches!(ad.changes()[1], ClassifiedAdEvents::TextUpdated(_)));
    assert!(matches!(ad.changes()[2], ClassifiedAdEvents::PriceUpdated(_)));
    assert!(matches!(ad.changes()[3], ClassifiedAdEvents::SentForReview(_)));
}

#[test]
fn publish_without_title_fails() {
    let mut ad = fresh_ad();
    assert_eq!(ad.request_to_publish(), Err(DomainError::EmptyTitle));
    assert_eq!(ad.state(), ClassifiedAdState::InActive);
    assert!(ad.changes().is_empty());
}

#[test]
fn publish_without_text_fails() {
    let mut ad = fresh_ad();
    ad.set_title(ClassifiedAdTitle::new(String::from("Selling bike")).unwrap())
        .unwrap();
    assert_eq!(ad.request_to_publish(), Err(DomainError::EmptyText));
    assert_eq!(ad.state(), ClassifiedAdState::InActive);
}

#[test]
fn publish_without_price_fails() {
    let mut ad = fresh_ad();
    ad.set_title(ClassifiedAdTitle::new(String::from("Selling bike")).unwrap())
        .unwrap();
    ad.set_text(ClassifiedAdText::new(String::from("Barely used")))
        .unwrap();
    assert_eq!(ad.request_to_publish(), Err(DomainError::ZeroPrice));
    assert_eq!(ad.state(), ClassifiedAdState::InActive);
    assert_eq!(ad.changes().len(), 2);
}

#[test]
fn publish_with_zero_price_fails() {
    let mut ad = fresh_ad();
    ad.set_title(ClassifiedAdTitle::new(String::from("Selling bike")).unwrap())
        .unwrap();
    ad.set_text(ClassifiedAdText::new(String::from("Barely used")))
        .unwrap();
    ad.update_price(Price::from_decimal(0, None, &FakeCurrencyLookup).unwrap())
        .unwrap();
    assert_eq!(ad.request_to_publish(), Err(DomainError::ZeroPrice));
    assert_eq!(ad.state(), ClassifiedAdState::InActive);
}

#[test]
fn overlong_title_is_rejected_at_construction() {
    let long_title = "x".repeat(101);
    assert!(matches!(
        ClassifiedAdTitle::new(long_title),
        Err(DomainError::TitleTooLong)
    ));
    // Exactly 100 characters is still fine.
    assert!(ClassifiedAdTitle::new("x".repeat(100)).is_ok());
}

#[test]
fn overlong_title_event_is_never_recorded() {
    let mut ad = fresh_ad();
    let event = ClassifiedAdEvents::TitleChanged(ClassifiedAdTitleChanged {
        id: ad.id().unwrap().value(),
        title: "x".repeat(101),
    });
    assert_eq!(ad.apply(event), Err(DomainError::TitleTooLong));
    assert!(ad.title().is_none());
    assert!(ad.changes().is_empty());
}

#[test]
fn negative_price_event_is_rejected() {
    let mut ad = fresh_ad();
    let event = ClassifiedAdEvents::PriceUpdated(ClassifiedAdPriceUpdated {
        id: ad.id().unwrap().value(),
        price: -10000,
    });
    assert_eq!(ad.apply(event), Err(DomainError::NegativeAmount));
    assert!(ad.price().is_none());
    assert!(ad.changes().is_empty());
}

#[test]
fn update_price_rebuilds_in_default_currency() {
    let mut ad = fresh_ad();
    // The price event carries the raw amount alone, so the projection
    // rebuilds the price in the default currency.
    ad.update_price(euros(12300)).unwrap();
    let rebuilt = ad.price().unwrap();
    assert_eq!(rebuilt.money().amount, 12300);
    assert_eq!(rebuilt.money().currency_code, CurrencyCode::EUR);
}

#[test]
fn created_event_resets_identity_and_state() {
    let mut ad = fresh_ad();
    ad.set_title(ClassifiedAdTitle::new(String::from("Selling bike")).unwrap())
        .unwrap();
    let event = ClassifiedAdEvents::Created(ClassifiedAdCreated { id: 0x33, owner_id: 0x44 });
    assert_eq!(ad.apply(event), Ok(()));
    assert_eq!(ad.id().unwrap().value(), 0x33);
    assert_eq!(ad.state(), ClassifiedAdState::InActive);
    // The projected fields other than identity and state are untouched.
    assert_eq!(ad.title().unwrap().value(), "Selling bike");
    assert_eq!(ad.changes().len(), 2);
}

#[test]
fn missing_id_is_reported() {
    let mut ad = fresh_ad();
    ad.uuid = None;
    assert_eq!(
        ad.set_title(ClassifiedAdTitle::new(String::from("Selling bike")).unwrap()),
        Err(DomainError::MissingId)
    );
    assert_eq!(ad.id(), Err(DomainError::MissingId));
}

#[test]
fn ensure_valid_state_is_stable() {
    let mut ad = fresh_ad();
    // A fresh ad is valid, and re-checking reports the same outcome.
    assert_eq!(ad.ensure_valid_state(), Ok(()));
    assert_eq!(ad.ensure_valid_state(), Ok(()));

    // Forcing the ad into review without its required fields projects the
    // state change but rejects the event; the check then stays negative
    // until the next projection.
    let event = ClassifiedAdEvents::SentForReview(
        marketplace::events::ClassifiedAdSentForReview {
            id: ad.id().unwrap().value(),
        },
    );
    assert_eq!(
        ad.apply(event),
        Err(DomainError::InvalidState(ClassifiedAdState::PendingReview))
    );
    assert_eq!(
        ad.ensure_valid_state(),
        Err(DomainError::InvalidState(ClassifiedAdState::PendingReview))
    );
    assert_eq!(
        ad.ensure_valid_state(),
        Err(DomainError::InvalidState(ClassifiedAdState::PendingReview))
    );
    // The fields were mutated before validation, but no event was stored.
    assert_eq!(ad.state(), ClassifiedAdState::PendingReview);
    assert!(ad.changes().is_empty());
}
