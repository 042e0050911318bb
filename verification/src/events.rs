use vstd::prelude::*;

verus! {

/// An immutable fact about one classified ad: the aggregate id it concerns
/// and the payload needed to reconstruct the corresponding field.
#[derive(Debug, Clone)]
pub enum ClassifiedAdEvents {
    Created(ClassifiedAdCreated),
    TextUpdated(ClassifiedAdTextUpdated),
    TitleChanged(ClassifiedAdTitleChanged),
    PriceUpdated(ClassifiedAdPriceUpdated),
    SentForReview(ClassifiedAdSentForReview),
}

/// The mathematical content of a [`ClassifiedAdEvents`] value.
#[verifier::ext_equal]
pub enum AdEventView {
    Created { id: u128, owner_id: u128 },
    TextUpdated { id: u128, ad_text: Seq<char> },
    TitleChanged { id: u128, title: Seq<char> },
    PriceUpdated { id: u128, price: i64 },
    SentForReview { id: u128 },
}

impl View for ClassifiedAdEvents {
    type V = AdEventView;

    open spec fn view(&self) -> AdEventView {
        match self {
            ClassifiedAdEvents::Created(e) => AdEventView::Created {
                id: e.id,
                owner_id: e.owner_id,
            },
            ClassifiedAdEvents::TextUpdated(e) => AdEventView::TextUpdated {
                id: e.id,
                ad_text: e.ad_text@,
            },
            ClassifiedAdEvents::TitleChanged(e) => AdEventView::TitleChanged {
                id: e.id,
                title: e.title@,
            },
            ClassifiedAdEvents::PriceUpdated(e) => AdEventView::PriceUpdated {
                id: e.id,
                price: e.price,
            },
            ClassifiedAdEvents::SentForReview(e) => AdEventView::SentForReview { id: e.id },
        }
    }
}

/// A new aggregate came into being, owned by `owner_id`.
#[derive(Debug, Clone)]
pub struct ClassifiedAdCreated {
    pub id: u128,
    pub owner_id: u128,
}

/// The ad's title was changed to a value already validated.
#[derive(Debug, Clone)]
pub struct ClassifiedAdTitleChanged {
    pub id: u128,
    pub title: String,
}

/// The ad's text was replaced.
#[derive(Debug, Clone)]
pub struct ClassifiedAdTextUpdated {
    pub id: u128,
    pub ad_text: String,
}

/// The ad's price was updated; the event carries the underlying fixed-point
/// amount alone.
#[derive(Debug, Clone)]
pub struct ClassifiedAdPriceUpdated {
    pub id: u128,
    pub price: i64,
}

/// The ad was sent for review.
#[derive(Debug, Clone)]
pub struct ClassifiedAdSentForReview {
    pub id: u128,
}

} // verus!
