use vstd::prelude::*;

use crate::errors::DomainError;
use crate::events::{
    AdEventView, ClassifiedAdEvents, ClassifiedAdPriceUpdated, ClassifiedAdSentForReview,
    ClassifiedAdTextUpdated, ClassifiedAdTitleChanged,
};
use crate::framework::{option_view, AggregateRoot};
use crate::ports::ICurrencyLookup;
use crate::simple_types::{
    ClassifiedAdId, ClassifiedAdState, ClassifiedAdText, ClassifiedAdTitle, CurrencyCode,
    CurrencyDetails, Money, Price, UserId,
};

verus! {

/// The mathematical state of a classified ad: each optional field as a plain
/// value, the lifecycle state, and the pending-changes list.
#[verifier::ext_equal]
pub struct AdView {
    pub id: Option<u128>,
    pub owner_id: Option<u128>,
    pub approved_by: Option<u128>,
    pub title: Option<Seq<char>>,
    pub text: Option<Seq<char>>,
    pub price: Option<Money>,
    pub state: ClassifiedAdState,
    pub changes: Seq<AdEventView>,
}

/// Is this field combination legal for the ad's current state?
///
/// Every state needs an id and an owner; `PendingReview` additionally needs
/// a title, a text and a non-zero price, and `Active` also an approver.
pub open spec fn ad_valid(v: AdView) -> bool {
    &&& v.id is Some
    &&& v.owner_id is Some
    &&& match v.state {
        ClassifiedAdState::PendingReview => {
            &&& v.title is Some
            &&& v.text is Some
            &&& v.price matches Some(p) && p.amount != 0
        },
        ClassifiedAdState::Active => {
            &&& v.title is Some
            &&& v.text is Some
            &&& v.price matches Some(p) && p.amount != 0
            &&& v.approved_by is Some
        },
        _ => true,
    }
}

/// The error reported when a field combination is illegal for its state.
pub open spec fn ad_invalid_error(v: AdView) -> DomainError {
    DomainError::InvalidState(v.state)
}

/// How one event projects onto the ad's state.
///
/// `Created` sets owner and id and forces `InActive`; `TitleChanged`,
/// `TextUpdated` and `PriceUpdated` set the corresponding field, revalidating
/// the payload (an overlong title or a negative amount rejects the event and
/// leaves the state untouched); `SentForReview` moves to `PendingReview`.  A
/// rebuilt price is taken in the default currency, as the event carries the
/// raw amount alone.
pub open spec fn ad_step(v: AdView, e: AdEventView) -> Result<AdView, DomainError> {
    match e {
        AdEventView::Created { id, owner_id } => Ok(
            AdView {
                id: Some(id),
                owner_id: Some(owner_id),
                state: ClassifiedAdState::InActive,
                ..v
            },
        ),
        AdEventView::TextUpdated { ad_text, .. } => Ok(AdView { text: Some(ad_text), ..v }),
        AdEventView::TitleChanged { title, .. } => if title.len() > 100 {
            Err(DomainError::TitleTooLong)
        } else {
            Ok(AdView { title: Some(title), ..v })
        },
        AdEventView::PriceUpdated { price, .. } => if price < 0 {
            Err(DomainError::NegativeAmount)
        } else {
            Ok(
                AdView {
                    price: Some(Money { amount: price, currency_code: CurrencyCode::EUR }),
                    ..v
                },
            )
        },
        AdEventView::SentForReview { .. } => Ok(
            AdView { state: ClassifiedAdState::PendingReview, ..v },
        ),
    }
}

/// The state with one more pending event.
pub open spec fn ad_record(v: AdView, e: AdEventView) -> AdView {
    AdView { changes: v.changes.push(e), ..v }
}

/// The outcome of running one event through the mutation pipeline: the
/// command's result, and the ad's state after the call (which, by the
/// mutation-before-validation ordering, is the projected state even when the
/// invariant check fails).
pub open spec fn ad_apply(v: AdView, e: AdEventView) -> (Result<(), DomainError>, AdView) {
    match ad_step(v, e) {
        Err(err) => (Err(err), v),
        Ok(next) => if ad_valid(next) {
            (Ok(()), ad_record(next, e))
        } else {
            (Err(ad_invalid_error(next)), next)
        },
    }
}

/// The outcome of `set_title` on an ad in state `v`.
pub open spec fn spec_set_title(v: AdView, title: Seq<char>) -> (Result<(), DomainError>, AdView) {
    match v.id {
        Some(ad_id) => ad_apply(v, AdEventView::TitleChanged { id: ad_id, title }),
        None => (Err(DomainError::MissingId), v),
    }
}

/// The outcome of `set_text` on an ad in state `v`.
pub open spec fn spec_set_text(v: AdView, ad_text: Seq<char>) -> (Result<(), DomainError>, AdView) {
    match v.id {
        Some(ad_id) => ad_apply(v, AdEventView::TextUpdated { id: ad_id, ad_text }),
        None => (Err(DomainError::MissingId), v),
    }
}

/// The outcome of `update_price` on an ad in state `v`.
pub open spec fn spec_update_price(v: AdView, amount: i64) -> (Result<(), DomainError>, AdView) {
    match v.id {
        Some(ad_id) => ad_apply(v, AdEventView::PriceUpdated { id: ad_id, price: amount }),
        None => (Err(DomainError::MissingId), v),
    }
}

/// The outcome of `request_to_publish` on an ad in state `v`: the
/// preconditions (title present, text present, price present and non-zero)
/// are checked before any event is raised, so a precondition failure leaves
/// the state untouched.
pub open spec fn spec_request_to_publish(v: AdView) -> (Result<(), DomainError>, AdView) {
    if v.title is None {
        (Err(DomainError::EmptyTitle), v)
    } else if v.text is None {
        (Err(DomainError::EmptyText), v)
    } else if !(v.price matches Some(p) && p.amount != 0) {
        (Err(DomainError::ZeroPrice), v)
    } else {
        match v.id {
            Some(ad_id) => ad_apply(v, AdEventView::SentForReview { id: ad_id }),
            None => (Err(DomainError::MissingId), v),
        }
    }
}

/// The classified-ad aggregate: a state machine over optional fields,
/// mutated exclusively through the aggregate-root protocol.
#[derive(Clone)]
pub struct ClassifiedAd {
    _owner_id: Option<UserId>,
    _approved_by: Option<UserId>,
    _text: Option<ClassifiedAdText>,
    _title: Option<ClassifiedAdTitle>,
    _price: Option<Price>,
    _state: ClassifiedAdState,
    _changes: Vec<ClassifiedAdEvents>,
    pub uuid: Option<ClassifiedAdId>,
}

impl View for ClassifiedAd {
    type V = AdView;

    closed spec fn view(&self) -> AdView {
        AdView {
            id: option_view(self.uuid),
            owner_id: option_view(self._owner_id),
            approved_by: option_view(self._approved_by),
            title: option_view(self._title),
            text: option_view(self._text),
            price: option_view(self._price),
            state: self._state,
            changes: self._changes@.map_values(|e: ClassifiedAdEvents| e@),
        }
    }
}

impl AggregateRoot for ClassifiedAd {
    type Event = ClassifiedAdEvents;

    open spec fn valid(v: AdView) -> bool {
        ad_valid(v)
    }

    open spec fn invalid_error(v: AdView) -> DomainError {
        ad_invalid_error(v)
    }

    open spec fn step(v: AdView, event: AdEventView) -> Result<AdView, DomainError> {
        ad_step(v, event)
    }

    open spec fn record(v: AdView, event: AdEventView) -> AdView {
        ad_record(v, event)
    }

    fn ensure_valid_state(&self) -> (r: Result<(), DomainError>) {
        let valid = self.uuid.is_some() && self._owner_id.is_some() && match self._state {
            ClassifiedAdState::PendingReview => self._title.is_some() && self._text.is_some()
                && match &self._price {
                Some(p) => !p.is_zero(),
                None => false,
            },
            ClassifiedAdState::Active => self._title.is_some() && self._text.is_some()
                && match &self._price {
                Some(p) => !p.is_zero(),
                None => false,
            } && self._approved_by.is_some(),
            _ => true,
        };
        if !valid {
            return Err(DomainError::InvalidState(self._state));
        }
        Ok(())
    }

    fn when(&mut self, event: &ClassifiedAdEvents) -> (r: Result<(), DomainError>) {
        match event {
            ClassifiedAdEvents::Created(e) => {
                self._owner_id = Some(UserId::new(e.owner_id));
                self.uuid = Some(ClassifiedAdId::new(e.id));
                self._state = ClassifiedAdState::InActive;
                proof {
                    assert(self@ =~= ad_step(old(self)@, event@)->Ok_0);
                }
                Ok(())
            },
            ClassifiedAdEvents::TextUpdated(e) => {
                self._text = Some(ClassifiedAdText::new(e.ad_text.clone()));
                proof {
                    assert(self@ =~= ad_step(old(self)@, event@)->Ok_0);
                }
                Ok(())
            },
            ClassifiedAdEvents::TitleChanged(e) => match ClassifiedAdTitle::new(e.title.clone()) {
                Ok(t) => {
                    self._title = Some(t);
                    proof {
                        assert(self@ =~= ad_step(old(self)@, event@)->Ok_0);
                    }
                    Ok(())
                },
                Err(err) => Err(err),
            },
            ClassifiedAdEvents::PriceUpdated(e) => match Price::from_decimal(
                e.price,
                None,
                &FakeCurrencyLookup,
            ) {
                Ok(p) => {
                    self._price = Some(p);
                    proof {
                        assert(self@ =~= ad_step(old(self)@, event@)->Ok_0);
                    }
                    Ok(())
                },
                Err(err) => Err(err),
            },
            ClassifiedAdEvents::SentForReview(_e) => {
                self._state = ClassifiedAdState::PendingReview;
                proof {
                    assert(self@ =~= ad_step(old(self)@, event@)->Ok_0);
                }
                Ok(())
            },
        }
    }

    fn store_changes(&mut self, event: ClassifiedAdEvents) -> (r: Result<(), DomainError>) {
        let ghost ev = event@;
        self._changes.push(event);
        proof {
            assert(self@.changes =~= old(self)@.changes.push(ev));
            assert(self@ =~= ad_record(old(self)@, ev));
        }
        Ok(())
    }
}

impl ClassifiedAd {
    /// A fresh ad: identified, owned, `InActive`, with title, text and price
    /// all unset and no pending changes.
    pub fn new(classified_ad_id: ClassifiedAdId, owner_id: UserId) -> (ad: Self)
        ensures
            ad@ == (AdView {
                id: Some(classified_ad_id@),
                owner_id: Some(owner_id@),
                approved_by: None,
                title: None,
                text: None,
                price: None,
                state: ClassifiedAdState::InActive,
                changes: Seq::<AdEventView>::empty(),
            }),
    {
        let ad = ClassifiedAd {
            uuid: Some(classified_ad_id),
            _owner_id: Some(owner_id),
            _approved_by: None,
            _text: None,
            _title: None,
            _price: None,
            _state: ClassifiedAdState::InActive,
            _changes: Vec::new(),
        };
        proof {
            assert(ad@ =~= (AdView {
                id: Some(classified_ad_id@),
                owner_id: Some(owner_id@),
                approved_by: None,
                title: None,
                text: None,
                price: None,
                state: ClassifiedAdState::InActive,
                changes: Seq::<AdEventView>::empty(),
            }));
        }
        ad
    }

    /// The ad's identifier, or `MissingId` for an ad in the illegal
    /// id-less state.
    pub fn id(&self) -> (r: Result<ClassifiedAdId, DomainError>)
        ensures
            match self@.id {
                Some(i) => r matches Ok(x) && x@ == i,
                None => r == Err::<ClassifiedAdId, DomainError>(DomainError::MissingId),
            },
    {
        match self.uuid {
            Some(i) => Ok(i),
            None => Err(DomainError::MissingId),
        }
    }

    /// The current title, if one was set.
    pub fn title(&self) -> (r: Option<ClassifiedAdTitle>)
        ensures
            match self@.title {
                Some(t) => r matches Some(x) && x@ == t,
                None => r is None,
            },
    {
        match &self._title {
            Some(t) => Some(t.clone()),
            None => None,
        }
    }

    /// The current text, if one was set.
    pub fn text(&self) -> (r: Option<ClassifiedAdText>)
        ensures
            match self@.text {
                Some(t) => r matches Some(x) && x@ == t,
                None => r is None,
            },
    {
        match &self._text {
            Some(t) => Some(t.clone()),
            None => None,
        }
    }

    /// The ad's current lifecycle state.
    pub fn state(&self) -> (r: ClassifiedAdState)
        ensures
            r == self@.state,
    {
        self._state
    }

    /// The current price, if one was set.
    pub fn price(&self) -> (r: Option<Price>)
        ensures
            match self@.price {
                Some(m) => r matches Some(p) && p@ == m,
                None => r is None,
            },
    {
        self._price
    }

    /// The not-yet-persisted events, in the order they were accepted.
    pub fn changes(&self) -> (r: &Vec<ClassifiedAdEvents>)
        ensures
            r@.map_values(|e: ClassifiedAdEvents| e@) == self@.changes,
    {
        &self._changes
    }

    /// Changes the title to an already validated value by raising
    /// `TitleChanged` through the mutation pipeline.
    pub fn set_title(&mut self, title: ClassifiedAdTitle) -> (r: Result<(), DomainError>)
        ensures
            ({
                let outcome = spec_set_title(old(self)@, title@);
                r == outcome.0 && final(self)@ == outcome.1
            }),
    {
        let ad_id = match self.id() {
            Ok(i) => i,
            Err(e) => {
                return Err(e);
            },
        };
        let event = ClassifiedAdEvents::TitleChanged(
            ClassifiedAdTitleChanged { id: ad_id.value(), title: title.value() },
        );
        self.apply(event)
    }

    /// Replaces the text by raising `TextUpdated` through the mutation
    /// pipeline.
    pub fn set_text(&mut self, text: ClassifiedAdText) -> (r: Result<(), DomainError>)
        ensures
            ({
                let outcome = spec_set_text(old(self)@, text@);
                r == outcome.0 && final(self)@ == outcome.1
            }),
    {
        let ad_id = match self.id() {
            Ok(i) => i,
            Err(e) => {
                return Err(e);
            },
        };
        let event = ClassifiedAdEvents::TextUpdated(
            ClassifiedAdTextUpdated { id: ad_id.value(), ad_text: text.value() },
        );
        self.apply(event)
    }

    /// Updates the price by raising `PriceUpdated` through the mutation
    /// pipeline; the event carries the underlying amount, which the
    /// projection revalidates and rebuilds in the default currency.
    pub fn update_price(&mut self, price: Price) -> (r: Result<(), DomainError>)
        ensures
            ({
                let outcome = spec_update_price(old(self)@, price@.amount);
                r == outcome.0 && final(self)@ == outcome.1
            }),
    {
        let ad_id = match self.id() {
            Ok(i) => i,
            Err(e) => {
                return Err(e);
            },
        };
        let event = ClassifiedAdEvents::PriceUpdated(
            ClassifiedAdPriceUpdated { id: ad_id.value(), price: price.money().amount },
        );
        self.apply(event)
    }

    /// Sends the ad for review, provided a title, a text and a non-zero
    /// price were all set; a violated precondition rejects the command
    /// before any event is raised.
    pub fn request_to_publish(&mut self) -> (r: Result<(), DomainError>)
        ensures
            ({
                let outcome = spec_request_to_publish(old(self)@);
                r == outcome.0 && final(self)@ == outcome.1
            }),
    {
        if self._title.is_none() {
            return Err(DomainError::EmptyTitle);
        }
        if self._text.is_none() {
            return Err(DomainError::EmptyText);
        }
        let invalid_price = match &self._price {
            Some(p) => p.is_zero(),
            None => true,
        };
        if invalid_price {
            return Err(DomainError::ZeroPrice);
        }
        let ad_id = match self.id() {
            Ok(i) => i,
            Err(e) => {
                return Err(e);
            },
        };
        let event = ClassifiedAdEvents::SentForReview(
            ClassifiedAdSentForReview { id: ad_id.value() },
        );
        self.apply(event)
    }
}

/// A title longer than 100 characters is never recorded: the projection
/// rejects such a `TitleChanged` event, so the mutation pipeline reports
/// `TitleTooLong` and leaves the ad's fields and pending changes untouched.
pub proof fn lemma_long_title_never_recorded(v: AdView, id: u128, title: Seq<char>)
    requires
        title.len() > 100,
    ensures
        ad_step(v, AdEventView::TitleChanged { id, title }) == Err::<AdView, DomainError>(
            DomainError::TitleTooLong,
        ),
        ad_apply(v, AdEventView::TitleChanged { id, title }) == (
            Err::<(), DomainError>(DomainError::TitleTooLong),
            v,
        ),
{
}

/// `request_to_publish` succeeds exactly when a title, a text and a
/// strictly positive price are all set.  On failure the ad is left exactly
/// as it was; on success it moves to `PendingReview` with a `SentForReview`
/// event appended to the pending changes.
pub proof fn lemma_request_to_publish_succeeds_iff(v: AdView)
    requires
        v.id is Some,
        v.owner_id is Some,
        v.price matches Some(p) ==> p.amount >= 0,
    ensures
        spec_request_to_publish(v).0 is Ok <==> (v.title is Some && v.text is Some && (
        v.price matches Some(p) && p.amount > 0)),
        spec_request_to_publish(v).0 is Err ==> spec_request_to_publish(v).1 == v,
        spec_request_to_publish(v).0 is Ok ==> spec_request_to_publish(v).1.state
            == ClassifiedAdState::PendingReview,
        spec_request_to_publish(v).0 is Ok ==> spec_request_to_publish(v).1.changes
            == v.changes.push(AdEventView::SentForReview { id: v.id->0 }),
{
}

/// Validity is a pure read of the ad's current fields: checking the same
/// state twice gives the same outcome and, were it negative, the same
/// error.
pub proof fn lemma_ensure_valid_state_idempotent(v1: AdView, v2: AdView)
    requires
        v1 == v2,
    ensures
        ad_valid(v1) == ad_valid(v2),
        ad_invalid_error(v1) == ad_invalid_error(v2),
{
}

/// Appending a pending event never alters whether the state is valid:
/// the validity check reads the projected fields alone, so only a `when`
/// projection can alter its outcome.
pub proof fn lemma_valid_unaffected_by_record(v: AdView, e: AdEventView)
    ensures
        ad_valid(ad_record(v, e)) == ad_valid(v),
{
}

/// A fixed in-memory currency table: one possible implementation of the
/// currency-lookup capability, supporting EUR and AUD at two decimal places.
pub struct FakeCurrencyLookup;

impl ICurrencyLookup for FakeCurrencyLookup {
    open spec fn spec_find(&self, currency_code: CurrencyCode) -> Option<CurrencyDetails> {
        match currency_code {
            CurrencyCode::EUR => Some(
                CurrencyDetails {
                    currency_code: CurrencyCode::EUR,
                    in_use: true,
                    decimal_places: 2,
                },
            ),
            CurrencyCode::AUD => Some(
                CurrencyDetails {
                    currency_code: CurrencyCode::AUD,
                    in_use: true,
                    decimal_places: 2,
                },
            ),
        }
    }

    fn find_currency(&self, currency_code: CurrencyCode) -> (r: Result<
        CurrencyDetails,
        DomainError,
    >) {
        match currency_code {
            CurrencyCode::EUR => Ok(
                CurrencyDetails {
                    currency_code: CurrencyCode::EUR,
                    in_use: true,
                    decimal_places: 2,
                },
            ),
            CurrencyCode::AUD => Ok(
                CurrencyDetails {
                    currency_code: CurrencyCode::AUD,
                    in_use: true,
                    decimal_places: 2,
                },
            ),
        }
    }
}

} // verus!
