//! Trade offers as `IEconService/GetTradeOffers` reports them, and the
//! selections the app makes from a response.
use vstd::prelude::*;

verus! {

/// `k_ETradeOfferStateActive`: awaiting the recipient's decision.
pub const TRADE_OFFER_STATE_ACTIVE: i32 = 2;
/// `k_ETradeOfferStateAccepted`: a completed trade.
pub const TRADE_OFFER_STATE_ACCEPTED: i32 = 3;

/// One item reference within a trade offer.
#[derive(Debug, Clone, PartialEq, Eq)]
pub struct TradeOfferAsset {
    pub assetid: String,
}

/// One trade offer.
#[derive(Debug, Clone, PartialEq, Eq)]
pub struct TradeOffer {
    pub tradeofferid: u64,
    pub accountid_other: u32,
    pub message: String,
    pub trade_offer_state: i32,
    pub items_to_give: Vec<TradeOfferAsset>,
    pub items_to_receive: Vec<TradeOfferAsset>,
    pub time_created: i64,
    /// Last state change; for an accepted offer, when the trade completed.
    pub time_updated: i64,
}

/// Offers still awaiting a decision.
pub open spec fn is_active_offer() -> spec_fn(TradeOffer) -> bool {
    |o: TradeOffer| o.trade_offer_state == 2
}

/// Offers that completed as trades at or after `since_ts`.
pub open spec fn is_completed_since(since_ts: i64) -> spec_fn(TradeOffer) -> bool {
    |o: TradeOffer| o.trade_offer_state == 3 && o.time_updated >= since_ts
}

/// Which offers a selection keeps.
enum Selection {
    Active,
    CompletedSince(i64),
}

spec fn selection_pred(sel: Selection) -> spec_fn(TradeOffer) -> bool {
    match sel {
        Selection::Active => is_active_offer(),
        Selection::CompletedSince(t) => is_completed_since(t),
    }
}

impl TradeOffer {
    pub fn is_active(&self) -> (r: bool)
        ensures
            r == (self.trade_offer_state == TRADE_OFFER_STATE_ACTIVE),
    {
        self.trade_offer_state == TRADE_OFFER_STATE_ACTIVE
    }

    pub fn is_accepted(&self) -> (r: bool)
        ensures
            r == (self.trade_offer_state == TRADE_OFFER_STATE_ACCEPTED),
    {
        self.trade_offer_state == TRADE_OFFER_STATE_ACCEPTED
    }
}

fn keeps(offer: &TradeOffer, sel: &Selection) -> (r: bool)
    ensures
        r == selection_pred(*sel)(*offer),
{
    match sel {
        Selection::Active => offer.is_active(),
        Selection::CompletedSince(t) => offer.is_accepted() && offer.time_updated >= *t,
    }
}

/// Keeps the offers that `sel` selects, in order.
fn select(offers: Vec<TradeOffer>, sel: Selection) -> (r: Vec<TradeOffer>)
    ensures
        r@ == offers@.filter(selection_pred(sel)),
{
    let ghost all = offers@;
    let ghost pred = selection_pred(sel);
    let mut offers = offers;
    let mut out: Vec<TradeOffer> = Vec::new();
    let n = offers.len();
    let mut i: usize = 0;
    while i < n
        invariant
            n == all.len(),
            i <= n,
            offers@ == all.subrange(i as int, n as int),
            pred == selection_pred(sel),
            out@ == all.subrange(0, i as int).filter(pred),
        decreases n - i,
    {
        let offer = offers.remove(0);
        proof {
            assert(offer == all[i as int]);
            assert(all.subrange(0, i + 1) =~= all.subrange(0, i as int).push(offer));
            all.subrange(0, i as int).lemma_filter_push(offer, pred);
        }
        if keeps(&offer, &sel) {
            out.push(offer);
        }
        i = i + 1;
    }
    assert(all.subrange(0, n as int) =~= all);
    out
}

/// The received offers that are still active, in response order.
pub fn active_received_offers(received: Vec<TradeOffer>) -> (r: Vec<TradeOffer>)
    ensures
        r@ == received@.filter(is_active_offer()),
{
    select(received, Selection::Active)
}

/// The completed trades among received then sent offers, in that order,
/// that were last updated at or after `since_ts`.
pub fn completed_offers(received: Vec<TradeOffer>, sent: Vec<TradeOffer>, since_ts: i64) -> (r:
    Vec<TradeOffer>)
    ensures
        r@ == (received@ + sent@).filter(is_completed_since(since_ts)),
{
    let mut all = received;
    let mut sent = sent;
    all.append(&mut sent);
    select(all, Selection::CompletedSince(since_ts))
}

/// Every offer kept by the selections has the selected state (and, for
/// completed trades, was updated at or after the cutoff), and every offer
/// of the input that qualifies is kept.
pub proof fn lemma_selection_exact(offers: Seq<TradeOffer>, o: TradeOffer, since_ts: i64)
    ensures
        offers.filter(is_active_offer()).contains(o) <==> (offers.contains(o)
            && o.trade_offer_state == 2),
        offers.filter(is_completed_since(since_ts)).contains(o) <==> (offers.contains(o)
            && o.trade_offer_state == 3 && o.time_updated >= since_ts),
{
    lemma_filter_exact(offers, is_active_offer(), o);
    lemma_filter_exact(offers, is_completed_since(since_ts), o);
}

proof fn lemma_filter_exact(s: Seq<TradeOffer>, p: spec_fn(TradeOffer) -> bool, o: TradeOffer)
    ensures
        s.filter(p).contains(o) <==> (s.contains(o) && p(o)),
{
    broadcast use vstd::seq_lib::group_filter_ensures;

    if s.filter(p).contains(o) {
        s.lemma_filter_contains_rev(p, o);
        let i = choose|i: int| 0 <= i < s.filter(p).len() && s.filter(p)[i] == o;
        assert(p(s.filter(p)[i]));
    }
    if s.contains(o) && p(o) {
        let i = choose|i: int| 0 <= i < s.len() && s[i] == o;
        assert(s.filter(p).contains(s[i]));
    }
}

} // verus!
