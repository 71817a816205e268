//! Sending, accepting and declining trade offers through
//! `steamcommunity.com`'s session-cookie endpoints: the URLs, headers,
//! form fields and offer document, and the reading of Steam's answers.
use vstd::prelude::*;
use crate::domain::steam_id::SteamId64;
use crate::error::AppError;
use crate::text::{decimal, parse_u64, push_decimal, spec_parse_u64, u64_to_decimal};

verus! {

/// TF2's app id.
pub const TF2_APP_ID: u32 = 440;

pub open spec fn new_offer_url_text() -> Seq<char> {
    "https://steamcommunity.com/tradeoffer/new/send"@
}

pub open spec fn offer_url_text(trade_offer_id: u64, action: Seq<char>) -> Seq<char> {
    "https://steamcommunity.com/tradeoffer/"@ + decimal(trade_offer_id as nat) + "/"@ + action
}

/// The endpoint a new offer is posted to.
pub fn new_offer_url() -> (r: String)
    ensures
        r@ == new_offer_url_text(),
{
    String::from_str("https://steamcommunity.com/tradeoffer/new/send")
}

fn offer_url(trade_offer_id: u64, action: &str) -> (r: String)
    ensures
        r@ == offer_url_text(trade_offer_id, action@),
{
    let mut url = String::from_str("https://steamcommunity.com/tradeoffer/");
    push_decimal(&mut url, trade_offer_id);
    url.append("/");
    url.append(action);
    url
}

/// The endpoint accepting offer `trade_offer_id`.
pub fn accept_url(trade_offer_id: u64) -> (r: String)
    ensures
        r@ == offer_url_text(trade_offer_id, "accept"@),
{
    offer_url(trade_offer_id, "accept")
}

/// The endpoint declining offer `trade_offer_id`.
pub fn decline_url(trade_offer_id: u64) -> (r: String)
    ensures
        r@ == offer_url_text(trade_offer_id, "decline"@),
{
    offer_url(trade_offer_id, "decline")
}

/// The `Referer` for accepting or declining offer `trade_offer_id`: the
/// offer's own page.
pub fn offer_referer(trade_offer_id: u64) -> (r: String)
    ensures
        r@ == offer_url_text(trade_offer_id, Seq::empty()),
{
    let r = offer_url(trade_offer_id, "");
    proof {
        reveal_strlit("");
    }
    r
}

/// The `Referer` for a new offer: the new-offer page keyed by the
/// partner's 32-bit account id, as a browser would show it.
pub fn new_offer_referer(partner: SteamId64) -> (r: String)
    ensures
        r@ == "https://steamcommunity.com/tradeoffer/new/?partner="@ + decimal(
            partner.spec_account_id(),
        ),
{
    let mut url = String::from_str("https://steamcommunity.com/tradeoffer/new/?partner=");
    push_decimal(&mut url, partner.account_id() as u64);
    url
}

/// The `Cookie` header carrying the user's Steam web session.
pub fn cookie_header(session_id: &str, login_secure: &str) -> (r: String)
    ensures
        r@ == "sessionid="@ + session_id@ + "; steamLoginSecure="@ + login_secure@,
{
    let mut h = String::from_str("sessionid=");
    h.append(session_id);
    h.append("; steamLoginSecure=");
    h.append(login_secure);
    h
}

/// One asset in an offer document.
#[derive(Debug, Clone, PartialEq, Eq)]
pub struct JsonTradeOfferAsset {
    pub appid: u32,
    pub contextid: String,
    pub assetid: String,
    pub amount: u32,
}

/// One side of an offer document. Currency is never offered, so the
/// side's `currency` list is always empty and not held here.
#[derive(Debug, Clone, PartialEq, Eq)]
pub struct JsonTradeOfferSide {
    pub assets: Vec<JsonTradeOfferAsset>,
    pub ready: bool,
}

/// The offer document posted as the `json_tradeoffer` form field.
#[derive(Debug, Clone, PartialEq, Eq)]
pub struct JsonTradeOffer {
    pub newversion: bool,
    pub version: u32,
    pub me: JsonTradeOfferSide,
    pub them: JsonTradeOfferSide,
}

/// `assets` lists exactly `asset_ids`, each as one TF2 item (app 440,
/// inventory context "2").
pub open spec fn lists_tf2_assets(assets: Seq<JsonTradeOfferAsset>, asset_ids: Seq<String>) -> bool {
    &&& assets.len() == asset_ids.len()
    &&& forall|i: int|
        0 <= i < assets.len() ==> {
            &&& (#[trigger] assets[i]).appid == 440
            &&& assets[i].contextid@ == "2"@
            &&& assets[i].assetid@ == asset_ids[i]@
            &&& assets[i].amount == 1
        }
}

/// The offer-document entries for `asset_ids`.
pub fn to_json_assets(asset_ids: &Vec<String>) -> (r: Vec<JsonTradeOfferAsset>)
    ensures
        lists_tf2_assets(r@, asset_ids@),
{
    let mut out: Vec<JsonTradeOfferAsset> = Vec::new();
    let mut i: usize = 0;
    while i < asset_ids.len()
        invariant
            i <= asset_ids@.len(),
            lists_tf2_assets(out@, asset_ids@.subrange(0, i as int)),
        decreases asset_ids@.len() - i,
    {
        out.push(
            JsonTradeOfferAsset {
                appid: TF2_APP_ID,
                contextid: String::from_str("2"),
                assetid: asset_ids[i].clone(),
                amount: 1,
            },
        );
        i = i + 1;
    }
    assert(asset_ids@.subrange(0, asset_ids@.len() as int) =~= asset_ids@);
    out
}

/// The offer document giving `my_assets` for `their_assets`: format
/// version 4, neither side marked ready.
pub fn build_trade_offer(my_assets: &Vec<String>, their_assets: &Vec<String>) -> (r: JsonTradeOffer)
    ensures
        r.newversion,
        r.version == 4,
        !r.me.ready,
        !r.them.ready,
        lists_tf2_assets(r.me.assets@, my_assets@),
        lists_tf2_assets(r.them.assets@, their_assets@),
{
    JsonTradeOffer {
        newversion: true,
        version: 4,
        me: JsonTradeOfferSide { assets: to_json_assets(my_assets), ready: false },
        them: JsonTradeOfferSide { assets: to_json_assets(their_assets), ready: false },
    }
}

/// The text of each form field.
pub open spec fn form_view(fields: Seq<(String, String)>) -> Seq<(Seq<char>, Seq<char>)> {
    fields.map_values(|p: (String, String)| (p.0@, p.1@))
}

fn field(name: &str, value: &str) -> (r: (String, String))
    ensures
        r.0@ == name@,
        r.1@ == value@,
{
    (String::from_str(name), String::from_str(value))
}

/// The form posted to send an offer.
pub fn send_offer_form(session_id: &str, partner: SteamId64, message: &str, json_tradeoffer: &str) -> (r: Vec<(String, String)>)
    ensures
        form_view(r@) == seq![
            ("sessionid"@, session_id@),
            ("serverid"@, "1"@),
            ("partner"@, decimal(partner.0 as nat)),
            ("tradeoffermessage"@, message@),
            ("json_tradeoffer"@, json_tradeoffer@),
            ("trade_offer_create_params"@, "{}"@),
        ],
{
    let partner_str = partner.to_decimal();
    let mut form: Vec<(String, String)> = Vec::new();
    form.push(field("sessionid", session_id));
    form.push(field("serverid", "1"));
    form.push(field("partner", partner_str.as_str()));
    form.push(field("tradeoffermessage", message));
    form.push(field("json_tradeoffer", json_tradeoffer));
    form.push(field("trade_offer_create_params", "{}"));
    assert(form_view(form@) =~= seq![
        ("sessionid"@, session_id@),
        ("serverid"@, "1"@),
        ("partner"@, decimal(partner.0 as nat)),
        ("tradeoffermessage"@, message@),
        ("json_tradeoffer"@, json_tradeoffer@),
        ("trade_offer_create_params"@, "{}"@),
    ]);
    form
}

/// The form posted to accept offer `trade_offer_id`.
pub fn accept_offer_form(session_id: &str, trade_offer_id: u64, partner: SteamId64) -> (r: Vec<(String, String)>)
    ensures
        form_view(r@) == seq![
            ("sessionid"@, session_id@),
            ("serverid"@, "1"@),
            ("tradeofferid"@, decimal(trade_offer_id as nat)),
            ("partner"@, decimal(partner.0 as nat)),
            ("captcha"@, Seq::<char>::empty()),
        ],
{
    let id_str = u64_to_decimal(trade_offer_id);
    let partner_str = partner.to_decimal();
    let mut form: Vec<(String, String)> = Vec::new();
    form.push(field("sessionid", session_id));
    form.push(field("serverid", "1"));
    form.push(field("tradeofferid", id_str.as_str()));
    form.push(field("partner", partner_str.as_str()));
    proof {
        reveal_strlit("");
        assert(""@ =~= Seq::<char>::empty());
    }
    form.push(field("captcha", ""));
    assert(form_view(form@) =~= seq![
        ("sessionid"@, session_id@),
        ("serverid"@, "1"@),
        ("tradeofferid"@, decimal(trade_offer_id as nat)),
        ("partner"@, decimal(partner.0 as nat)),
        ("captcha"@, Seq::<char>::empty()),
    ]);
    form
}

/// How Steam's answer to a send request is read: an error text wins;
/// otherwise the new offer's id must be present and a decimal `u64`.
pub open spec fn spec_send_offer_outcome(tradeofferid: Option<Seq<char>>, str_error: Option<Seq<char>>) -> Option<u64> {
    match str_error {
        Some(_) => None,
        None => match tradeofferid {
            None => None,
            Some(id) => match spec_parse_u64(id) {
                Ok(v) => Some(v),
                Err(_) => None,
            },
        },
    }
}

pub fn send_offer_outcome(tradeofferid: Option<String>, str_error: Option<String>) -> (r: Result<u64, AppError>)
    ensures
        match spec_send_offer_outcome(
            match tradeofferid { Some(s) => Some(s@), None => None },
            match str_error { Some(s) => Some(s@), None => None },
        ) {
            Some(v) => r == Ok::<u64, AppError>(v),
            None => r matches Err(AppError::Network(_)),
        },
        str_error matches Some(e) ==> r matches Err(AppError::Network(m)) && m@ == "Steam rejected the trade offer: "@ + e@,
{
    if let Some(err) = str_error {
        let mut m = String::from_str("Steam rejected the trade offer: ");
        m.append(err.as_str());
        return Err(AppError::Network(m));
    }
    let id = match tradeofferid {
        Some(id) => id,
        None => {
            return Err(AppError::Network(String::from_str("Steam did not return a trade offer id")));
        },
    };
    match parse_u64(id.as_str()) {
        Ok(v) => Ok(v),
        Err(e) => {
            let mut m = String::from_str("invalid trade offer id from Steam: ");
            let detail = e.message();
            m.append(detail.as_str());
            Err(AppError::Network(m))
        },
    }
}

/// Accept/decline answer with a 2xx status but an error text in its body:
/// Steam refused the action.
pub fn steam_rejection(str_error: Option<String>) -> (r: Result<(), AppError>)
    ensures
        match str_error {
            None => r is Ok,
            Some(e) => r matches Err(AppError::Network(m)) && m@ == "Steam rejected the request: "@ + e@,
        },
{
    match str_error {
        None => Ok(()),
        Some(err) => {
            let mut m = String::from_str("Steam rejected the request: ");
            m.append(err.as_str());
            Err(AppError::Network(m))
        },
    }
}

/// An offer id read back from its accept URL's decimal spelling is the id
/// itself: ids survive the round trip through text.
pub proof fn lemma_offer_id_text_roundtrip(trade_offer_id: u64)
    ensures
        spec_send_offer_outcome(Some(decimal(trade_offer_id as nat)), None) == Some(trade_offer_id),
{
    crate::text::lemma_parse_decimal_roundtrip(trade_offer_id);
}

} // verus!
