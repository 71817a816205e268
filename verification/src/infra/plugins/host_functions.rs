//! What the capability-gated `host_*` imports decide. Each import checks
//! the capability it needs, then the plugin's rate limiter, then does its
//! work and answers with the length of the response it wrote into guest
//! memory, or with one of the negative codes below.
use vstd::prelude::*;
use crate::domain::item::{ItemKey, KillstreakTier, Quality};
use crate::domain::plugin::Capability;
use vstd::utf8::{decode_utf8, valid_utf8};

verus! {

/// The plugin lacks the capability the import needs.
pub const CAP_DENIED: i32 = -1;

/// The plugin exceeded its rate limit.
pub const RATE_LIMITED: i32 = -2;

/// The import failed for a reason of its own.
pub const INTERNAL_ERROR: i32 = -3;

/// What a `host_*` import is about to do, as far as capabilities go.
#[derive(Debug, Clone, Copy, PartialEq, Eq)]
pub enum HostAccess<'a> {
    /// `host_market_price_daily`.
    MarketRead,
    /// `host_inventory_list`.
    InventoryRead,
    /// `host_notify_send`.
    NotifySend,
    /// `host_http_fetch` of a URL with this host.
    HttpHost(&'a str),
}

/// Whether one granted capability covers the access.
pub open spec fn permits(c: Capability, access: HostAccess) -> bool {
    match access {
        HostAccess::MarketRead => c is MarketRead,
        HostAccess::InventoryRead => c is InventoryRead,
        HostAccess::NotifySend => c is NotifySend,
        HostAccess::HttpHost(host) => c.spec_allows_http_host(host@),
    }
}

/// Whether some granted capability covers the access.
pub fn has_capability(granted: &Vec<Capability>, access: HostAccess) -> (r: bool)
    ensures
        r == exists|i: int| 0 <= i < granted@.len() && permits(#[trigger] granted@[i], access),
{
    let mut i: usize = 0;
    while i < granted.len()
        invariant
            i <= granted@.len(),
            forall|j: int| 0 <= j < i ==> !permits(#[trigger] granted@[j], access),
        decreases granted@.len() - i,
    {
        let c = &granted[i];
        let ok = match access {
            HostAccess::MarketRead => matches!(c, Capability::MarketRead),
            HostAccess::InventoryRead => matches!(c, Capability::InventoryRead),
            HostAccess::NotifySend => matches!(c, Capability::NotifySend),
            HostAccess::HttpHost(host) => c.allows_http_host(host),
        };
        if ok {
            assert(permits(granted@[i as int], access));
            return true;
        }
        i = i + 1;
    }
    false
}

/// A `host_*` import as far as its capability check goes.
#[derive(Debug, Clone, Copy, PartialEq, Eq)]
pub enum HostImport<'a> {
    /// `host_log`: diagnostic only, so it needs no capability.
    Log,
    /// Any other import, with what it is about to access.
    Access(HostAccess<'a>),
}

/// Why an import is refused before its rate limiter is asked, if it is:
/// `CAP_DENIED` when no granted capability covers the access. `host_log`
/// needs no capability.
pub open spec fn spec_capability_refusal(granted: Seq<Capability>, import: HostImport) -> Option<
    i32,
> {
    match import {
        HostImport::Log => None,
        HostImport::Access(access) => if exists|i: int|
            0 <= i < granted.len() && permits(#[trigger] granted[i], access) {
            None
        } else {
            Some(CAP_DENIED)
        },
    }
}

/// The first check every import makes, before its rate limiter: answer
/// `CAP_DENIED` when no granted capability covers the access, otherwise go
/// on (`None`). `host_log` always goes on.
pub fn capability_gate(granted: &Vec<Capability>, import: HostImport) -> (r: Option<i32>)
    ensures
        r == spec_capability_refusal(granted@, import),
{
    match import {
        HostImport::Log => None,
        HostImport::Access(access) => if has_capability(granted, access) {
            None
        } else {
            Some(CAP_DENIED)
        },
    }
}

/// What an import does next.
#[derive(Debug, Clone, Copy, PartialEq, Eq, Structural)]
pub enum ImportStep {
    /// Stop and answer the guest with this code.
    Answer(i32),
    /// Ask the plugin's rate limiter for a permit.
    AskLimiter,
    /// Do the import's work.
    Proceed,
}

/// An import's checks in order: its capability check (`refusal`), then
/// its rate limiter (`limiter_allows`, `None` until asked), then its work.
pub open spec fn spec_import_step(refusal: Option<i32>, limiter_allows: Option<bool>) -> ImportStep {
    match refusal {
        Some(code) => ImportStep::Answer(code),
        None => match limiter_allows {
            None => ImportStep::AskLimiter,
            Some(false) => ImportStep::Answer(RATE_LIMITED),
            Some(true) => ImportStep::Proceed,
        },
    }
}

pub fn import_step(refusal: Option<i32>, limiter_allows: Option<bool>) -> (r: ImportStep)
    ensures
        r == spec_import_step(refusal, limiter_allows),
{
    match refusal {
        Some(code) => ImportStep::Answer(code),
        None => match limiter_allows {
            None => ImportStep::AskLimiter,
            Some(false) => ImportStep::Answer(RATE_LIMITED),
            Some(true) => ImportStep::Proceed,
        },
    }
}

/// Every import checks its capability first: a plugin lacking it is
/// answered `CAP_DENIED` without its rate limiter being asked; otherwise
/// the limiter is asked, a refusal is answered `RATE_LIMITED`, and the
/// work is done only after a permit.
pub proof fn lemma_import_order(granted: Seq<Capability>, import: HostImport, limiter_allows: Option<bool>)
    ensures
        spec_capability_refusal(granted, import) is Some ==> spec_import_step(
            spec_capability_refusal(granted, import),
            limiter_allows,
        ) == ImportStep::Answer(CAP_DENIED),
        spec_capability_refusal(granted, import) is None ==> spec_import_step(
            spec_capability_refusal(granted, import),
            None,
        ) == ImportStep::AskLimiter,
        spec_import_step(spec_capability_refusal(granted, import), limiter_allows)
            == ImportStep::Proceed ==> spec_capability_refusal(granted, import) is None
            && limiter_allows == Some(true),
        spec_capability_refusal(granted, import) is None ==> spec_import_step(
            spec_capability_refusal(granted, import),
            Some(false),
        ) == ImportStep::Answer(RATE_LIMITED),
        spec_capability_refusal(granted, HostImport::Log) is None,
{
}

/// The host of `url` as `url::Url::host_str` gives it after
/// `url::Url::parse`; `None` when parsing fails or the URL has no host.
pub uninterp spec fn url_host(url: Seq<char>) -> Option<Seq<char>>;

/// `url::Url::parse` followed by `host_str`.
#[verifier::external_body]
fn parse_url_host(url: &str) -> (r: Option<String>)
    ensures
        match r {
            Some(h) => url_host(url@) == Some(h@),
            None => url_host(url@) is None,
        },
{
    match ::url::Url::parse(url) {
        Ok(parsed) => match parsed.host_str() {
            Some(h) => Some(h.to_string()),
            None => None,
        },
        Err(_) => None,
    }
}

/// `String::from_utf8`: the text the bytes encode, when they are valid
/// UTF-8.
#[verifier::external_body]
fn string_from_utf8(bytes: Vec<u8>) -> (r: Option<String>)
    ensures
        r is Some <==> valid_utf8(bytes@),
        r is Some ==> r->0@ == decode_utf8(bytes@),
{
    String::from_utf8(bytes).ok()
}

/// Whether some granted capability lets a plugin fetch from `host`.
pub open spec fn grants_http_host(granted: Seq<Capability>, host: Seq<char>) -> bool {
    exists|i: int| 0 <= i < granted.len() && (#[trigger] granted[i]).spec_allows_http_host(host)
}

/// What `host_http_fetch` decides before asking the rate limiter, given
/// the URL bytes read from guest memory (`None` when they could not be
/// read): the URL to fetch, or the code to answer with. Unreadable,
/// non-UTF-8, unparsable or host-less URLs are internal errors; a host no
/// granted `Http` capability lists exactly is denied.
pub fn http_fetch_target(granted: &Vec<Capability>, url_bytes: Option<Vec<u8>>) -> (r: Result<
    String,
    i32,
>)
    ensures
        match url_bytes {
            None => r == Err::<String, i32>(INTERNAL_ERROR),
            Some(b) => if !valid_utf8(b@) {
                r == Err::<String, i32>(INTERNAL_ERROR)
            } else {
                match url_host(decode_utf8(b@)) {
                    None => r == Err::<String, i32>(INTERNAL_ERROR),
                    Some(h) => if grants_http_host(granted@, h) {
                        r matches Ok(u) && u@ == decode_utf8(b@)
                    } else {
                        r == Err::<String, i32>(CAP_DENIED)
                    },
                }
            },
        },
{
    let bytes = match url_bytes {
        Some(b) => b,
        None => {
            return Err(INTERNAL_ERROR);
        },
    };
    let url = match string_from_utf8(bytes) {
        Some(u) => u,
        None => {
            return Err(INTERNAL_ERROR);
        },
    };
    let host = match parse_url_host(url.as_str()) {
        Some(h) => h,
        None => {
            return Err(INTERNAL_ERROR);
        },
    };
    if has_capability(granted, HostAccess::HttpHost(host.as_str())) {
        Ok(url)
    } else {
        Err(CAP_DENIED)
    }
}

/// A guest's quality number brought into `u8` range.
pub open spec fn clamp_quality(quality: i32) -> u8 {
    if quality < 0 {
        0
    } else if quality > 255 {
        255
    } else {
        quality as u8
    }
}

/// The simplified item key `host_market_price_daily` looks prices up by:
/// the defindex (negative ones read as 0) and the quality, with no
/// effect, killstreak, australium or festivizer, craftable. `None` when the
/// quality number names no quality; the import then answers 0.
pub open spec fn spec_market_price_key(defindex: i32, quality: i32) -> Option<ItemKey> {
    match Quality::spec_from_id(clamp_quality(quality)) {
        Some(q) => Some(
            ItemKey {
                defindex: if defindex < 0 {
                    0u32
                } else {
                    defindex as u32
                },
                quality: q,
                effect_id: None,
                killstreak_tier: KillstreakTier::NoKillstreak,
                australium: false,
                festivized: false,
                craftable: true,
            },
        ),
        None => None,
    }
}

pub fn market_price_key(defindex: i32, quality: i32) -> (r: Option<ItemKey>)
    ensures
        r == spec_market_price_key(defindex, quality),
{
    let q: u8 = if quality < 0 {
        0
    } else if quality > 255 {
        255
    } else {
        quality as u8
    };
    let d: u32 = if defindex < 0 {
        0
    } else {
        defindex as u32
    };
    match Quality::try_from_id(q) {
        Ok(quality) => Some(
            ItemKey {
                defindex: d,
                quality,
                effect_id: None,
                killstreak_tier: KillstreakTier::NoKillstreak,
                australium: false,
                festivized: false,
                craftable: true,
            },
        ),
        Err(_) => None,
    }
}

/// The level a plugin's log line is recorded at.
#[derive(Debug, Clone, Copy, PartialEq, Eq, Structural)]
pub enum LogLevel {
    Debug,
    Info,
    Warn,
    Error,
}

/// `host_log`'s level argument: 0 debug, 2 warn, 3 error, anything else
/// info.
pub fn log_level(level: i32) -> (r: LogLevel)
    ensures
        r == (if level == 0 {
            LogLevel::Debug
        } else if level == 2 {
            LogLevel::Warn
        } else if level == 3 {
            LogLevel::Error
        } else {
            LogLevel::Info
        }),
{
    if level == 0 {
        LogLevel::Debug
    } else if level == 2 {
        LogLevel::Warn
    } else if level == 3 {
        LogLevel::Error
    } else {
        LogLevel::Info
    }
}

/// The text `host_notify_send` posts: `[plugin: NAME] TITLE: BODY`.
pub open spec fn spec_notification_content(plugin: Seq<char>, title: Seq<char>, body: Seq<char>) -> Seq<
    char,
> {
    "[plugin: "@ + plugin + "] "@ + title + ": "@ + body
}

pub fn notification_content(plugin_name: &str, title: &str, body: &str) -> (r: String)
    ensures
        r@ == spec_notification_content(plugin_name@, title@, body@),
{
    let mut out = String::from_str("[plugin: ");
    out.append(plugin_name);
    out.append("] ");
    out.append(title);
    out.append(": ");
    out.append(body);
    out
}

} // verus!
