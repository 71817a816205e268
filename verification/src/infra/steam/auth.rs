//! Steam OpenID 2.0 login: the request URL, the callback's parameters, the
//! re-verification request, and the checks on Steam's answers. Running the
//! loopback listener and the browser happens in the application layer.
use vstd::prelude::*;
use crate::domain::steam_id::{SteamId64, SteamIdError};
use crate::error::AppError;
use vstd::utf8::encode_utf8;
use crate::text::{
    is_segment, segment_bounds, spec_starts_with, spec_trim, starts_with, str_eq, trim,
};

verus! {

/// Steam's OpenID 2.0 endpoint.
pub open spec fn steam_openid_url() -> Seq<char> {
    "https://steamcommunity.com/openid/login"@
}

/// The bytes that form-urlencoding keeps as they are: `*`, `-`, `.`, `_`,
/// ASCII digits and ASCII letters.
pub open spec fn form_unreserved(b: u8) -> bool {
    b == 0x2A || b == 0x2D || b == 0x2E || b == 0x5F || (0x30 <= b && b <= 0x39) || (0x41 <= b
        && b <= 0x5A) || (0x61 <= b && b <= 0x7A)
}

/// The uppercase hexadecimal digit for `n < 16`.
pub open spec fn hex_upper(n: u8) -> char {
    if n < 10 {
        (n + 0x30) as char
    } else {
        (n + 0x37) as char
    }
}

/// One byte form-urlencoded: kept, `+` for a space, otherwise `%XX` in
/// uppercase hexadecimal.
pub open spec fn form_encode_byte(b: u8) -> Seq<char> {
    if form_unreserved(b) {
        seq![b as char]
    } else if b == 0x20 {
        seq!['+']
    } else {
        seq!['%', hex_upper(b / 16), hex_upper(b % 16)]
    }
}

/// Bytes form-urlencoded one by one.
pub open spec fn form_encode_bytes(bytes: Seq<u8>) -> Seq<char>
    decreases bytes.len(),
{
    if bytes.len() == 0 {
        seq![]
    } else {
        form_encode_byte(bytes[0]) + form_encode_bytes(bytes.drop_first())
    }
}

/// A string form-urlencoded: its UTF-8 bytes, each encoded.
pub open spec fn form_encode(s: Seq<char>) -> Seq<char> {
    form_encode_bytes(encode_utf8(s))
}

/// One pair as `key=value`, both encoded.
pub open spec fn form_pair(p: (Seq<char>, Seq<char>)) -> Seq<char> {
    form_encode(p.0) + seq!['='] + form_encode(p.1)
}

/// The `application/x-www-form-urlencoded` serialization of `pairs`, as
/// `url::form_urlencoded::Serializer` writes it into an empty string: each
/// pair as `key=value`, the pairs joined by `&`.
pub open spec fn form_urlencoded_pairs(pairs: Seq<(Seq<char>, Seq<char>)>) -> Seq<char>
    decreases pairs.len(),
{
    if pairs.len() == 0 {
        seq![]
    } else if pairs.len() == 1 {
        form_pair(pairs[0])
    } else {
        form_urlencoded_pairs(pairs.drop_last()) + seq!['&'] + form_pair(pairs.last())
    }
}

/// The decoded query pairs of `url` in order, as `url::Url::query_pairs`
/// yields them, or `None` when `url::Url::parse` rejects `url`.
pub uninterp spec fn url_query_pairs(url: Seq<char>) -> Option<Seq<(Seq<char>, Seq<char>)>>;

/// The text of each key/value pair.
pub open spec fn str_pairs_view(pairs: Seq<(&str, &str)>) -> Seq<(Seq<char>, Seq<char>)> {
    pairs.map_values(|p: (&str, &str)| (p.0@, p.1@))
}

/// The text of each key/value pair.
pub open spec fn string_pairs_view(pairs: Seq<(String, String)>) -> Seq<(Seq<char>, Seq<char>)> {
    pairs.map_values(|p: (String, String)| (p.0@, p.1@))
}

/// `url::form_urlencoded::Serializer`: serializes `pairs` into a fresh
/// string, as `form_urlencoded_pairs` states.
#[verifier::external_body]
fn form_urlencode(pairs: &Vec<(&str, &str)>) -> (r: String)
    ensures
        r@ == form_urlencoded_pairs(str_pairs_view(pairs@)),
{
    ::url::form_urlencoded::Serializer::new(String::new()).extend_pairs(pairs.iter()).finish()
}

/// `url::Url::parse` followed by `query_pairs`, each pair decoded into
/// owned strings.
#[verifier::external_body]
fn parse_url_query_pairs(url: &str) -> (r: Option<Vec<(String, String)>>)
    ensures
        match r {
            Some(v) => url_query_pairs(url@) == Some(string_pairs_view(v@)),
            None => url_query_pairs(url@) is None,
        },
{
    match ::url::Url::parse(url) {
        Ok(parsed) => Some(parsed.query_pairs().into_owned().collect()),
        Err(_) => None,
    }
}

/// The OpenID parameters of a login request returning to `return_to`.
pub open spec fn login_params(return_to: Seq<char>, realm: Seq<char>) -> Seq<(Seq<char>, Seq<char>)> {
    seq![
        ("openid.ns"@, "http://specs.openid.net/auth/2.0"@),
        ("openid.mode"@, "checkid_setup"@),
        ("openid.return_to"@, return_to),
        ("openid.realm"@, realm),
        ("openid.identity"@, "http://specs.openid.net/auth/2.0/identifier_select"@),
        ("openid.claimed_id"@, "http://specs.openid.net/auth/2.0/identifier_select"@),
    ]
}

/// The identity Steam is asked to pick: `identifier_select`.
pub open spec fn identifier_select() -> Seq<char> {
    "http://specs.openid.net/auth/2.0/identifier_select"@
}

/// A login request declares OpenID 2.0 first, then asks for the
/// `checkid_setup` mode, returns to `return_to` under `realm`, and lets
/// Steam select both the identity and the claimed id: its query is
/// exactly these six pairs, encoded and joined by `&`, in this order.
pub proof fn lemma_login_query(return_to: Seq<char>, realm: Seq<char>)
    ensures
        form_urlencoded_pairs(login_params(return_to, realm)) == form_pair(
            ("openid.ns"@, "http://specs.openid.net/auth/2.0"@),
        ) + seq!['&'] + form_pair(("openid.mode"@, "checkid_setup"@)) + seq!['&'] + form_pair(
            ("openid.return_to"@, return_to),
        ) + seq!['&'] + form_pair(("openid.realm"@, realm)) + seq!['&'] + form_pair(
            ("openid.identity"@, identifier_select()),
        ) + seq!['&'] + form_pair(("openid.claimed_id"@, identifier_select())),
{
    let p = login_params(return_to, realm);
    reveal_with_fuel(form_urlencoded_pairs, 7);
    assert(p.drop_last().drop_last().drop_last().drop_last().drop_last() =~= seq![p[0]]);
    assert(p.drop_last().drop_last().drop_last().drop_last() =~= seq![p[0], p[1]]);
    assert(p.drop_last().drop_last().drop_last() =~= seq![p[0], p[1], p[2]]);
    assert(p.drop_last().drop_last() =~= seq![p[0], p[1], p[2], p[3]]);
    assert(p.drop_last() =~= seq![p[0], p[1], p[2], p[3], p[4]]);
}

/// The URL the system browser is sent to for login; `return_to`/`realm`
/// point back at the loopback listener.
pub fn build_login_url(return_to: &str, realm: &str) -> (r: String)
    ensures
        r@ == steam_openid_url() + "?"@ + form_urlencoded_pairs(login_params(return_to@, realm@)),
{
    let mut params: Vec<(&str, &str)> = Vec::new();
    params.push(("openid.ns", "http://specs.openid.net/auth/2.0"));
    params.push(("openid.mode", "checkid_setup"));
    params.push(("openid.return_to", return_to));
    params.push(("openid.realm", realm));
    params.push(("openid.identity", "http://specs.openid.net/auth/2.0/identifier_select"));
    params.push(("openid.claimed_id", "http://specs.openid.net/auth/2.0/identifier_select"));
    assert(str_pairs_view(params@) =~= login_params(return_to@, realm@));
    let query = form_urlencode(&params);
    let mut url = String::from_str("https://steamcommunity.com/openid/login");
    url.append("?");
    url.append(query.as_str());
    url
}

/// The query pairs of the callback request line (`/callback?...`), read
/// as a URL on the loopback host; no pairs when it is not a valid URL.
pub fn parse_callback_query(path_and_query: &str) -> (r: Vec<(String, String)>)
    ensures
        match url_query_pairs("http://127.0.0.1"@ + path_and_query@) {
            Some(pairs) => string_pairs_view(r@) == pairs,
            None => r@.len() == 0,
        },
{
    let mut full = String::from_str("http://127.0.0.1");
    full.append(path_and_query);
    match parse_url_query_pairs(full.as_str()) {
        Some(pairs) => pairs,
        None => Vec::new(),
    }
}

/// The value of `key` when the pairs are read into a map: the last pair
/// with that key wins.
pub open spec fn spec_query_value(pairs: Seq<(String, String)>, key: Seq<char>) -> Option<
    Seq<char>,
>
    decreases pairs.len(),
{
    if pairs.len() == 0 {
        None
    } else if pairs.last().0@ == key {
        Some(pairs.last().1@)
    } else {
        spec_query_value(pairs.drop_last(), key)
    }
}

/// The value of `key` among the callback's pairs (the last one wins).
pub fn query_value<'a>(pairs: &'a Vec<(String, String)>, key: &str) -> (r: Option<&'a String>)
    ensures
        match r {
            Some(v) => spec_query_value(pairs@, key@) == Some(v@),
            None => spec_query_value(pairs@, key@) is None,
        },
{
    let mut i: usize = pairs.len();
    assert(pairs@.subrange(0, i as int) =~= pairs@);
    while i > 0
        invariant
            i <= pairs@.len(),
            spec_query_value(pairs@, key@) == spec_query_value(pairs@.subrange(0, i as int), key@),
        decreases i,
    {
        assert(pairs@.subrange(0, i as int).drop_last() =~= pairs@.subrange(0, i - 1));
        if str_eq(pairs[i - 1].0.as_str(), key) {
            return Some(&pairs[i - 1].1);
        }
        i = i - 1;
    }
    None
}

/// The login was not completed unless Steam answered `openid.mode=id_res`.
pub open spec fn spec_login_cancelled(pairs: Seq<(String, String)>) -> bool {
    spec_query_value(pairs, "openid.mode"@) != Some("id_res"@)
}

pub fn is_login_cancelled(pairs: &Vec<(String, String)>) -> (r: bool)
    ensures
        r == spec_login_cancelled(pairs@),
{
    match query_value(pairs, "openid.mode") {
        Some(mode) => !str_eq(mode.as_str(), "id_res"),
        None => true,
    }
}

/// `body` holds the callback's parameters other than `openid.mode` the
/// way a map holds them: each key once, with the value the last pair with
/// that key carries, and every such key of `params` present.
pub open spec fn is_verification_body(params: Seq<(String, String)>, body: Seq<(String, String)>) -> bool {
    &&& forall|a: int, b: int|
        0 <= a < b < body.len() ==> (#[trigger] body[a]).0@ != (#[trigger] body[b]).0@
    &&& forall|j: int|
        0 <= j < body.len() ==> (#[trigger] body[j]).0@ != "openid.mode"@ && spec_query_value(
            params,
            body[j].0@,
        ) == Some(body[j].1@)
    &&& forall|i: int|
        0 <= i < params.len() && (#[trigger] params[i]).0@ != "openid.mode"@ ==> exists|j: int|
            0 <= j < body.len() && (#[trigger] body[j]).0@ == params[i].0@
}

/// The value of `key` in `pairs` is the one the last pair with that key
/// carries, so a pair appended with another key changes nothing.
proof fn lemma_query_value_push(pairs: Seq<(String, String)>, p: (String, String), key: Seq<char>)
    ensures
        spec_query_value(pairs.push(p), key) == if p.0@ == key {
            Some(p.1@)
        } else {
            spec_query_value(pairs, key)
        },
{
    assert(pairs.push(p).drop_last() =~= pairs);
}

/// Where `key` sits among the keys of `pairs`, if anywhere.
fn find_key(pairs: &Vec<(String, String)>, key: &str) -> (r: Option<usize>)
    ensures
        match r {
            Some(j) => j < pairs@.len() && pairs@[j as int].0@ == key@,
            None => forall|j: int| 0 <= j < pairs@.len() ==> (#[trigger] pairs@[j]).0@ != key@,
        },
{
    let mut j: usize = 0;
    while j < pairs.len()
        invariant
            j <= pairs@.len(),
            forall|m: int| 0 <= m < j ==> (#[trigger] pairs@[m]).0@ != key@,
        decreases pairs@.len() - j,
    {
        if str_eq(pairs[j].0.as_str(), key) {
            return Some(j);
        }
        j = j + 1;
    }
    None
}

/// The parameters re-posted to Steam to check an assertion: the
/// callback's parameters as a map holds them, without `openid.mode`, then
/// `openid.mode=check_authentication`.
pub fn verification_params(params: Vec<(String, String)>) -> (r: Vec<(String, String)>)
    ensures
        r@.len() >= 1,
        r@.last().0@ == "openid.mode"@,
        r@.last().1@ == "check_authentication"@,
        is_verification_body(params@, r@.drop_last()),
{
    let ghost all = params@;
    let mut params = params;
    let mut out: Vec<(String, String)> = Vec::new();
    let n = params.len();
    let mut i: usize = 0;
    while i < n
        invariant
            n == all.len(),
            i <= n,
            params@ == all.subrange(i as int, n as int),
            is_verification_body(all.subrange(0, i as int), out@),
        decreases n - i,
    {
        let pair = params.remove(0);
        let ghost prefix = all.subrange(0, i as int);
        let ghost old_out = out@;
        proof {
            assert(pair == all[i as int]);
            assert(all.subrange(0, i + 1) =~= prefix.push(pair));
            assert forall|k: Seq<char>| #[trigger] spec_query_value(prefix.push(pair), k) == if pair.0@
                == k {
                Some(pair.1@)
            } else {
                spec_query_value(prefix, k)
            } by {
                lemma_query_value_push(prefix, pair, k);
            }
        }
        if !str_eq(pair.0.as_str(), "openid.mode") {
            match find_key(&out, pair.0.as_str()) {
                Some(j) => {
                    out.set(j, pair);
                    proof {
                        let next = all.subrange(0, i + 1);
                        assert forall|m: int| 0 <= m < next.len() && (#[trigger] next[m]).0@
                            != "openid.mode"@ implies exists|q: int|
                            0 <= q < out@.len() && (#[trigger] out@[q]).0@ == next[m].0@ by {
                            if m < i {
                                assert(next[m] == prefix[m]);
                                let q = choose|q: int|
                                    0 <= q < old_out.len() && (#[trigger] old_out[q]).0@
                                        == prefix[m].0@;
                                assert(out@[q].0@ == old_out[q].0@);
                            } else {
                                assert(out@[j as int].0@ == next[m].0@);
                            }
                        }
                    }
                },
                None => {
                    out.push(pair);
                    proof {
                        let next = all.subrange(0, i + 1);
                        assert forall|m: int| 0 <= m < next.len() && (#[trigger] next[m]).0@
                            != "openid.mode"@ implies exists|q: int|
                            0 <= q < out@.len() && (#[trigger] out@[q]).0@ == next[m].0@ by {
                            if m < i {
                                assert(next[m] == prefix[m]);
                                let q = choose|q: int|
                                    0 <= q < old_out.len() && (#[trigger] old_out[q]).0@
                                        == prefix[m].0@;
                                assert(out@[q] == old_out[q]);
                            } else {
                                assert(out@[old_out.len() as int] == pair);
                            }
                        }
                    }
                },
            }
        } else {
            proof {
                let next = all.subrange(0, i + 1);
                assert forall|m: int| 0 <= m < next.len() && (#[trigger] next[m]).0@
                    != "openid.mode"@ implies exists|q: int|
                    0 <= q < out@.len() && (#[trigger] out@[q]).0@ == next[m].0@ by {
                    assert(m < i);
                    assert(next[m] == prefix[m]);
                }
            }
        }
        i = i + 1;
    }
    assert(all.subrange(0, n as int) =~= all);
    let ghost body = out@;
    out.push((String::from_str("openid.mode"), String::from_str("check_authentication")));
    assert(out@.drop_last() =~= body);
    out
}

/// Whether Steam's verification answer confirms the assertion: some line
/// of it, trimmed, reads `is_valid:true`.
pub open spec fn spec_assertion_confirmed(body: Seq<char>) -> bool {
    exists|i: int, j: int|
        is_segment(body, '\n', i, j) && #[trigger] spec_trim(body.subrange(i, j))
            == "is_valid:true"@
}

pub fn assertion_confirmed(body: &str) -> (r: bool)
    ensures
        r == spec_assertion_confirmed(body@),
{
    let lines = segment_bounds(body, '\n');
    let mut k: usize = 0;
    while k < lines.len()
        invariant
            k <= lines@.len(),
            forall|m: int| 0 <= m < lines@.len() ==> is_segment(body@, '\n', (#[trigger] lines@[m]).0 as int, lines@[m].1 as int),
            forall|m: int| 0 <= m < k ==> spec_trim(body@.subrange((#[trigger] lines@[m]).0 as int, lines@[m].1 as int)) != "is_valid:true"@,
        decreases lines@.len() - k,
    {
        let (i, j) = lines[k];
        let line = body.substring_char(i, j);
        if str_eq(trim(line), "is_valid:true") {
            assert(is_segment(body@, '\n', i as int, j as int));
            return true;
        }
        k = k + 1;
    }
    proof {
        assert forall|i: int, j: int| is_segment(body@, '\n', i, j) implies #[trigger] spec_trim(
            body@.subrange(i, j),
        ) != "is_valid:true"@ by {
            let m = choose|m: int|
                0 <= m < lines@.len() && (#[trigger] lines@[m]).0 as int == i && lines@[m].1 as int == j;
        }
    }
    false
}

/// The SteamID64 in the callback's `openid.claimed_id`.
pub fn claimed_steam_id(pairs: &Vec<(String, String)>) -> (r: Result<SteamId64, AppError>)
    ensures
        match spec_query_value(pairs@, "openid.claimed_id"@) {
            None => r matches Err(AppError::Config(_)),
            Some(c) => match SteamId64::spec_parse_claimed_id(c) {
                Ok(id) => r == Ok::<SteamId64, AppError>(id),
                Err(_) => r matches Err(AppError::Config(_)),
            },
        },
{
    let claimed = match query_value(pairs, "openid.claimed_id") {
        Some(c) => c,
        None => {
            return Err(AppError::Config(String::from_str("Steam login response missing claimed_id")));
        },
    };
    match SteamId64::parse_claimed_id(claimed.as_str()) {
        Ok(id) => Ok(id),
        Err(e) => {
            let mut m = String::from_str("invalid SteamID64 in login response: ");
            let detail = e.message();
            m.append(detail.as_str());
            Err(AppError::Config(m))
        },
    }
}

/// How a login ends once Steam has answered the verification request: an
/// unconfirmed assertion is refused; a confirmed one yields the claimed
/// SteamID64.
pub fn login_outcome(pairs: &Vec<(String, String)>, confirmed: bool) -> (r: Result<SteamId64, AppError>)
    ensures
        !confirmed ==> (r matches Err(AppError::Config(m)) && m@
            == "Steam login assertion failed verification"@),
        confirmed ==> match spec_query_value(pairs@, "openid.claimed_id"@) {
            None => r matches Err(AppError::Config(_)),
            Some(c) => match SteamId64::spec_parse_claimed_id(c) {
                Ok(id) => r == Ok::<SteamId64, AppError>(id),
                Err(_) => r matches Err(AppError::Config(_)),
            },
        },
{
    if !confirmed {
        return Err(AppError::Config(String::from_str("Steam login assertion failed verification")));
    }
    claimed_steam_id(pairs)
}

/// The environment variable `open` uses to hand the URL to PowerShell.
pub open spec fn open_target_var() -> Seq<char> {
    "OPEN_RS_TARGET"@
}

/// Whether a `WSLENV` entry forwards `OPEN_RS_TARGET`: its name, the part
/// before any `/flags`, is exactly that variable.
pub open spec fn names_open_target(entry: Seq<char>) -> bool {
    entry == open_target_var() || spec_starts_with(entry, open_target_var() + "/"@)
}

/// Whether some `:`-separated entry of `wslenv` forwards `OPEN_RS_TARGET`.
pub open spec fn wslenv_forwards_open_target(wslenv: Seq<char>) -> bool {
    exists|i: int, j: int|
        is_segment(wslenv, ':', i, j) && #[trigger] names_open_target(wslenv.subrange(i, j))
}

/// The `WSLENV` value that also forwards `OPEN_RS_TARGET` to Windows
/// processes: `None` when it already does, otherwise the variable appended
/// as a new entry (or as the only entry of an empty value).
pub open spec fn spec_wslenv_with_open_target(wslenv: Seq<char>) -> Option<Seq<char>> {
    if wslenv_forwards_open_target(wslenv) {
        None
    } else if wslenv.len() == 0 {
        Some(open_target_var())
    } else {
        Some(wslenv + ":"@ + open_target_var())
    }
}

fn entry_names_open_target(entry: &str) -> (r: bool)
    ensures
        r == names_open_target(entry@),
{
    proof {
        reveal_strlit("OPEN_RS_TARGET");
        reveal_strlit("/");
        reveal_strlit("OPEN_RS_TARGET/");
        assert(open_target_var() + "/"@ =~= "OPEN_RS_TARGET/"@);
    }
    str_eq(entry, "OPEN_RS_TARGET") || starts_with(entry, "OPEN_RS_TARGET/")
}

pub fn wslenv_with_open_target(wslenv: &str) -> (r: Option<String>)
    ensures
        match r {
            Some(v) => spec_wslenv_with_open_target(wslenv@) == Some(v@),
            None => spec_wslenv_with_open_target(wslenv@) is None,
        },
{
    let entries = segment_bounds(wslenv, ':');
    let mut k: usize = 0;
    while k < entries.len()
        invariant
            k <= entries@.len(),
            forall|m: int| 0 <= m < entries@.len() ==> is_segment(wslenv@, ':', (#[trigger] entries@[m]).0 as int, entries@[m].1 as int),
            forall|m: int| 0 <= m < k ==> !names_open_target(wslenv@.subrange((#[trigger] entries@[m]).0 as int, entries@[m].1 as int)),
        decreases entries@.len() - k,
    {
        let (i, j) = entries[k];
        if entry_names_open_target(wslenv.substring_char(i, j)) {
            assert(is_segment(wslenv@, ':', i as int, j as int));
            return None;
        }
        k = k + 1;
    }
    proof {
        assert forall|i: int, j: int| is_segment(wslenv@, ':', i, j) implies !#[trigger] names_open_target(
            wslenv@.subrange(i, j),
        ) by {
            let m = choose|m: int|
                0 <= m < entries@.len() && (#[trigger] entries@[m]).0 as int == i && entries@[m].1 as int
                    == j;
        }
    }
    if wslenv.unicode_len() == 0 {
        Some(String::from_str("OPEN_RS_TARGET"))
    } else {
        let mut v = String::from_str(wslenv);
        v.append(":");
        v.append("OPEN_RS_TARGET");
        Some(v)
    }
}

/// Adding `OPEN_RS_TARGET` to `WSLENV` is idempotent: once added, a second
/// attempt finds it and changes nothing.
pub proof fn lemma_wslenv_idempotent(wslenv: Seq<char>)
    ensures
        spec_wslenv_with_open_target(wslenv) matches Some(v) ==> spec_wslenv_with_open_target(v) is None,
{
    reveal_strlit("OPEN_RS_TARGET");
    reveal_strlit(":");
    if let Some(v) = spec_wslenv_with_open_target(wslenv) {
        let var = open_target_var();
        let start = v.len() - var.len();
        assert(v.subrange(start, v.len() as int) =~= var);
        assert(forall|k: int| start <= k < v.len() ==> v[k] != ':');
        assert(is_segment(v, ':', start, v.len() as int));
        assert(names_open_target(v.subrange(start, v.len() as int)));
    }
}

} // verus!
