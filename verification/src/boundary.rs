//! Calls into std and into outside crates whose behaviour is stated here
//! without proof. Each item names the function it calls.
use ruma::api::IncomingResponse;
use vstd::prelude::*;

verus! {

/// Whether `c` has the Unicode `White_Space` property: U+0009 to U+000D,
/// U+0020, U+0085, U+00A0, U+1680, U+2000 to U+200A, U+2028, U+2029, U+202F,
/// U+205F and U+3000.
pub open spec fn is_white_space(c: char) -> bool {
    let u = c as int;
    ||| 0x9 <= u <= 0xD
    ||| u == 0x20
    ||| u == 0x85
    ||| u == 0xA0
    ||| u == 0x1680
    ||| 0x2000 <= u <= 0x200A
    ||| u == 0x2028
    ||| u == 0x2029
    ||| u == 0x202F
    ||| u == 0x205F
    ||| u == 0x3000
}

/// Calls `char::is_whitespace`, which answers whether `c` has the Unicode
/// `White_Space` property.
#[verifier::external_body]
pub fn char_is_whitespace(c: char) -> (b: bool)
    ensures
        b == is_white_space(c),
{
    c.is_whitespace()
}


/// The largest number of milliseconds after the Unix epoch that chrono can
/// turn into a UTC date (the last millisecond of its last representable day).
pub const MAX_TIMESTAMP_MS: u64 = 8_210_266_876_799_999;

/// The ASCII digit for `d` (`0 <= d < 10`).
pub open spec fn digit(d: int) -> char {
    (48 + d) as char
}

/// `n` (`0 <= n < 100`) written with exactly two decimal digits.
pub open spec fn two_digits(n: int) -> Seq<char> {
    seq![digit(n / 10), digit(n % 10)]
}

/// The `%H:%M` clock reading, in UTC, of `ms` milliseconds after the Unix epoch.
pub open spec fn utc_clock_label(ms: int) -> Seq<char> {
    two_digits((ms / 3_600_000) % 24) + seq![':'] + two_digits((ms / 60_000) % 60)
}

/// Whether `t` is the `%H:%M` reading of the instant `ms` milliseconds after
/// the Unix epoch in some time zone: the UTC reading of that instant moved
/// by a whole number of seconds, less than a day either way (the range of
/// chrono's `FixedOffset`).
pub open spec fn is_local_reading(ms: int, t: Seq<char>) -> bool {
    exists|secs: int| -86_400 < secs < 86_400 && t == #[trigger] shifted_clock_label(ms, secs)
}

/// The UTC `%H:%M` reading of the instant `ms`, moved by `secs` seconds.
pub open spec fn shifted_clock_label(ms: int, secs: int) -> Seq<char> {
    utc_clock_label(ms + secs * 1000)
}

/// Formats, with chrono's `DateTime::<Utc>::format("%H:%M")`, the instant
/// `ms` milliseconds after the Unix epoch. The result is the UTC hour and
/// minute, each written with two digits. Beyond `MAX_TIMESTAMP_MS` chrono's
/// conversion from `SystemTime` panics, so such inputs are excluded.
#[verifier::external_body]
pub fn utc_time_label(ms: u64) -> (r: String)
    requires
        ms <= MAX_TIMESTAMP_MS,
    ensures
        r@ == utc_clock_label(ms as int),
{
    let instant = std::time::UNIX_EPOCH + std::time::Duration::from_millis(ms);
    chrono::DateTime::<chrono::Utc>::from(instant).format("%H:%M").to_string()
}

/// Formats, with chrono's `DateTime::<Local>::format("%H:%M")`, the instant
/// `ms` milliseconds after the Unix epoch in the machine's time zone: the
/// UTC instant moved by the zone's offset at that instant, a `FixedOffset`
/// of less than a day. Which offset applies depends on the machine's time
/// zone, so the contract states only that some such offset was applied.
/// chrono's local formatting does not overflow past its last UTC day, so
/// the bound is that of the conversion from `SystemTime`.
#[verifier::external_body]
pub fn local_time_label(ms: u64) -> (r: String)
    requires
        ms <= MAX_TIMESTAMP_MS,
    ensures
        is_local_reading(ms as int, r@),
{
    let instant = std::time::UNIX_EPOCH + std::time::Duration::from_millis(ms);
    chrono::DateTime::<chrono::Local>::from(instant).format("%H:%M").to_string()
}


// ---------------------------------------------------------------------------
// url
// ---------------------------------------------------------------------------

/// What `url::Url::parse` makes of `s`: `None` when it is not a valid
/// absolute URL, otherwise the URL's serialization (its `to_string()`) and
/// its domain (`domain()`, absent for IP hosts and host-less URLs).
pub uninterp spec fn url_parse(s: Seq<char>) -> Option<(Seq<char>, Option<Seq<char>>)>;

/// A parsed URL as plain values: its serialization and its domain.
pub struct ServerUrl {
    pub url: String,
    pub domain: Option<String>,
}

pub struct ServerUrlView {
    pub url: Seq<char>,
    pub domain: Option<Seq<char>>,
}

impl View for ServerUrl {
    type V = ServerUrlView;

    open spec fn view(&self) -> ServerUrlView {
        ServerUrlView { url: self.url@, domain: self.domain.deep_view() }
    }
}

impl DeepView for ServerUrl {
    type V = ServerUrlView;

    open spec fn deep_view(&self) -> ServerUrlView {
        self@
    }
}

impl Clone for ServerUrl {
    fn clone(&self) -> (r: Self)
        ensures
            r == *self,
    {
        ServerUrl { url: self.url.clone(), domain: crate::text::clone_opt_string(&self.domain) }
    }
}

/// The parsed URL that `url_parse` describes, as a `ServerUrl` view.
pub open spec fn parsed_server_url(s: Seq<char>) -> Option<ServerUrlView> {
    match url_parse(s) {
        Some((u, d)) => Some(ServerUrlView { url: u, domain: d }),
        None => None,
    }
}

/// Calls `url::Url::parse` on `s` and keeps, on success, the URL's
/// serialization and domain. The contract claims only that the result is
/// the value `url_parse` gives for `s`.
#[verifier::external_body]
pub fn parse_url(s: &str) -> (r: Option<ServerUrl>)
    ensures
        match r {
            Some(u) => url_parse(s@) == Some((u.url@, u.domain.deep_view())),
            None => url_parse(s@) is None,
        },
        r.deep_view() == parsed_server_url(s@),
{
    match url::Url::parse(s) {
        Ok(u) => {
            let domain = match u.domain() {
                Some(d) => Some(d.to_string()),
                None => None,
            };
            Some(ServerUrl { url: u.to_string(), domain })
        },
        Err(_) => None,
    }
}

// ---------------------------------------------------------------------------
// mime
// ---------------------------------------------------------------------------

/// The top-level type (`type_()`) of the media type `s` as `mime` parses it
/// (`str::parse::<mime::Mime>()`), `None` when `s` is not a media type.
pub uninterp spec fn mime_top_level(s: Seq<char>) -> Option<Seq<char>>;

/// Parses `s` as a `mime::Mime` and returns its top-level type as a string.
/// The contract claims only that the result is `mime_top_level` of `s`.
#[verifier::external_body]
pub fn mime_top_level_type(s: &str) -> (r: Option<String>)
    ensures
        r.deep_view() == mime_top_level(s@),
{
    match s.parse::<mime::Mime>() {
        Ok(m) => Some(m.type_().as_str().to_string()),
        Err(_) => None,
    }
}

// ---------------------------------------------------------------------------
// ruma identifiers and integers
// ---------------------------------------------------------------------------

/// Whether `ruma::RoomId::parse` accepts `s`.
pub uninterp spec fn valid_room_id(s: Seq<char>) -> bool;

/// Whether `ruma::UserId::parse` accepts `s`.
pub uninterp spec fn valid_user_id(s: Seq<char>) -> bool;

/// Calls `ruma::RoomId::parse` and reports whether it succeeded. A room id
/// that it accepts starts with `!` and holds a `:` (ruma's `parse_id`
/// requires the sigil and looks for the colon before the server name).
#[verifier::external_body]
pub fn room_id_is_valid(s: &str) -> (b: bool)
    ensures
        b == valid_room_id(s@),
        b ==> s@.len() > 0 && s@[0] == '!' && s@.contains(':'),
{
    ruma::RoomId::parse(s).is_ok()
}

/// Calls `ruma::UserId::parse` and reports whether it succeeded. A user id
/// that it accepts starts with `@` and holds a `:` (ruma's `parse_id`).
#[verifier::external_body]
pub fn user_id_is_valid(s: &str) -> (b: bool)
    ensures
        b == valid_user_id(s@),
        b ==> s@.len() > 0 && s@[0] == '@' && s@.contains(':'),
{
    ruma::UserId::parse(s).is_ok()
}

/// The largest integer that `js_int::UInt` holds: 2^53 - 1.
pub const MAX_SAFE_UINT: u64 = 9_007_199_254_740_991;

/// Calls `ruma::UInt::new` (from `js_int`), which accepts exactly the values
/// up to 2^53 - 1, and hands back the accepted value.
#[verifier::external_body]
pub fn uint_new(v: u64) -> (r: Option<u64>)
    ensures
        r == (if v <= MAX_SAFE_UINT {
            Some(v)
        } else {
            None::<u64>
        }),
{
    match ruma::UInt::new(v) {
        Some(u) => Some(u64::from(u)),
        None => None,
    }
}

// ---------------------------------------------------------------------------
// Homeserver discovery
// ---------------------------------------------------------------------------

/// The `m.homeserver.base_url` that ruma reads from a `.well-known/matrix/client`
/// body, `None` when the body is not such a document.
pub uninterp spec fn well_known_base_url(body: Seq<char>) -> Option<Seq<char>>;

/// Reads a `.well-known/matrix/client` body with ruma's
/// `discover_homeserver::Response::try_from_http_response` (in a response
/// built by `http::Response::new`) and returns the homeserver's base URL.
/// The contract claims only that the result is `well_known_base_url` of the body.
#[verifier::external_body]
pub fn well_known_homeserver(body: &str) -> (r: Option<String>)
    ensures
        r.deep_view() == well_known_base_url(body@),
{
    let response = http::Response::new(body.to_string());
    match ruma::api::client::discovery::discover_homeserver::Response::try_from_http_response(response) {
        Ok(r) => Some(r.homeserver.base_url),
        Err(_) => None,
    }
}

// ---------------------------------------------------------------------------
// serde_json
// ---------------------------------------------------------------------------

/// `serde_json::Error`, carried through as an opaque value.
#[verifier::external_type_specification]
#[verifier::external_body]
pub struct ExJsonError(serde_json::Error);

// ---------------------------------------------------------------------------
// Case folding
// ---------------------------------------------------------------------------

/// The lowercase mapping of `s` as `str::to_lowercase` computes it.
pub uninterp spec fn lowercased(s: Seq<char>) -> Seq<char>;

/// Calls `str::to_lowercase`; its result depends on `s` alone.
#[verifier::external_body]
pub fn to_lowercase(s: &str) -> (r: String)
    ensures
        r@ == lowercased(s@),
{
    s.to_lowercase()
}

} // verus!
