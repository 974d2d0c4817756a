//! Sign-in through Discord OAuth: who may use the web interface, the
//! authorization redirect and the session cookie.
use crate::model::{Timestamp, MAX_UTC_SECS};
use crate::text::text_eq;
use crate::time::{format_utc, utc_format};
use vstd::prelude::*;

verus! {

/// Discord ids of the people allowed to use the web interface.
pub open spec fn allowed_user_ids() -> Seq<Seq<char>> {
    seq![
        "142951266811641856"@,
        "111928351798636544"@,
        "186051153254023168"@,
        "61155535751225344"@,
        "227851317136195584"@,
        "260058592852443149"@,
        "265827741847257089"@,
        "86939871179980800"@,
        "310338524891185153"@,
        "144476078377795584"@,
        "808002254710898708"@,
    ]
}

/// Whether the Discord user `id` may use the web interface.
pub fn check_user_id(id: &str) -> (r: bool)
    ensures
        r == allowed_user_ids().contains(id@),
{
    let ids: [&str; 11] = [
        "142951266811641856",
        "111928351798636544",
        "186051153254023168",
        "61155535751225344",
        "227851317136195584",
        "260058592852443149",
        "265827741847257089",
        "86939871179980800",
        "310338524891185153",
        "144476078377795584",
        "808002254710898708",
    ];
    let ghost allowed = allowed_user_ids();
    assert(forall|j: int| 0 <= j < 11 ==> (#[trigger] ids@[j])@ == allowed[j]);
    let mut i: usize = 0;
    while i < 11
        invariant
            i <= 11,
            allowed == allowed_user_ids(),
            forall|j: int| 0 <= j < 11 ==> (#[trigger] ids@[j])@ == allowed[j],
            forall|j: int| 0 <= j < i ==> allowed[j] != id@,
        decreases 11 - i,
    {
        if text_eq(ids[i], id) {
            assert(allowed[i as int] == id@);
            return true;
        }
        i = i + 1;
    }
    assert(!allowed.contains(id@));
    false
}

/// Characters that URI component encoding keeps as they are.
pub open spec fn uri_unreserved(b: u8) -> bool {
    ||| (65 <= b <= 90)
    ||| (97 <= b <= 122)
    ||| (48 <= b <= 57)
    ||| b == 45 || b == 95 || b == 46 || b == 33 || b == 126 || b == 42 || b == 39 || b == 40
        || b == 41
}

/// Lower-case hexadecimal digit of `v` (`0 <= v < 16`).
pub open spec fn hex_digit(v: int) -> char {
    if v < 10 {
        (v + 48) as char
    } else {
        (v + 87) as char
    }
}

/// URI component encoding of UTF-8 bytes: unreserved bytes stay, every
/// other byte becomes `%` and two lower-case hexadecimal digits.
pub open spec fn uri_component(bytes: Seq<u8>) -> Seq<char>
    decreases bytes.len(),
{
    if bytes.len() == 0 {
        Seq::empty()
    } else {
        let b = bytes.last();
        uri_component(bytes.drop_last()) + if uri_unreserved(b) {
            seq![b as char]
        } else {
            seq!['%', hex_digit((b / 16) as int), hex_digit((b % 16) as int)]
        }
    }
}

/// `uri_encode::encode_uri_component`: percent-encodes the UTF-8 bytes of
/// `s` as `uri_component` states.
#[verifier::external_body]
fn encode_uri_component(s: &str) -> (r: String)
    ensures
        r@ == uri_component(vstd::utf8::encode_utf8(s@)),
{
    uri_encode::encode_uri_component(s)
}

/// SHA-256 digest of `bytes` as lower-case hexadecimal text.
pub uninterp spec fn sha256_hex(bytes: Seq<u8>) -> Seq<char>;

/// `sha256::digest`: the hexadecimal text of the SHA-256 digest of the
/// bytes, 64 characters long.
#[verifier::external_body]
fn sha256_digest(bytes: &[u8; 32]) -> (r: String)
    ensures
        r@ == sha256_hex(bytes@),
        r@.len() == 64,
{
    sha256::digest(bytes)
}

/// The base64 alphabet of RFC 4648.
pub open spec fn base64_char(v: int) -> char {
    if v < 26 {
        (v + 65) as char
    } else if v < 52 {
        (v + 71) as char
    } else if v < 62 {
        (v - 4) as char
    } else if v == 62 {
        '+'
    } else {
        '/'
    }
}

/// Standard base64 (RFC 4648, with `=` padding) of `bytes`.
pub open spec fn base64_standard(bytes: Seq<u8>) -> Seq<char>
    decreases bytes.len(),
{
    if bytes.len() == 0 {
        Seq::empty()
    } else if bytes.len() == 1 {
        let a = bytes[0] as int;
        seq![base64_char(a / 4), base64_char((a % 4) * 16), '=', '=']
    } else if bytes.len() == 2 {
        let a = bytes[0] as int;
        let b = bytes[1] as int;
        seq![base64_char(a / 4), base64_char((a % 4) * 16 + b / 16), base64_char((b % 16) * 4), '=']
    } else {
        let a = bytes[0] as int;
        let b = bytes[1] as int;
        let c = bytes[2] as int;
        seq![
            base64_char(a / 4),
            base64_char((a % 4) * 16 + b / 16),
            base64_char((b % 16) * 4 + c / 64),
            base64_char(c % 64),
        ] + base64_standard(bytes.skip(3))
    }
}

/// `base64`'s standard engine `encode`: the text `base64_standard` states.
#[verifier::external_body]
fn base64_encode(bytes: &[u8; 32]) -> (r: String)
    ensures
        r@ == base64_standard(bytes@),
{
    base64::Engine::encode(&base64::prelude::BASE64_STANDARD, bytes)
}

pub open spec fn authorize_url(redirect_uri: Seq<char>, state: Seq<char>) -> Seq<char> {
    "https://discord.com/oauth2/authorize?client_id=942121950778634240&response_type=code&redirect_uri="@
        + uri_component(vstd::utf8::encode_utf8(redirect_uri)) + "&scope=identify&state="@ + state
}

/// The start of a sign-in: the state handed to Discord (the SHA-256 digest
/// of the random `token`) and the authorization URL to redirect to, which
/// sends the user back to `redirect_uri`.
pub fn authorization_request(token: &[u8; 32], redirect_uri: &str) -> (r: (String, String))
    ensures
        r.0@ == sha256_hex(token@),
        r.1@ == authorize_url(redirect_uri@, r.0@),
{
    let state = sha256_digest(token);
    let mut url = String::from_str(
        "https://discord.com/oauth2/authorize?client_id=942121950778634240&response_type=code&redirect_uri=",
    );
    let encoded = encode_uri_component(redirect_uri);
    url.append(encoded.as_str());
    url.append("&scope=identify&state=");
    url.append(state.as_str());
    assert(url@ =~= authorize_url(redirect_uri@, state@));
    (state, url)
}

/// Seconds a web session lasts: seven days.
pub const SESSION_SECS: i64 = 604800;

pub open spec fn session_cookie(token: Seq<char>, expiry: Timestamp) -> Seq<char> {
    "session="@ + token + "; Expires="@ + utc_format(
        expiry.secs as int,
        expiry.nanos as int,
        "%a, %d %b %Y %H:%M:%S GMT"@,
    ) + "; Path=/; HttpOnly; Secure"@
}

/// The end of a sign-in at `now`: the session token (standard base64 of the
/// random `token`), the instant the session expires (seven days later) and
/// the `Set-Cookie` value that hands the token to the browser.
pub fn session_grant(token: &[u8; 32], now: &Timestamp) -> (r: (String, Timestamp, String))
    requires
        now.wf(),
        now.secs + SESSION_SECS <= MAX_UTC_SECS,
    ensures
        r.0@ == base64_standard(token@),
        r.1 == now.after_secs(SESSION_SECS as int),
        r.2@ == session_cookie(r.0@, r.1),
{
    let session_token = base64_encode(token);
    let expiry = now.plus_secs(SESSION_SECS);
    let mut cookie = String::from_str("session=");
    cookie.append(session_token.as_str());
    cookie.append("; Expires=");
    let date = format_utc(&expiry, "%a, %d %b %Y %H:%M:%S GMT");
    cookie.append(date.as_str());
    cookie.append("; Path=/; HttpOnly; Secure");
    assert(cookie@ =~= session_cookie(session_token@, expiry));
    (session_token, expiry, cookie)
}

/// Query of the OAuth redirect back from Discord.
pub struct QueryParams {
    pub code: String,
    pub state: String,
}

/// Form that exchanges the authorization code for a token.
pub struct CodeSender {
    pub grant_type: &'static str,
    pub code: String,
    pub redirect_uri: String,
}

impl CodeSender {
    /// The form for the authorization code `code` received at `redirect_uri`.
    pub fn authorization_code(code: String, redirect_uri: String) -> (r: Self)
        ensures
            r.grant_type@ == "authorization_code"@,
            r.code == code,
            r.redirect_uri == redirect_uri,
    {
        CodeSender { grant_type: "authorization_code", code, redirect_uri }
    }
}

/// Discord's answer to the code exchange.
pub struct TokenResponse {
    pub access_token: String,
    pub token_type: String,
    pub expires_in: i32,
    pub refresh_token: String,
    pub scope: String,
}

/// Discord's description of the signed-in user.
pub struct MeResponse {
    pub user: DiscordUser,
}

pub struct DiscordUser {
    pub id: String,
    pub username: String,
    pub global_name: String,
}

/// A user of the web interface, as stored.
pub struct User {
    pub id: i64,
    pub username: String,
    pub user_id: String,
    pub token: String,
    pub created_at: Timestamp,
}

} // verus!
