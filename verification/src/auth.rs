//! Signing in to VRChat and keeping the token: the Basic authorization
//! header, the token in the cookie the API sets, the choice of the second
//! factor, and the stored configuration.

use vstd::prelude::*;

use base64::Engine;
use vstd::utf8::encode_utf8;

use crate::text::{
    after_first, after_first_exec, before_first, before_first_exec, concat, equal_str, trim,
    trimmed,
};

verus! {

/// The address at which the API tells about the signed-in user.
pub const AUTH_USER_URL: &'static str = "https://api.vrchat.cloud/api/1/auth/user";

/// The stored configuration: the authentication token and an optional
/// other address for the pipeline.
pub struct Config {
    pub token: String,
    pub alt_url: Option<String>,
}

impl Config {
    /// The configuration written when none is stored yet: the token
    /// "default" (no one signed in) and no other address.
    pub fn placeholder() -> (c: Self)
        ensures
            c.token@ == "default"@,
            c.alt_url is None,
    {
        Config { token: String::from_str("default"), alt_url: None }
    }

    /// This configuration with a new token.
    pub fn with_token(&self, token: String) -> (c: Self)
        ensures
            c.token == token,
            c.alt_url == self.alt_url,
    {
        let alt_url = match &self.alt_url {
            Some(u) => Some(u.clone()),
            None => None,
        };
        Config { token, alt_url }
    }
}

/// The token stands for a signed-in user: neither empty nor "default".
pub open spec fn is_usable_token(token: Seq<char>) -> bool {
    token.len() > 0 && token != "default"@
}

/// Whether the token stands for a signed-in user.
pub fn token_ready(token: &str) -> (b: bool)
    ensures
        b == is_usable_token(token@),
{
    !token.is_empty() && !equal_str(token, "default")
}

/// Whether a user is signed in, once the token is known: `None` while the
/// token is still empty, then whether it is other than "default".
pub fn authorization_state(token: &str) -> (r: Option<bool>)
    ensures
        token@.len() == 0 ==> r is None,
        token@.len() > 0 ==> r == Some(token@ != "default"@),
{
    if token.is_empty() {
        None
    } else {
        Some(!equal_str(token, "default"))
    }
}

/// The cookie part of a `set-cookie` header: up to the first ';'.
pub fn cookie_token(set_cookie: &str) -> (r: String)
    ensures
        r@ == before_first(set_cookie@, ';'),
{
    before_first_exec(set_cookie, ';')
}

/// The token itself: what follows the first '=' of the cookie.
pub fn token_value(cookie: &str) -> (r: Option<String>)
    ensures
        r matches Some(t) ==> after_first(cookie@, '=') == Some(t@),
        r is None <==> after_first(cookie@, '=') is None,
{
    after_first_exec(cookie, '=')
}

/// The second factor that the name of a method offered by the API selects.
pub open spec fn factor_of(method: Seq<char>) -> Option<Seq<char>> {
    if method == "emailOtp"@ {
        Some("emailotp"@)
    } else if method == "totp"@ {
        Some("totp"@)
    } else {
        None
    }
}

/// The second factor to verify: that of the first offered method that
/// selects one, "otp" when none does.
pub open spec fn chosen_factor(methods: Seq<String>) -> Seq<char>
    decreases methods.len(),
{
    if methods.len() == 0 {
        "otp"@
    } else {
        match factor_of(methods[0]@) {
            Some(f) => f,
            None => chosen_factor(methods.drop_first()),
        }
    }
}

/// The second factor to verify, from the methods that the API requires.
pub fn choose_factor(methods: &Vec<String>) -> (f: String)
    ensures
        f@ == chosen_factor(methods@),
{
    let mut i: usize = 0;
    assert(methods@.skip(0) =~= methods@);
    while i < methods.len()
        invariant
            i <= methods.len(),
            chosen_factor(methods@.skip(i as int)) == chosen_factor(methods@),
        decreases methods.len() - i,
    {
        let m = methods[i].as_str();
        assert(methods@.skip(i as int)[0] == methods@[i as int]);
        assert(methods@.skip(i as int).drop_first() =~= methods@.skip(i + 1));
        if equal_str(m, "emailOtp") {
            return String::from_str("emailotp");
        }
        if equal_str(m, "totp") {
            return String::from_str("totp");
        }
        i = i + 1;
    }
    assert(methods@.skip(i as int) =~= Seq::<String>::empty());
    String::from_str("otp")
}

/// The address at which a second factor of the given kind is verified.
pub fn verify_url(factor: &str) -> (s: String)
    ensures
        s@ == "https://api.vrchat.cloud/api/1/auth/twofactorauth/"@ + factor@ + "/verify"@,
{
    let mut s = concat("https://api.vrchat.cloud/api/1/auth/twofactorauth/", factor);
    s.append("/verify");
    s
}

/// The address at which the API tells about the user `id`.
pub fn user_url(id: &str) -> (s: String)
    ensures
        s@ == "https://api.vrchat.cloud/api/1/users/"@ + id@,
{
    concat("https://api.vrchat.cloud/api/1/users/", id)
}

/// "username:password" from what was typed, white space trimmed.
pub fn credentials(username: &str, password: &str) -> (s: String)
    ensures
        s@ == trimmed(username@) + ":"@ + trimmed(password@),
{
    let mut s = trim(username);
    s.append(":");
    let p = trim(password);
    s.append(p.as_str());
    s
}

/// The length of the unpadded base64 encoding of `n` bytes.
pub open spec fn no_pad_len(n: nat) -> nat {
    (n / 3) * 4 + (if n % 3 == 0 {
        0nat
    } else if n % 3 == 1 {
        2nat
    } else {
        3nat
    })
}

/// The length of the unpadded base64 encoding of `n` bytes, when it fits
/// in a `usize`.
pub fn no_pad_len_of(n: usize) -> (r: Option<usize>)
    ensures
        r matches Some(v) ==> v == no_pad_len(n as nat),
        r is None <==> no_pad_len(n as nat) > usize::MAX,
{
    let chunks = n / 3;
    if chunks > usize::MAX / 4 {
        return None;
    }
    let full = chunks * 4;
    let rest: usize = if n % 3 == 0 {
        0
    } else if n % 3 == 1 {
        2
    } else {
        3
    };
    if full > usize::MAX - rest {
        return None;
    }
    Some(full + rest)
}

/// The character of the standard base64 alphabet for the six bits `n`:
/// `A`-`Z`, `a`-`z`, `0`-`9`, `+`, `/`.
pub open spec fn base64_digit(n: int) -> char {
    if n < 26 {
        (65 + n) as char
    } else if n < 52 {
        (97 + (n - 26)) as char
    } else if n < 62 {
        (48 + (n - 52)) as char
    } else if n == 62 {
        '+'
    } else {
        '/'
    }
}

/// The unpadded base64 encoding, in the standard alphabet, of `bytes`:
/// each group of three bytes gives four characters of six bits each; a
/// final group of one or two bytes gives two or three characters, its
/// missing low bits zero, and no padding.
pub open spec fn base64_no_pad(bytes: Seq<u8>) -> Seq<char>
    decreases bytes.len(),
{
    if bytes.len() == 0 {
        Seq::empty()
    } else if bytes.len() == 1 {
        let b0 = bytes[0] as int;
        seq![base64_digit(b0 / 4), base64_digit((b0 % 4) * 16)]
    } else if bytes.len() == 2 {
        let b0 = bytes[0] as int;
        let b1 = bytes[1] as int;
        seq![
            base64_digit(b0 / 4),
            base64_digit((b0 % 4) * 16 + b1 / 16),
            base64_digit((b1 % 16) * 4),
        ]
    } else {
        let b0 = bytes[0] as int;
        let b1 = bytes[1] as int;
        let b2 = bytes[2] as int;
        seq![
            base64_digit(b0 / 4),
            base64_digit((b0 % 4) * 16 + b1 / 16),
            base64_digit((b1 % 16) * 4 + b2 / 64),
            base64_digit(b2 % 64),
        ] + base64_no_pad(bytes.skip(3))
    }
}

/// The unpadded encoding of `n` bytes has `no_pad_len(n)` characters.
pub proof fn lemma_base64_len(bytes: Seq<u8>)
    ensures
        base64_no_pad(bytes).len() == no_pad_len(bytes.len()),
    decreases bytes.len(),
{
    if bytes.len() >= 3 {
        lemma_base64_len(bytes.skip(3));
        assert(no_pad_len(bytes.len()) == 4 + no_pad_len((bytes.len() - 3) as nat)) by {
            let n = bytes.len() as int;
            assert((n / 3) == 1 + (n - 3) / 3);
            assert(n % 3 == (n - 3) % 3);
        }
    }
}

/// Encodes the UTF-8 bytes of `text` in base64, standard alphabet, no
/// padding (`base64`'s `STANDARD_NO_PAD.encode`). Its contract claims that
/// the result is the standard unpadded encoding of those bytes, as the
/// base64 standard and the crate's documentation define it; `encode` panics
/// only when the encoded length overflows.
#[verifier::external_body]
fn encode_no_pad(text: &str) -> (r: String)
    requires
        no_pad_len(encode_utf8(text@).len()) <= usize::MAX,
    ensures
        r@ == base64_no_pad(encode_utf8(text@)),
{
    base64::engine::general_purpose::STANDARD_NO_PAD.encode(text)
}

/// The value of a Basic `Authorization` header for an encoded credential.
pub fn basic_value(encoded: &str) -> (s: String)
    ensures
        s@ == "Basic "@ + encoded@,
{
    concat("Basic ", encoded)
}

/// The value of the Basic `Authorization` header for `credentials`:
/// "Basic " and the credentials' bytes in unpadded base64.
pub fn basic_auth_header(credentials: &str) -> (s: String)
    requires
        no_pad_len(encode_utf8(credentials@).len()) <= usize::MAX,
    ensures
        s@ == "Basic "@ + base64_no_pad(encode_utf8(credentials@)),
{
    let encoded = encode_no_pad(credentials);
    basic_value(encoded.as_str())
}

/// The answer to a sign-in request from the page.
pub enum AuthResponse {
    /// Signed in.
    Success,
    /// A second factor is required: the cookie token to send with it, and
    /// the kind of factor.
    RequiredAuth { token: String, auth_type: String },
}

/// The answer to a first sign-in request: a second factor is required, of
/// the kind chosen from the offered methods, with the token from the
/// `set-cookie` header.
pub fn required_auth(set_cookie: &str, methods: &Vec<String>) -> (r: AuthResponse)
    ensures
        r matches AuthResponse::RequiredAuth { token, auth_type } && token@ == before_first(
            set_cookie@,
            ';',
        ) && auth_type@ == chosen_factor(methods@),
{
    AuthResponse::RequiredAuth { token: cookie_token(set_cookie), auth_type: choose_factor(methods) }
}

/// What the friends endpoint answers, one look at a time.
#[derive(Clone, Copy, Debug, PartialEq, Eq, Structural)]
pub enum FriendsReply {
    /// The request did not come from this machine: an empty object.
    NotLocal,
    /// The friend lists.
    Users,
    /// Still no one signed in after the last look: an error.
    Unauthorized,
    /// Look again after a pause.
    Wait,
}

/// How many pauses the friends endpoint waits for a sign-in.
pub const FRIENDS_WAITS: u16 = 50;

/// The friends endpoint's answer at the look numbered `tries` (from 0):
/// only requests from this machine are served; the lists once someone is
/// signed in; an error once more than fifty pauses went by.
pub fn friends_reply(from_localhost: bool, signed_in: bool, tries: u16) -> (r: FriendsReply)
    ensures
        r == (if !from_localhost {
            FriendsReply::NotLocal
        } else if signed_in {
            FriendsReply::Users
        } else if tries > FRIENDS_WAITS {
            FriendsReply::Unauthorized
        } else {
            FriendsReply::Wait
        }),
        r == FriendsReply::Wait ==> tries < u16::MAX,
{
    if !from_localhost {
        FriendsReply::NotLocal
    } else if signed_in {
        FriendsReply::Users
    } else if tries > FRIENDS_WAITS {
        FriendsReply::Unauthorized
    } else {
        FriendsReply::Wait
    }
}

} // verus!
