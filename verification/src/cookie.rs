//! The cookies that login sets and logout clears.

use vstd::prelude::*;

verus! {

/// Name of the cookie that carries the access token.
pub const ACCESS_COOKIE: &'static str = "access_token";

/// Name of the cookie that carries the refresh token.
pub const REFRESH_COOKIE: &'static str = "refresh_token";

/// Name of the cookie that tells client scripts that a session is open.
pub const LOGGED_IN_COOKIE: &'static str = "logged_in";

/// Seconds of life given to a cookie that is to be dropped at once.
pub const CLEARED_MAX_AGE: i64 = -60;

/// When a browser sends a cookie along with requests from other sites.
#[derive(Debug, Clone, Copy, PartialEq, Eq, Structural)]
pub enum SameSite {
    Strict,
    Lax,
    Unrestricted,
}

/// A cookie to be set on a response.
#[derive(Debug)]
pub struct SessionCookie {
    pub name: String,
    pub value: String,
    pub path: String,
    /// Seconds until the browser drops the cookie; negative to drop it now.
    pub max_age: i64,
    pub same_site: SameSite,
    /// Whether the cookie is hidden from client scripts.
    pub http_only: bool,
}

/// A cookie as mathematical values.
pub struct CookieView {
    pub name: Seq<char>,
    pub value: Seq<char>,
    pub path: Seq<char>,
    pub max_age: int,
    pub same_site: SameSite,
    pub http_only: bool,
}

impl View for SessionCookie {
    type V = CookieView;

    open spec fn view(&self) -> CookieView {
        CookieView {
            name: self.name@,
            value: self.value@,
            path: self.path@,
            max_age: self.max_age as int,
            same_site: self.same_site,
            http_only: self.http_only,
        }
    }
}

/// The character of a decimal digit.
pub open spec fn digit_char(digit: nat) -> char {
    if digit == 0 {
        '0'
    } else if digit == 1 {
        '1'
    } else if digit == 2 {
        '2'
    } else if digit == 3 {
        '3'
    } else if digit == 4 {
        '4'
    } else if digit == 5 {
        '5'
    } else if digit == 6 {
        '6'
    } else if digit == 7 {
        '7'
    } else if digit == 8 {
        '8'
    } else {
        '9'
    }
}

/// The decimal digits of a natural number, without leading zeros.
pub open spec fn digits_text(number: nat) -> Seq<char>
    decreases number,
{
    if number < 10 {
        seq![digit_char(number)]
    } else {
        digits_text(number / 10).push(digit_char(number % 10))
    }
}

/// The decimal form of an integer: its digits, after a minus sign where it
/// is negative.
pub open spec fn decimal_text(number: int) -> Seq<char> {
    if number < 0 {
        seq!['-'] + digits_text((-number) as nat)
    } else {
        digits_text(number as nat)
    }
}

/// The word that a `Set-Cookie` header has for each same-site rule.
pub open spec fn same_site_text(same_site: SameSite) -> Seq<char> {
    match same_site {
        SameSite::Strict => "Strict"@,
        SameSite::Lax => "Lax"@,
        SameSite::Unrestricted => "None"@,
    }
}

/// The `Set-Cookie` header value of a cookie: the name and the value, then
/// the attributes in a fixed order. `HttpOnly` stands only where the cookie
/// is hidden from scripts, and `Secure` comes with the unrestricted
/// same-site rule.
pub open spec fn set_cookie_text(
    name: Seq<char>,
    value: Seq<char>,
    path: Seq<char>,
    max_age: int,
    same_site: SameSite,
    http_only: bool,
) -> Seq<char> {
    name + "="@ + value + (if http_only {
        "; HttpOnly"@
    } else {
        Seq::<char>::empty()
    }) + "; SameSite="@ + same_site_text(same_site) + (if same_site == SameSite::Unrestricted {
        "; Secure"@
    } else {
        Seq::<char>::empty()
    }) + "; Path="@ + path + "; Max-Age="@ + decimal_text(max_age)
}

/// Trusted: `Cookie::build` with `path`, `max_age`, `same_site` and
/// `http_only`, printed by the cookie's `Display`. The crate writes the name
/// and the value as they are, then `; HttpOnly` where it is set to true,
/// `; SameSite=` and the rule, `; Secure` where the rule is `None` and
/// `secure` was not set, `; Path=` and the path, and `; Max-Age=` and the
/// whole seconds in decimal: the text that `set_cookie_text` spells out.
#[verifier::external_body]
fn print_cookie(cookie: &SessionCookie) -> (line: String)
    ensures
        line@ == set_cookie_text(
            cookie.name@,
            cookie.value@,
            cookie.path@,
            cookie.max_age as int,
            cookie.same_site,
            cookie.http_only,
        ),
{
    let same_site = match cookie.same_site {
        SameSite::Strict => axum_extra::extract::cookie::SameSite::Strict,
        SameSite::Lax => axum_extra::extract::cookie::SameSite::Lax,
        SameSite::Unrestricted => axum_extra::extract::cookie::SameSite::None,
    };
    axum_extra::extract::cookie::Cookie::build((cookie.name.as_str(), cookie.value.as_str()))
        .path(cookie.path.as_str())
        .max_age(time::Duration::seconds(cookie.max_age))
        .same_site(same_site)
        .http_only(cookie.http_only)
        .to_string()
}

/// The age of a cookie that lives as long as a session of `ttl` seconds: the
/// same number, or the greatest age there is where the number does not fit.
pub open spec fn max_age_of(ttl: u64) -> int {
    if ttl <= i64::MAX {
        ttl as int
    } else {
        i64::MAX as int
    }
}

/// Computes the age of a cookie from a session's seconds of life.
pub fn cookie_age(ttl: u64) -> (age: i64)
    ensures
        age == max_age_of(ttl),
{
    if ttl <= 0x7fff_ffff_ffff_ffff {
        ttl as i64
    } else {
        0x7fff_ffff_ffff_ffff
    }
}

/// A cookie of the session: on path `/`, sent along by the `Lax` rule.
pub open spec fn session_cookie(name: Seq<char>, value: Seq<char>, max_age: int, http_only: bool) -> CookieView {
    CookieView { name, value, path: "/"@, max_age, same_site: SameSite::Lax, http_only }
}

/// The three cookies of a login: the access token and the refresh token,
/// both hidden from scripts, and a flag for scripts that lives as long as the
/// access token.
pub open spec fn login_cookie_views(
    access_token: Seq<char>,
    refresh_token: Seq<char>,
    access_ttl: int,
    refresh_ttl: int,
) -> Seq<CookieView> {
    seq![
        session_cookie(ACCESS_COOKIE@, access_token, access_ttl, true),
        session_cookie(REFRESH_COOKIE@, refresh_token, refresh_ttl, true),
        session_cookie(LOGGED_IN_COOKIE@, "true"@, access_ttl, false),
    ]
}

/// The three cookies of a logout: the same names, emptied of their tokens
/// and with a negative age, so that the browser drops them.
pub open spec fn logout_cookie_views() -> Seq<CookieView> {
    seq![
        session_cookie(ACCESS_COOKIE@, ""@, CLEARED_MAX_AGE as int, true),
        session_cookie(REFRESH_COOKIE@, ""@, CLEARED_MAX_AGE as int, true),
        session_cookie(LOGGED_IN_COOKIE@, "true"@, CLEARED_MAX_AGE as int, false),
    ]
}

/// The views of a list of cookies.
pub open spec fn cookie_views(cookies: Seq<SessionCookie>) -> Seq<CookieView> {
    cookies.map_values(|cookie: SessionCookie| cookie@)
}

impl SessionCookie {
    /// Builds a cookie of the session.
    pub fn new(name: &str, value: &str, max_age: i64, http_only: bool) -> (cookie: SessionCookie)
        ensures
            cookie@ == session_cookie(name@, value@, max_age as int, http_only),
    {
        SessionCookie {
            name: name.to_owned(),
            value: value.to_owned(),
            path: "/".to_owned(),
            max_age,
            same_site: SameSite::Lax,
            http_only,
        }
    }

    /// The value of the `Set-Cookie` header that sets this cookie.
    pub fn header_value(&self) -> (line: String)
        ensures
            line@ == set_cookie_text(
                self@.name,
                self@.value,
                self@.path,
                self@.max_age,
                self@.same_site,
                self@.http_only,
            ),
    {
        print_cookie(self)
    }
}

/// Builds the cookies that a login sets.
pub fn login_cookies(access_token: &str, refresh_token: &str, access_ttl: i64, refresh_ttl: i64) -> (cookies:
    Vec<SessionCookie>)
    ensures
        cookies@.len() == 3,
        cookie_views(cookies@) == login_cookie_views(
            access_token@,
            refresh_token@,
            access_ttl as int,
            refresh_ttl as int,
        ),
{
    let mut cookies: Vec<SessionCookie> = Vec::new();
    cookies.push(SessionCookie::new(ACCESS_COOKIE, access_token, access_ttl, true));
    cookies.push(SessionCookie::new(REFRESH_COOKIE, refresh_token, refresh_ttl, true));
    cookies.push(SessionCookie::new(LOGGED_IN_COOKIE, "true", access_ttl, false));
    proof {
        assert(cookie_views(cookies@) =~= login_cookie_views(
            access_token@,
            refresh_token@,
            access_ttl as int,
            refresh_ttl as int,
        ));
    }
    cookies
}

/// Builds the cookies that a logout sets to clear the session.
pub fn logout_cookies() -> (cookies: Vec<SessionCookie>)
    ensures
        cookies@.len() == 3,
        cookie_views(cookies@) == logout_cookie_views(),
{
    let mut cookies: Vec<SessionCookie> = Vec::new();
    cookies.push(SessionCookie::new(ACCESS_COOKIE, "", CLEARED_MAX_AGE, true));
    cookies.push(SessionCookie::new(REFRESH_COOKIE, "", CLEARED_MAX_AGE, true));
    cookies.push(SessionCookie::new(LOGGED_IN_COOKIE, "true", CLEARED_MAX_AGE, false));
    proof {
        assert(cookie_views(cookies@) =~= logout_cookie_views());
    }
    cookies
}

} // verus!
