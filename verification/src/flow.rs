//! OAuth flow orchestrator: the full authorization-code exchange as a state
//! machine over plain values.
//!
//! The surrounding web layer drives the machine: it hands each step function
//! the values it has (cookies, query parameters, the outcome of an outbound
//! provider call) and performs whatever the returned step asks for (redirect,
//! render a page, make the next provider call).  Every decision — the
//! anti-forgery check, the branch structure of the callback, the
//! get-or-create resolution of the logged-in identity — is made here, under
//! contract.

use crate::store::{has_key, stored, UserStore, UserV};
use crate::token::{fresh_token, opt_view, state_ok, validate_state};
use vstd::prelude::*;
use vstd::string::*;

verus! {

/// The query parameters the provider sends to the callback endpoint: the
/// authorization code and the echoed anti-forgery state token.
pub struct Params {
    pub code: String,
    pub state: String,
}

/// The body of a successful token-endpoint response: the provider access
/// token obtained for an authorization code.
pub struct Body {
    pub access_token: String,
}

/// The provider profile of the authenticated user: numeric provider user id
/// and display name.
pub struct UserInfo {
    pub id: i32,
    pub name: String,
}

/// Failure of an outbound provider call: either the transport failed or the
/// response body could not be read as the expected shape.  Both are handled
/// identically at each step of the flow.
pub enum ProviderError {
    Transport,
    Malformed,
}

/// The character for a single decimal digit value.
pub open spec fn digit_char(d: int) -> char
    recommends
        0 <= d <= 9,
{
    if d == 0 {
        '0'
    } else if d == 1 {
        '1'
    } else if d == 2 {
        '2'
    } else if d == 3 {
        '3'
    } else if d == 4 {
        '4'
    } else if d == 5 {
        '5'
    } else if d == 6 {
        '6'
    } else if d == 7 {
        '7'
    } else if d == 8 {
        '8'
    } else {
        '9'
    }
}

/// The decimal digits of a non-negative integer, most significant first.
pub open spec fn dec_nat(n: int) -> Seq<char>
    recommends
        0 <= n,
    decreases n,
{
    if n <= 9 {
        seq![digit_char(n)]
    } else {
        dec_nat(n / 10).push(digit_char(n % 10))
    }
}

/// The decimal representation of an integer, with a leading '-' when
/// negative.
pub open spec fn dec_int(n: int) -> Seq<char> {
    if n < 0 {
        seq!['-'] + dec_nat(-n)
    } else {
        dec_nat(n)
    }
}

/// The one-character string for a single decimal digit value.
fn digit_str(d: u64) -> (s: &'static str)
    requires
        d <= 9,
    ensures
        s@ == seq![digit_char(d as int)],
{
    if d == 0 {
        proof {
            reveal_strlit("0");
            assert("0"@ =~= seq![digit_char(d as int)]);
        }
        "0"
    } else if d == 1 {
        proof {
            reveal_strlit("1");
            assert("1"@ =~= seq![digit_char(d as int)]);
        }
        "1"
    } else if d == 2 {
        proof {
            reveal_strlit("2");
            assert("2"@ =~= seq![digit_char(d as int)]);
        }
        "2"
    } else if d == 3 {
        proof {
            reveal_strlit("3");
            assert("3"@ =~= seq![digit_char(d as int)]);
        }
        "3"
    } else if d == 4 {
        proof {
            reveal_strlit("4");
            assert("4"@ =~= seq![digit_char(d as int)]);
        }
        "4"
    } else if d == 5 {
        proof {
            reveal_strlit("5");
            assert("5"@ =~= seq![digit_char(d as int)]);
        }
        "5"
    } else if d == 6 {
        proof {
            reveal_strlit("6");
            assert("6"@ =~= seq![digit_char(d as int)]);
        }
        "6"
    } else if d == 7 {
        proof {
            reveal_strlit("7");
            assert("7"@ =~= seq![digit_char(d as int)]);
        }
        "7"
    } else if d == 8 {
        proof {
            reveal_strlit("8");
            assert("8"@ =~= seq![digit_char(d as int)]);
        }
        "8"
    } else {
        proof {
            reveal_strlit("9");
            assert("9"@ =~= seq![digit_char(d as int)]);
        }
        "9"
    }
}

/// Appends the decimal digits of `x`, most significant first.
fn push_dec(s: &mut String, x: u64)
    ensures
        final(s)@ == old(s)@ + dec_nat(x as int),
    decreases x,
{
    let ghost pre = s@;
    if x <= 9 {
        s.append(digit_str(x));
        proof {
            assert(s@ =~= pre + dec_nat(x as int));
        }
    } else {
        let q: u64 = x / 10;
        let d: u64 = x % 10;
        proof {
            assert(q < x) by (nonlinear_arith)
                requires
                    x >= 10,
                    q == x / 10,
            ;
        }
        push_dec(s, q);
        s.append(digit_str(d));
        proof {
            assert(dec_nat(x as int) == dec_nat(q as int).push(digit_char(d as int)));
            assert(s@ =~= pre + dec_nat(x as int));
        }
    }
}

/// The decimal rendering of a provider user id: the digits of its
/// magnitude, with a leading '-' when negative.
pub(crate) fn i32_to_dec(n: i32) -> (r: String)
    ensures
        r@ == dec_int(n as int),
{
    let mut s = String::new();
    if n < 0 {
        s.append("-");
        let mag: u64 = (-(n as i64)) as u64;
        proof {
            assert(mag == -(n as int));
        }
        push_dec(&mut s, mag);
        proof {
            reveal_strlit("-");
            assert(s@ =~= dec_int(n as int));
        }
    } else {
        push_dec(&mut s, n as u64);
        proof {
            assert(s@ =~= dec_int(n as int));
        }
    }
    s
}

/// The platform name under which provider identities are stored.
pub open spec fn github_platform() -> Seq<char> {
    "github"@
}

/// The provider authorization URL for one login attempt: client id, the
/// callback redirect URI computed from the incoming request's scheme and
/// host, and the attempt's anti-forgery state token, as query parameters.
pub open spec fn authorize_url(
    client_id: Seq<char>,
    scheme: Seq<char>,
    host: Seq<char>,
    state: Seq<char>,
) -> Seq<char> {
    "https://github.com/login/oauth/authorize?client_id="@ + client_id + "&redirect_uri="@ + scheme
        + "://"@ + host + "/login/github/callback&state="@ + state
}

/// Builds the provider authorization URL for one login attempt.
pub fn build_authorize_url(
    client_id: &String,
    scheme: &String,
    host: &String,
    state: &String,
) -> (r: String)
    ensures
        r@ == authorize_url(client_id@, scheme@, host@, state@),
{
    let mut url = String::from_str("https://github.com/login/oauth/authorize?client_id=");
    url.append(client_id.as_str());
    url.append("&redirect_uri=");
    url.append(scheme.as_str());
    url.append("://");
    url.append(host.as_str());
    url.append("/login/github/callback&state=");
    url.append(state.as_str());
    proof {
        assert(url@ =~= authorize_url(client_id@, scheme@, host@, state@));
    }
    url
}

/// Whether a usable session cookie is present: it exists and is non-empty.
/// Its value is trusted as-is; the flow performs no check against the user
/// store.
pub open spec fn session_present(cookie: Option<Seq<char>>) -> bool {
    match cookie {
        Some(t) => t.len() > 0,
        None => false,
    }
}

/// What the login endpoint answers: either the session page for an already
/// logged-in client, or the login page pointing at the provider, together
/// with the state cookie to set for the attempt.
pub enum LoginResponse {
    SessionPage { token: String },
    LoginPage { login_url: String, state_cookie: String },
}

/// Initiation of the flow.  A request that already carries a non-empty
/// session cookie is short-circuited to the session page with that very
/// token, and no login attempt is started; otherwise a fresh random state
/// token is issued, bound to the attempt both as the returned cookie value
/// and inside the authorization URL.
pub fn initiate(
    session_cookie: Option<&String>,
    client_id: &String,
    scheme: &String,
    host: &String,
) -> (r: LoginResponse)
    ensures
        session_present(opt_view(session_cookie)) ==> (r matches LoginResponse::SessionPage {
            token,
        } && Some(token@) == opt_view(session_cookie)),
        !session_present(opt_view(session_cookie)) ==> (r matches LoginResponse::LoginPage {
            login_url,
            state_cookie,
        } && login_url@ == authorize_url(client_id@, scheme@, host@, state_cookie@)
            && state_cookie@.len() == 36),
{
    if let Some(t) = session_cookie {
        if !t.as_str().is_empty() {
            return LoginResponse::SessionPage { token: t.clone() };
        }
    }
    let state = fresh_token();
    let login_url = build_authorize_url(client_id, scheme, host, &state);
    LoginResponse::LoginPage { login_url, state_cookie: state }
}

/// The first step of the callback: either the attempt is rejected before any
/// outbound call is made, or the web layer is told to exchange the code.
pub enum CallbackStep {
    RejectState,
    Exchange { code: String },
}

/// The anti-forgery gate of the callback, run before any network call.  A
/// missing state cookie, or one whose value differs from the `state` query
/// parameter, rejects the attempt (a soft failure: redirect back to
/// initiation); only a matching pair releases the authorization code for the
/// exchange.
pub fn begin_callback(params: &Params, state_cookie: Option<&String>) -> (r: CallbackStep)
    ensures
        state_ok(opt_view(state_cookie), params.state@) ==> (r matches CallbackStep::Exchange {
            code,
        } && code@ == params.code@),
        !state_ok(opt_view(state_cookie), params.state@) ==> r is RejectState,
{
    if validate_state(state_cookie, &params.state) {
        CallbackStep::Exchange { code: params.code.clone() }
    } else {
        CallbackStep::RejectState
    }
}

/// The second step of the callback: what to do with the outcome of the code
/// exchange.
pub enum ExchangeStep {
    RetryLoginPage,
    FetchProfile { access_token: String },
}

/// Decision after the code exchange.  Failure is soft: the login page is
/// rendered again and the attempt abandoned.  Success releases the access
/// token for the profile fetch.
pub fn after_exchange(exchange: Result<Body, ProviderError>) -> (r: ExchangeStep)
    ensures
        exchange matches Ok(b) ==> (r matches ExchangeStep::FetchProfile { access_token }
            && access_token@ == b.access_token@),
        exchange is Err ==> r is RetryLoginPage,
{
    match exchange {
        Ok(b) => ExchangeStep::FetchProfile { access_token: b.access_token },
        Err(_) => ExchangeStep::RetryLoginPage,
    }
}

/// What the callback finally answers: a redirect to initiation carrying the
/// session token as a cookie, or the terminal login-failed page.
pub enum CallbackResponse {
    RedirectWithSession { token: String },
    LoginFailedPage,
}

/// How a successful login resolves against the store: an existing record for
/// the identity is reused verbatim and the store is untouched; a first login
/// appends exactly one record holding the profile's name and the freshly
/// generated token that is handed back.
pub open spec fn login_resolved(
    before: Seq<UserV>,
    after: Seq<UserV>,
    user_id: Seq<char>,
    name: Seq<char>,
    token: Seq<char>,
) -> bool {
    if has_key(before, user_id, github_platform()) {
        after == before && stored(before, user_id, github_platform(), token)
    } else {
        after == before.push(
            (UserV { user_id, platform: github_platform(), name, token }),
        ) && token.len() == 36
    }
}

/// The last step of the callback.  A failed profile fetch is terminal: the
/// login-failed page is rendered and the store untouched.  A fetched profile
/// is resolved get-or-create against the store under the "github" platform
/// key, and the resolved session token is issued in the response.
pub fn complete_callback(store: &mut UserStore, profile: Result<UserInfo, ProviderError>) -> (r:
    CallbackResponse)
    requires
        old(store).wf(),
    ensures
        final(store).wf(),
        profile is Err ==> r is LoginFailedPage && final(store)@ == old(store)@,
        profile matches Ok(ui) ==> (r matches CallbackResponse::RedirectWithSession { token }
            && login_resolved(
            old(store)@,
            final(store)@,
            dec_int(ui.id as int),
            ui.name@,
            token@,
        )),
{
    match profile {
        Ok(ui) => {
            let user_id = i32_to_dec(ui.id);
            let platform = String::from_str("github");
            let fresh = fresh_token();
            let token = store.get_or_create(&user_id, &platform, &ui.name, fresh);
            CallbackResponse::RedirectWithSession { token }
        },
        Err(_) => CallbackResponse::LoginFailedPage,
    }
}

} // verus!
