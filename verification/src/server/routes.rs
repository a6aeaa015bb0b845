//! The decisions of the local HTTP service: authentication answers, password
//! changes, configuration updates, the execution history and the bootstrap report.
use vstd::prelude::*;

use crate::error::{AppError, invalid_params_message};
use crate::text::{chars_of, concat2, concat3, split_chars, split_on, str_eq, trim_chars, trim_seq};

verus! {

/// The name of the cookie that carries the console password.
pub const AUTH_COOKIE_NAME: &'static str = "notebooklm_cli_token";

/// The agent-browser binary assumed when none was detected.
pub const DEFAULT_AGENT_BROWSER_BINARY: &'static str = "agent-browser";

/// How many executions the history keeps.
pub const MAX_RECENT_EXECUTIONS: usize = 100;

/// The console asks for a password when one is set but was never changed by its owner.
pub fn password_required(password: &str, password_changed: bool) -> (r: bool)
    ensures
        r == (password@.len() > 0 && !password_changed),
{
    password.unicode_len() > 0 && !password_changed
}

/// An agent-browser binary counts as detected when it is not the default name.
pub fn binary_detected(binary: &str) -> (r: bool)
    ensures
        r == (binary@ != DEFAULT_AGENT_BROWSER_BINARY@),
{
    !str_eq(binary, DEFAULT_AGENT_BROWSER_BINARY)
}

/// The password settings of the configuration file.
#[derive(Debug, Clone)]
pub struct AuthSettings {
    pub password: String,
    pub password_changed: bool,
}

/// The password the running service checks requests against.
#[derive(Debug, Clone)]
pub struct AuthState {
    pub password: String,
    pub password_initialized: bool,
}

/// Whether a password may be set: only by an authenticated caller (when the route
/// asks for one), and never to the empty password.
pub fn check_password_change(authenticated: bool, password: &str) -> (r: Result<(), AppError>)
    ensures
        !authenticated ==> r matches Err(AppError::AuthRequired),
        authenticated && password@.len() == 0 ==> (r is Err && invalid_params_message(r->Err_0)
            == Some("password cannot be empty"@)),
        authenticated && password@.len() > 0 ==> r is Ok,
{
    if !authenticated {
        return Err(AppError::AuthRequired);
    }
    if password.unicode_len() == 0 {
        return Err(AppError::InvalidParams(String::from_str("password cannot be empty")));
    }
    Ok(())
}

/// A `Cookie` header carries cookie `name` set to `value` when one of its
/// `;`-separated pairs, without surrounding white space, reads `name=value`.
pub open spec fn cookie_carries(header: Seq<char>, name: Seq<char>, value: Seq<char>) -> bool {
    exists|k: int|
        0 <= k < split_on(header, ';').len() && trim_seq(#[trigger] split_on(header, ';')[k]) == name + "="@
            + value
}

/// An `Authorization` header carries `value` as a bearer token.
pub open spec fn bearer_carries(header: Seq<char>, value: Seq<char>) -> bool {
    header == "Bearer "@ + value
}

/// A request with `Cookie` headers `cookies` and `Authorization` header
/// `authorization` is authenticated: a console password is set, and the request
/// carries it as the session cookie or as a bearer token.
pub open spec fn authenticated(cookies: Seq<Seq<char>>, authorization: Option<Seq<char>>, auth: AuthState) -> bool {
    &&& auth.password_initialized
    &&& auth.password@.len() > 0
    &&& {
        ||| (authorization matches Some(h) && bearer_carries(h, auth.password@))
        ||| exists|i: int| 0 <= i < cookies.len() && cookie_carries(#[trigger] cookies[i], AUTH_COOKIE_NAME@, auth.password@)
    }
}

fn chars_equal(a: &Vec<char>, b: &Vec<char>) -> (r: bool)
    ensures
        r == (a@ == b@),
{
    if a.len() != b.len() {
        return false;
    }
    let mut i: usize = 0;
    while i < a.len()
        invariant
            a.len() == b.len(),
            i <= a.len(),
            forall|j: int| 0 <= j < i ==> a@[j] == b@[j],
        decreases a.len() - i,
    {
        if a[i] != b[i] {
            return false;
        }
        i = i + 1;
    }
    assert(a@ =~= b@);
    true
}

fn cookie_header_carries(header: &str, expected: &Vec<char>) -> (r: bool)
    ensures
        r == exists|k: int|
            0 <= k < split_on(header@, ';').len() && trim_seq(#[trigger] split_on(header@, ';')[k]) == expected@,
{
    let chars = chars_of(header);
    let parts = split_chars(&chars, ';');
    let ghost views = split_on(header@, ';');
    assert(parts@.len() == views.len());
    let mut k: usize = 0;
    while k < parts.len()
        invariant
            k <= parts.len(),
            views == split_on(header@, ';'),
            parts@.map_values(|v: Vec<char>| v@) == views,
            forall|j: int| 0 <= j < k ==> trim_seq(#[trigger] views[j]) != expected@,
        decreases parts.len() - k,
    {
        assert(parts@[k as int]@ == views[k as int]);
        let trimmed = trim_chars(&parts[k]);
        if chars_equal(&trimmed, expected) {
            return true;
        }
        k = k + 1;
    }
    false
}

/// Whether a request with `Cookie` headers `cookie_headers` and `Authorization`
/// header `authorization` carries the console password of `auth`.
pub fn is_authenticated(cookie_headers: &Vec<String>, authorization: Option<&str>, auth: &AuthState) -> (r: bool)
    ensures
        r == authenticated(
            cookie_headers@.map_values(|h: String| h@),
            match authorization {
                Some(h) => Some(h@),
                None => None,
            },
            *auth,
        ),
{
    if !auth.password_initialized || auth.password.as_str().unicode_len() == 0 {
        return false;
    }
    let bearer = concat2("Bearer ", auth.password.as_str());
    assert(bearer@ =~= "Bearer "@ + auth.password@);
    if let Some(h) = authorization {
        if str_eq(h, bearer.as_str()) {
            return true;
        }
    }
    let cookie = concat3(AUTH_COOKIE_NAME, "=", auth.password.as_str());
    let expected = chars_of(cookie.as_str());
    let ghost cookies = cookie_headers@.map_values(|h: String| h@);
    let mut i: usize = 0;
    while i < cookie_headers.len()
        invariant
            i <= cookie_headers.len(),
            cookies == cookie_headers@.map_values(|h: String| h@),
            expected@ == AUTH_COOKIE_NAME@ + "="@ + auth.password@,
            auth.password_initialized,
            auth.password@.len() > 0,
            !(authorization matches Some(h) && bearer_carries(h@, auth.password@)),
            forall|j: int| 0 <= j < i ==> !cookie_carries(#[trigger] cookies[j], AUTH_COOKIE_NAME@, auth.password@),
        decreases cookie_headers.len() - i,
    {
        assert(cookies[i as int] == cookie_headers@[i as int]@);
        if cookie_header_carries(cookie_headers[i].as_str(), &expected) {
            return true;
        }
        i = i + 1;
    }
    false
}

/// The routes anyone may call: health, the bootstrap report, the first password
/// setup, login and logout. Every other route of the service is protected.
pub open spec fn is_public_route(path: Seq<char>) -> bool {
    ||| path == "/health"@
    ||| path == "/api/bootstrap"@
    ||| path == "/api/setup/password"@
    ||| path == "/api/login"@
    ||| path == "/api/logout"@
    ||| path == "/logout"@
}

/// Whether a request to route `path` may proceed: a public route always, a
/// protected one only when authenticated.
pub fn route_access(path: &str, authenticated: bool) -> (r: Result<(), AppError>)
    ensures
        is_public_route(path@) || authenticated ==> r is Ok,
        !is_public_route(path@) && !authenticated ==> r matches Err(AppError::AuthRequired),
{
    if authenticated || str_eq(path, "/health") || str_eq(path, "/api/bootstrap") || str_eq(
        path,
        "/api/setup/password",
    ) || str_eq(path, "/api/login") || str_eq(path, "/api/logout") || str_eq(path, "/logout") {
        Ok(())
    } else {
        Err(AppError::AuthRequired)
    }
}

/// Whether the first-run password setup may set `password`: only while the owner has
/// not set one yet (`password_changed`), unless the caller is authenticated; never
/// to the empty password.
pub fn check_password_setup(password_changed: bool, authenticated: bool, password: &str) -> (r: Result<(), AppError>)
    ensures
        password_changed && !authenticated ==> r matches Err(AppError::AuthRequired),
        (!password_changed || authenticated) && password@.len() == 0 ==> (r is Err && invalid_params_message(
            r->Err_0,
        ) == Some("password cannot be empty"@)),
        (!password_changed || authenticated) && password@.len() > 0 ==> r is Ok,
{
    check_password_change(!password_changed || authenticated, password)
}

/// Sets `password` as the console password, in the configuration and in the running service.
pub fn set_password(settings: &mut AuthSettings, state: &mut AuthState, password: &str)
    ensures
        final(settings).password@ == password@,
        final(settings).password_changed,
        final(state).password@ == password@,
        final(state).password_initialized,
{
    settings.password = String::from_str(password);
    settings.password_changed = true;
    state.password = String::from_str(password);
    state.password_initialized = true;
}

/// The cookie that keeps a console session signed in with `password`.
pub open spec fn session_cookie_of(password: Seq<char>) -> Seq<char> {
    AUTH_COOKIE_NAME@ + "="@ + password + "; Path=/; HttpOnly; SameSite=Strict"@
}

/// A login with `given` against the service's `expected` password: the session
/// cookie when they are equal, an invalid-password error otherwise.
pub fn login_cookie(given: &str, expected: &str) -> (r: Result<String, AppError>)
    ensures
        given@ == expected@ ==> (r matches Ok(c) && c@ == session_cookie_of(given@)),
        given@ != expected@ ==> r matches Err(AppError::InvalidPassword),
{
    if !str_eq(given, expected) {
        return Err(AppError::InvalidPassword);
    }
    let mut c = concat3(AUTH_COOKIE_NAME, "=", given);
    c.append("; Path=/; HttpOnly; SameSite=Strict");
    Ok(c)
}

/// The cookie that ends a console session.
pub fn logout_cookie() -> (r: String)
    ensures
        r@ == AUTH_COOKIE_NAME@ + "=; Path=/; Max-Age=0"@,
{
    let mut c = String::from_str(AUTH_COOKIE_NAME);
    c.append("=; Path=/; Max-Age=0");
    c
}

/// The agent-browser settings of the configuration file.
#[derive(Debug, Clone)]
pub struct AgentBrowserSettings {
    pub binary: String,
    pub session_name: String,
    pub timeout_secs: u64,
}

/// The remote-desktop settings of the configuration file.
#[derive(Debug, Clone)]
pub struct VncSettings {
    pub url: String,
    pub embed: bool,
}

/// The settings a configuration update carries; an absent one stays as it is.
#[derive(Debug, Clone)]
pub struct ConfigPatch {
    pub binary: Option<String>,
    pub session_name: Option<String>,
    pub timeout_secs: Option<u64>,
    pub vnc_url: Option<String>,
    pub vnc_embed: Option<bool>,
}

/// Applies `patch`: each setting it carries replaces the current one.
pub fn apply_config_patch(browser: &mut AgentBrowserSettings, vnc: &mut VncSettings, patch: ConfigPatch)
    ensures
        final(browser).binary == (match patch.binary {
            Some(b) => b,
            None => old(browser).binary,
        }),
        final(browser).session_name == (match patch.session_name {
            Some(s) => s,
            None => old(browser).session_name,
        }),
        final(browser).timeout_secs == (match patch.timeout_secs {
            Some(t) => t,
            None => old(browser).timeout_secs,
        }),
        final(vnc).url == (match patch.vnc_url {
            Some(u) => u,
            None => old(vnc).url,
        }),
        final(vnc).embed == (match patch.vnc_embed {
            Some(e) => e,
            None => old(vnc).embed,
        }),
{
    if let Some(b) = patch.binary {
        browser.binary = b;
    }
    if let Some(s) = patch.session_name {
        browser.session_name = s;
    }
    if let Some(t) = patch.timeout_secs {
        browser.timeout_secs = t;
    }
    if let Some(u) = patch.vnc_url {
        vnc.url = u;
    }
    if let Some(e) = patch.vnc_embed {
        vnc.embed = e;
    }
}

/// The history after `record` is appended to `history` and, past the limit, its
/// oldest entry is dropped.
pub open spec fn recorded<T>(history: Seq<T>, record: T) -> Seq<T> {
    if history.len() + 1 > MAX_RECENT_EXECUTIONS {
        history.push(record).drop_first()
    } else {
        history.push(record)
    }
}

/// The history never grows past its limit, and its newest entry is the last one recorded.
pub proof fn law_history_bounded<T>(history: Seq<T>, record: T)
    requires
        history.len() <= MAX_RECENT_EXECUTIONS,
    ensures
        recorded(history, record).len() <= MAX_RECENT_EXECUTIONS,
        recorded(history, record).last() == record,
        history.len() < MAX_RECENT_EXECUTIONS ==> recorded(history, record).drop_last() == history,
{
    if history.len() < MAX_RECENT_EXECUTIONS {
        assert(history.push(record).drop_last() =~= history);
    }
}

/// Appends `record` to the execution history, dropping the oldest entry past the limit.
pub fn record_execution<T>(history: &mut Vec<T>, record: T)
    ensures
        final(history)@ == recorded(old(history)@, record),
{
    history.push(record);
    if history.len() > MAX_RECENT_EXECUTIONS {
        history.remove(0);
        assert(final(history)@ =~= recorded(old(history)@, record));
    }
}

} // verus!
