//! How the service is laid out: its base URL and the endpoints it serves,
//! with the ones that need a logged-in user.

use vstd::prelude::*;

verus! {

/// The URL the service is reached at.
pub struct ApplicationBaseUrl(pub String);

/// How a browser may send the session cookie along with cross-site requests.
#[derive(Clone, Copy, Debug, PartialEq, Eq, Structural)]
pub enum SameSite {
    Strict,
    Lax,
    /// Sent with every request.
    Unrestricted,
}

/// The settings of the session cookie.
pub struct SessionCookie {
    pub name: String,
    pub same_site: SameSite,
    pub secure: bool,
    /// Whether the cookie is signed (rather than encrypted).
    pub signed: bool,
    /// How long a session lives, in seconds.
    pub ttl_secs: i64,
}

/// The session cookie the service sets: named `session_id`, sent only to
/// the service's own site, signed, marked secure as configured, and living
/// for the configured number of seconds.
pub fn session_cookie(cookie_secure: bool, cookie_exp_in_secs: i64) -> (c: SessionCookie)
    ensures
        c.name@ == "session_id"@,
        c.same_site == SameSite::Strict,
        c.secure == cookie_secure,
        c.signed,
        c.ttl_secs == cookie_exp_in_secs,
{
    SessionCookie {
        name: String::from_str("session_id"),
        same_site: SameSite::Strict,
        secure: cookie_secure,
        signed: true,
        ttl_secs: cookie_exp_in_secs,
    }
}

/// How long browsers may cache the answer to a cross-origin preflight
/// request, in seconds.
pub const CORS_MAX_AGE_SECS: usize = 3600;

/// The HTTP methods the service answers.
#[derive(Clone, Copy, Debug, PartialEq, Eq, Structural)]
pub enum Method {
    Get,
    Post,
}

/// The service's endpoints.
#[derive(Clone, Copy, Debug, PartialEq, Eq, Structural)]
pub enum Endpoint {
    HealthCheck,
    Login,
    CreateUser,
    DailyTaskList,
    LogOut,
    ChangePassword,
}

/// An endpoint that anyone may call: the health check, login and sign-up.
pub open spec fn is_open_endpoint(e: Endpoint) -> bool {
    e == Endpoint::HealthCheck || e == Endpoint::Login || e == Endpoint::CreateUser
}

/// A registered route: requests with `method` to `path` go to `endpoint`,
/// and pass the logged-in-user guard first when `requires_login` holds.
pub struct Route {
    pub method: Method,
    pub path: String,
    pub endpoint: Endpoint,
    pub requires_login: bool,
}

/// `r` routes `method` requests for `path` to `endpoint`, behind the guard
/// when the endpoint is not open.
pub open spec fn is_route(r: Route, method: Method, path: Seq<char>, endpoint: Endpoint) -> bool {
    &&& r.method == method
    &&& r.path@ == path
    &&& r.endpoint == endpoint
    &&& r.requires_login == !is_open_endpoint(endpoint)
}

fn route(method: Method, path: &str, endpoint: Endpoint) -> (r: Route)
    ensures
        is_route(r, method, path@, endpoint),
{
    let requires_login = match endpoint {
        Endpoint::HealthCheck | Endpoint::Login | Endpoint::CreateUser => false,
        _ => true,
    };
    Route { method, path: String::from_str(path), endpoint, requires_login }
}

/// The routes the service registers, in order. Every endpoint but the
/// health check, login and sign-up sits behind the logged-in-user guard.
pub fn routes() -> (rs: Vec<Route>)
    ensures
        rs.len() == 6,
        is_route(rs[0], Method::Get, "/health_check"@, Endpoint::HealthCheck),
        is_route(rs[1], Method::Post, "/api/auth/login"@, Endpoint::Login),
        is_route(rs[2], Method::Post, "/api/auth/createuser"@, Endpoint::CreateUser),
        is_route(rs[3], Method::Get, "/api/dailytasklist"@, Endpoint::DailyTaskList),
        is_route(rs[4], Method::Post, "/api/auth/logout"@, Endpoint::LogOut),
        is_route(rs[5], Method::Post, "/api/auth/changepassword"@, Endpoint::ChangePassword),
        forall|i: int|
            0 <= i < rs.len() ==> (#[trigger] rs[i]).requires_login == !is_open_endpoint(
                rs[i].endpoint,
            ),
{
    let mut rs: Vec<Route> = Vec::new();
    rs.push(route(Method::Get, "/health_check", Endpoint::HealthCheck));
    rs.push(route(Method::Post, "/api/auth/login", Endpoint::Login));
    rs.push(route(Method::Post, "/api/auth/createuser", Endpoint::CreateUser));
    rs.push(route(Method::Get, "/api/dailytasklist", Endpoint::DailyTaskList));
    rs.push(route(Method::Post, "/api/auth/logout", Endpoint::LogOut));
    rs.push(route(Method::Post, "/api/auth/changepassword", Endpoint::ChangePassword));
    rs
}

} // verus!
