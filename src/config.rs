//! Settings of the server, read from environment variables.
use vstd::prelude::*;
use crate::identity::text_view;
use crate::json::{decimal, decimal_text};
use crate::text::{
    eq_ignore_ascii_case, eq_ignore_case, kept_pieces, nonblank_pieces, parse_number, parsed_in,
    pieces, separators, texts,
};

verus! {

#[derive(Debug)]
pub struct AppConfig {
    pub host: String,
    pub port: u16,
    pub mongo: MongoConfig,
    pub oauth: OAuthConfig,
    pub session: SessionConfig,
    pub cors: CorsConfig,
}

#[derive(Debug)]
pub struct MongoConfig {
    pub uri: String,
    pub database: String,
}

/// Where the OpenID provider is and how this client is registered there.
#[derive(Debug)]
pub struct OAuthConfig {
    pub client_id: String,
    pub client_secret: Option<String>,
    pub issuer_url: String,
    pub redirect_url: String,
    pub scopes: Vec<String>,
    pub success_redirect: String,
    pub failure_redirect: Option<String>,
}

/// How the session cookie is issued.
#[derive(Debug)]
pub struct SessionConfig {
    pub cookie_name: String,
    pub cookie_domain: Option<String>,
    pub cookie_secure: bool,
    /// The configured session lifetime in seconds; one hour stands in for a
    /// value that is not positive.
    pub ttl_secs: i64,
}

#[derive(Debug)]
pub struct CorsConfig {
    pub allowed_origins: Vec<String>,
}

/// A configuration that cannot be used.
#[derive(Debug, PartialEq)]
pub enum ConfigError {
    /// A required variable is not set.
    Missing(&'static str),
    /// A variable holds a value that cannot be used.
    Invalid(&'static str, String),
    /// The provider's discovery document could not be fetched.
    Discovery(String),
}

/// The value of the variable `name`: the first entry of that name.
pub open spec fn var_value(vars: Seq<(String, String)>, name: Seq<char>) -> Option<Seq<char>>
    decreases vars.len(),
{
    if vars.len() == 0 {
        None
    } else if vars[0].0@ == name {
        Some(vars[0].1@)
    } else {
        var_value(vars.drop_first(), name)
    }
}

/// A variable's value, or `default` where it is not set.
pub open spec fn or_default(v: Option<Seq<char>>, default: Seq<char>) -> Seq<char> {
    match v {
        Some(t) => t,
        None => default,
    }
}

/// `PORT` when it is a number that fits a port, else 8080.
pub open spec fn port_of(vars: Seq<(String, String)>) -> u16 {
    match var_value(vars, "PORT"@) {
        Some(t) => match parsed_in(t, false, 0, 65535) {
            Some(p) => p as u16,
            None => 8080,
        },
        None => 8080,
    }
}

/// The front end's origin: `FRONTEND_ORIGIN`, else the local development server.
pub open spec fn frontend_of(vars: Seq<(String, String)>) -> Seq<char> {
    or_default(var_value(vars, "FRONTEND_ORIGIN"@), "http://localhost:5173"@)
}

/// `SESSION_COOKIE_SECURE` is `1`, `true` or `yes` in any case; set when absent.
pub open spec fn secure_of(vars: Seq<(String, String)>) -> bool {
    match var_value(vars, "SESSION_COOKIE_SECURE"@) {
        Some(t) => eq_ignore_case(t, "1"@) || eq_ignore_case(t, "true"@) || eq_ignore_case(
            t,
            "yes"@,
        ),
        None => true,
    }
}

/// `SESSION_TTL_SECONDS` when it is a positive number, else one hour.
pub open spec fn ttl_of(vars: Seq<(String, String)>) -> i64 {
    match var_value(vars, "SESSION_TTL_SECONDS"@) {
        Some(t) => match parsed_in(t, true, 1, i64::MAX as int) {
            Some(v) => v as i64,
            None => 3600,
        },
        None => 3600,
    }
}

/// The configuration that the variables give, once the required ones are set.
pub open spec fn config_matches(c: AppConfig, vars: Seq<(String, String)>) -> bool {
    let frontend = frontend_of(vars);
    &&& c.host@ == or_default(var_value(vars, "HOST"@), "0.0.0.0"@)
    &&& c.port == port_of(vars)
    &&& Some(c.mongo.uri@) == var_value(vars, "MONGODB_URI"@)
    &&& c.mongo.database@ == or_default(var_value(vars, "MONGODB_DATABASE"@), "order-wizard"@)
    &&& Some(c.oauth.client_id@) == var_value(vars, "OAUTH_CLIENT_ID"@)
    &&& text_view(c.oauth.client_secret) == var_value(vars, "OAUTH_CLIENT_SECRET"@)
    &&& Some(c.oauth.issuer_url@) == var_value(vars, "OIDC_ISSUER_URL"@)
    &&& c.oauth.redirect_url@ == or_default(
        var_value(vars, "OAUTH_REDIRECT_URL"@),
        "http://localhost:"@ + decimal(port_of(vars) as nat) + "/auth/callback"@,
    )
    &&& texts(c.oauth.scopes@) == kept_pieces(
        pieces(or_default(var_value(vars, "OAUTH_SCOPES"@), "openid email"@), separators(false)),
        false,
    )
    &&& c.oauth.success_redirect@ == or_default(
        var_value(vars, "OAUTH_SUCCESS_REDIRECT"@),
        frontend + "/auth/success"@,
    )
    &&& text_view(c.oauth.failure_redirect) == var_value(vars, "OAUTH_FAILURE_REDIRECT"@)
    &&& c.session.cookie_name@ == or_default(
        var_value(vars, "SESSION_COOKIE_NAME"@),
        "ow_session"@,
    )
    &&& text_view(c.session.cookie_domain) == var_value(vars, "SESSION_COOKIE_DOMAIN"@)
    &&& c.session.cookie_secure == secure_of(vars)
    &&& c.session.ttl_secs == ttl_of(vars)
    &&& texts(c.cors.allowed_origins@) == kept_pieces(
        pieces(or_default(var_value(vars, "ALLOWED_ORIGINS"@), frontend), separators(true)),
        true,
    )
}

/// The value of the variable `name`.
pub fn lookup(vars: &Vec<(String, String)>, name: &str) -> (r: Option<String>)
    ensures
        text_view(r) == var_value(vars@, name@),
{
    let wanted = String::from_str(name);
    let mut i: usize = 0;
    assert(vars@.subrange(0, vars@.len() as int) =~= vars@);
    while i < vars.len()
        invariant
            0 <= i <= vars@.len(),
            wanted@ == name@,
            var_value(vars@, name@) == var_value(vars@.subrange(i as int, vars@.len() as int), name@),
        decreases vars@.len() - i,
    {
        let ghost rest = vars@.subrange(i as int, vars@.len() as int);
        assert(rest.drop_first() =~= vars@.subrange(i + 1, vars@.len() as int));
        assert(rest[0] == vars@[i as int]);
        if vars[i].0 == wanted {
            return Some(vars[i].1.clone());
        }
        i += 1;
    }
    None
}

fn lookup_or(vars: &Vec<(String, String)>, name: &str, default: &str) -> (r: String)
    ensures
        r@ == or_default(var_value(vars@, name@), default@),
{
    match lookup(vars, name) {
        Some(v) => v,
        None => String::from_str(default),
    }
}

impl AppConfig {
    /// The configuration that the environment variables `vars` give.
    /// `MONGODB_URI`, `OAUTH_CLIENT_ID` and `OIDC_ISSUER_URL` are required,
    /// checked in that order; every other variable has a default.
    pub fn from_vars(vars: &Vec<(String, String)>) -> (r: Result<AppConfig, ConfigError>)
        ensures
            var_value(vars@, "MONGODB_URI"@) is None ==> r == Err::<AppConfig, ConfigError>(
                ConfigError::Missing("MONGODB_URI"),
            ),
            var_value(vars@, "MONGODB_URI"@) is Some && var_value(vars@, "OAUTH_CLIENT_ID"@) is None
                ==> r == Err::<AppConfig, ConfigError>(ConfigError::Missing("OAUTH_CLIENT_ID")),
            var_value(vars@, "MONGODB_URI"@) is Some && var_value(vars@, "OAUTH_CLIENT_ID"@) is Some
                && var_value(vars@, "OIDC_ISSUER_URL"@) is None ==> r == Err::<
                AppConfig,
                ConfigError,
            >(ConfigError::Missing("OIDC_ISSUER_URL")),
            var_value(vars@, "MONGODB_URI"@) is Some && var_value(vars@, "OAUTH_CLIENT_ID"@) is Some
                && var_value(vars@, "OIDC_ISSUER_URL"@) is Some ==> r is Ok && config_matches(
                r->Ok_0,
                vars@,
            ),
    {
        let host = lookup_or(vars, "HOST", "0.0.0.0");
        let port: u16 = match lookup(vars, "PORT") {
            Some(t) => match parse_number(t.as_str(), false, 0, 65535) {
                Some(p) => p as u16,
                None => 8080,
            },
            None => 8080,
        };
        let uri = match lookup(vars, "MONGODB_URI") {
            Some(v) => v,
            None => {
                return Err(ConfigError::Missing("MONGODB_URI"));
            },
        };
        let database = lookup_or(vars, "MONGODB_DATABASE", "order-wizard");
        let client_id = match lookup(vars, "OAUTH_CLIENT_ID") {
            Some(v) => v,
            None => {
                return Err(ConfigError::Missing("OAUTH_CLIENT_ID"));
            },
        };
        let client_secret = lookup(vars, "OAUTH_CLIENT_SECRET");
        let issuer_url = match lookup(vars, "OIDC_ISSUER_URL") {
            Some(v) => v,
            None => {
                return Err(ConfigError::Missing("OIDC_ISSUER_URL"));
            },
        };
        let frontend = lookup_or(vars, "FRONTEND_ORIGIN", "http://localhost:5173");
        let redirect_url = match lookup(vars, "OAUTH_REDIRECT_URL") {
            Some(v) => v,
            None => String::from_str("http://localhost:").concat(
                decimal_text(port as u64).as_str(),
            ).concat("/auth/callback"),
        };
        let success_redirect = match lookup(vars, "OAUTH_SUCCESS_REDIRECT") {
            Some(v) => v,
            None => frontend.clone().concat("/auth/success"),
        };
        let failure_redirect = lookup(vars, "OAUTH_FAILURE_REDIRECT");
        let scope_text = lookup_or(vars, "OAUTH_SCOPES", "openid email");
        let scopes = nonblank_pieces(scope_text.as_str(), false, false);
        let cookie_name = lookup_or(vars, "SESSION_COOKIE_NAME", "ow_session");
        let cookie_domain = lookup(vars, "SESSION_COOKIE_DOMAIN");
        let cookie_secure = match lookup(vars, "SESSION_COOKIE_SECURE") {
            Some(t) => eq_ignore_ascii_case(t.as_str(), "1") || eq_ignore_ascii_case(
                t.as_str(),
                "true",
            ) || eq_ignore_ascii_case(t.as_str(), "yes"),
            None => true,
        };
        let ttl_secs: i64 = match lookup(vars, "SESSION_TTL_SECONDS") {
            Some(t) => match parse_number(t.as_str(), true, 1, i64::MAX) {
                Some(v) => v,
                None => 3600,
            },
            None => 3600,
        };
        let origin_text = match lookup(vars, "ALLOWED_ORIGINS") {
            Some(v) => v,
            None => frontend,
        };
        let allowed_origins = nonblank_pieces(origin_text.as_str(), true, true);
        Ok(AppConfig {
            host,
            port,
            mongo: MongoConfig { uri, database },
            oauth: OAuthConfig {
                client_id,
                client_secret,
                issuer_url,
                redirect_url,
                scopes,
                success_redirect,
                failure_redirect,
            },
            session: SessionConfig { cookie_name, cookie_domain, cookie_secure, ttl_secs },
            cors: CorsConfig { allowed_origins },
        })
    }
}

} // verus!
