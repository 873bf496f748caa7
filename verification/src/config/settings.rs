//! The settings and the variables they are read from.
//!
//! The variables come as a list of names and values, as the process found
//! them in its environment. A variable that is not set, or whose value does
//! not parse, gives way to its default; only the secret key and the two
//! addresses have none.

use crate::utils::text::{
    chars_of, decimal_up_to, lowercase_of, parse_bool, parse_u16, parse_u32, parse_u64,
    same_text, starts_with, substring, to_lowercase, trim, trimmed, truth_value,
};
use vstd::prelude::*;
use vstd::string::{StringExecFns, StringSliceAdditionalSpecFns};

verus! {

/// Where the service runs.
#[derive(Clone, Copy, Debug, PartialEq, Eq, Structural)]
pub enum Environment {
    Development,
    Production,
}

#[derive(Clone, Debug, PartialEq, Eq)]
pub struct DatabaseSettings {
    pub url: String,
    pub max_connections: u32,
    pub min_idle_connections: u32,
    pub timeout: u64,
    pub max_lifetime: u64,
    pub auto_migrate: bool,
}

#[derive(Clone, Debug, PartialEq, Eq)]
pub struct RedisSettings {
    pub url: String,
    pub pool_size: u32,
    pub timeout: u64,
    pub max_retries: u32,
}

#[derive(Clone, Debug, PartialEq, Eq)]
pub struct CookieSettings {
    pub name: String,
    pub http_only: bool,
    pub secure: bool,
    pub same_site: String,
    pub domain: String,
    pub max_age: Option<u32>,
    pub path: String,
}

#[derive(Clone, Debug, PartialEq, Eq)]
pub struct CorsSettings {
    pub allowed_origins: Vec<String>,
    pub allowed_methods: Vec<String>,
    pub allowed_headers: Vec<String>,
    pub allow_credentials: bool,
    pub max_age: u32,
    pub expose_headers: Vec<String>,
}

#[derive(Clone, Debug, PartialEq, Eq)]
pub struct ApiSettings {
    pub port: u16,
    pub host: String,
    pub request_timeout: u64,
    pub max_request_size: u32,
    pub rate_limit: Option<u32>,
    pub api_prefix: String,
}

#[derive(Clone, Debug, PartialEq, Eq)]
pub struct Settings {
    pub secret_key: String,
    pub environment: Environment,
    pub database: DatabaseSettings,
    pub redis: RedisSettings,
    pub api: ApiSettings,
    pub cors: CorsSettings,
    pub cookie: CookieSettings,
}

/// Why settings could not be read or are not sound.
#[derive(Clone, Debug, PartialEq, Eq)]
pub enum SettingsError {
    /// `SECRET_KEY` is not set.
    MissingSecretKey,
    /// `DATABASE_URL` is not set.
    MissingDatabaseUrl,
    /// `REDIS_URL` is not set.
    MissingRedisUrl,
    /// The secret key has fewer than 32 bytes.
    SecretKeyTooShort,
    /// The database's address is empty.
    EmptyDatabaseUrl,
    /// The session store's address is empty.
    EmptyRedisUrl,
    /// The pool is to keep more idle connections than it may open.
    TooManyIdleConnections,
    /// This origin begins with neither `http://` nor `https://`.
    InvalidCorsOrigin(String),
    /// The prefix of the routes does not begin with `/`.
    InvalidApiPrefix,
}

/// The contents of [`DatabaseSettings`], as mathematical values.
pub struct DatabaseSettingsView {
    pub url: Seq<char>,
    pub max_connections: u32,
    pub min_idle_connections: u32,
    pub timeout: u64,
    pub max_lifetime: u64,
    pub auto_migrate: bool,
}

/// The contents of [`RedisSettings`], as mathematical values.
pub struct RedisSettingsView {
    pub url: Seq<char>,
    pub pool_size: u32,
    pub timeout: u64,
    pub max_retries: u32,
}

/// The contents of [`CookieSettings`], as mathematical values.
pub struct CookieSettingsView {
    pub name: Seq<char>,
    pub http_only: bool,
    pub secure: bool,
    pub same_site: Seq<char>,
    pub domain: Seq<char>,
    pub max_age: Option<u32>,
    pub path: Seq<char>,
}

/// The contents of [`CorsSettings`], as mathematical values.
pub struct CorsSettingsView {
    pub allowed_origins: Seq<Seq<char>>,
    pub allowed_methods: Seq<Seq<char>>,
    pub allowed_headers: Seq<Seq<char>>,
    pub allow_credentials: bool,
    pub max_age: u32,
    pub expose_headers: Seq<Seq<char>>,
}

/// The contents of [`ApiSettings`], as mathematical values.
pub struct ApiSettingsView {
    pub port: u16,
    pub host: Seq<char>,
    pub request_timeout: u64,
    pub max_request_size: u32,
    pub rate_limit: Option<u32>,
    pub api_prefix: Seq<char>,
}

/// The contents of [`Settings`], as mathematical values.
pub struct SettingsView {
    pub secret_key: Seq<char>,
    pub environment: Environment,
    pub database: DatabaseSettingsView,
    pub redis: RedisSettingsView,
    pub api: ApiSettingsView,
    pub cors: CorsSettingsView,
    pub cookie: CookieSettingsView,
}

/// The contents of [`SettingsError`], as mathematical values.
pub enum SettingsErrorView {
    MissingSecretKey,
    MissingDatabaseUrl,
    MissingRedisUrl,
    SecretKeyTooShort,
    EmptyDatabaseUrl,
    EmptyRedisUrl,
    TooManyIdleConnections,
    InvalidCorsOrigin(Seq<char>),
    InvalidApiPrefix,
}

/// The texts of a list of strings.
pub open spec fn texts(list: Seq<String>) -> Seq<Seq<char>> {
    list.map_values(|s: String| s@)
}

impl View for DatabaseSettings {
    type V = DatabaseSettingsView;

    open spec fn view(&self) -> DatabaseSettingsView {
        DatabaseSettingsView {
            url: self.url@,
            max_connections: self.max_connections,
            min_idle_connections: self.min_idle_connections,
            timeout: self.timeout,
            max_lifetime: self.max_lifetime,
            auto_migrate: self.auto_migrate,
        }
    }
}

impl View for RedisSettings {
    type V = RedisSettingsView;

    open spec fn view(&self) -> RedisSettingsView {
        RedisSettingsView {
            url: self.url@,
            pool_size: self.pool_size,
            timeout: self.timeout,
            max_retries: self.max_retries,
        }
    }
}

impl View for CookieSettings {
    type V = CookieSettingsView;

    open spec fn view(&self) -> CookieSettingsView {
        CookieSettingsView {
            name: self.name@,
            http_only: self.http_only,
            secure: self.secure,
            same_site: self.same_site@,
            domain: self.domain@,
            max_age: self.max_age,
            path: self.path@,
        }
    }
}

impl View for CorsSettings {
    type V = CorsSettingsView;

    open spec fn view(&self) -> CorsSettingsView {
        CorsSettingsView {
            allowed_origins: texts(self.allowed_origins@),
            allowed_methods: texts(self.allowed_methods@),
            allowed_headers: texts(self.allowed_headers@),
            allow_credentials: self.allow_credentials,
            max_age: self.max_age,
            expose_headers: texts(self.expose_headers@),
        }
    }
}

impl View for ApiSettings {
    type V = ApiSettingsView;

    open spec fn view(&self) -> ApiSettingsView {
        ApiSettingsView {
            port: self.port,
            host: self.host@,
            request_timeout: self.request_timeout,
            max_request_size: self.max_request_size,
            rate_limit: self.rate_limit,
            api_prefix: self.api_prefix@,
        }
    }
}

impl View for Settings {
    type V = SettingsView;

    open spec fn view(&self) -> SettingsView {
        SettingsView {
            secret_key: self.secret_key@,
            environment: self.environment,
            database: self.database@,
            redis: self.redis@,
            api: self.api@,
            cors: self.cors@,
            cookie: self.cookie@,
        }
    }
}

impl View for SettingsError {
    type V = SettingsErrorView;

    open spec fn view(&self) -> SettingsErrorView {
        match self {
            SettingsError::MissingSecretKey => SettingsErrorView::MissingSecretKey,
            SettingsError::MissingDatabaseUrl => SettingsErrorView::MissingDatabaseUrl,
            SettingsError::MissingRedisUrl => SettingsErrorView::MissingRedisUrl,
            SettingsError::SecretKeyTooShort => SettingsErrorView::SecretKeyTooShort,
            SettingsError::EmptyDatabaseUrl => SettingsErrorView::EmptyDatabaseUrl,
            SettingsError::EmptyRedisUrl => SettingsErrorView::EmptyRedisUrl,
            SettingsError::TooManyIdleConnections => SettingsErrorView::TooManyIdleConnections,
            SettingsError::InvalidCorsOrigin(origin) => SettingsErrorView::InvalidCorsOrigin(
                origin@,
            ),
            SettingsError::InvalidApiPrefix => SettingsErrorView::InvalidApiPrefix,
        }
    }
}

impl SettingsErrorView {
    /// What the error says.
    pub open spec fn message(self) -> Seq<char> {
        match self {
            SettingsErrorView::MissingSecretKey => "SECRET_KEY must be set"@,
            SettingsErrorView::MissingDatabaseUrl => "DATABASE_URL must be set"@,
            SettingsErrorView::MissingRedisUrl => "REDIS_URL must be set"@,
            SettingsErrorView::SecretKeyTooShort => {
                "Secret key must be at least 32 characters long"@
            },
            SettingsErrorView::EmptyDatabaseUrl => "Database URL must be set"@,
            SettingsErrorView::EmptyRedisUrl => "Redis URL must be set"@,
            SettingsErrorView::TooManyIdleConnections => {
                "Min db idle connections must be less than max db connections"@
            },
            SettingsErrorView::InvalidCorsOrigin(origin) => "Invalid CORS origin: "@ + origin,
            SettingsErrorView::InvalidApiPrefix => "API prefix must start with /"@,
        }
    }
}

impl SettingsError {
    /// What the error says.
    pub fn message(&self) -> (r: String)
        ensures
            r@ == self@.message(),
    {
        match self {
            SettingsError::MissingSecretKey => "SECRET_KEY must be set".to_owned(),
            SettingsError::MissingDatabaseUrl => "DATABASE_URL must be set".to_owned(),
            SettingsError::MissingRedisUrl => "REDIS_URL must be set".to_owned(),
            SettingsError::SecretKeyTooShort => {
                "Secret key must be at least 32 characters long".to_owned()
            },
            SettingsError::EmptyDatabaseUrl => "Database URL must be set".to_owned(),
            SettingsError::EmptyRedisUrl => "Redis URL must be set".to_owned(),
            SettingsError::TooManyIdleConnections => {
                "Min db idle connections must be less than max db connections".to_owned()
            },
            SettingsError::InvalidCorsOrigin(origin) => {
                "Invalid CORS origin: ".to_owned().concat(origin.as_str())
            },
            SettingsError::InvalidApiPrefix => "API prefix must start with /".to_owned(),
        }
    }
}

/// The value of the variable `name`: that of the first entry with the name.
pub open spec fn lookup(vars: Seq<(String, String)>, name: Seq<char>) -> Option<Seq<char>>
    decreases vars.len(),
{
    if vars.len() == 0 {
        None
    } else if vars[0].0@ == name {
        Some(vars[0].1@)
    } else {
        lookup(vars.drop_first(), name)
    }
}

/// The value of the variable `name`, or `default` where it is not set.
pub open spec fn text_or(vars: Seq<(String, String)>, name: Seq<char>, default: Seq<char>) -> Seq<
    char,
> {
    match lookup(vars, name) {
        Some(value) => value,
        None => default,
    }
}

/// The number that the variable `name` writes, if it is set, writes one,
/// and that one is at most `max`.
pub open spec fn number(vars: Seq<(String, String)>, name: Seq<char>, max: nat) -> Option<nat> {
    match lookup(vars, name) {
        Some(value) => decimal_up_to(value, max),
        None => None,
    }
}

/// The number that the variable `name` writes, or `default` where there is
/// none.
pub open spec fn number_or(
    vars: Seq<(String, String)>,
    name: Seq<char>,
    max: nat,
    default: nat,
) -> nat {
    match number(vars, name, max) {
        Some(value) => value,
        None => default,
    }
}

/// The truth value that the variable `name` writes, or `default` where it
/// is not set or writes none.
pub open spec fn flag_or(vars: Seq<(String, String)>, name: Seq<char>, default: bool) -> bool {
    match lookup(vars, name) {
        Some(value) => match truth_value(value) {
            Some(flag) => flag,
            None => default,
        },
        None => default,
    }
}

/// The place of the first comma of `s`, or its length where it has none.
pub open spec fn first_comma(s: Seq<char>) -> nat
    decreases s.len(),
{
    if s.len() == 0 || s[0] == ',' {
        0
    } else {
        1 + first_comma(s.drop_first())
    }
}

/// The entries of a list that is written with commas between them: each
/// without the whitespace around it, the empty ones left out.
pub open spec fn comma_separated(s: Seq<char>) -> Seq<Seq<char>>
    decreases s.len(),
{
    let end = first_comma(s) as int;
    let entry = trimmed(s.take(end));
    let kept = if entry.len() > 0 {
        seq![entry]
    } else {
        seq![]
    };
    if end < s.len() {
        kept + comma_separated(s.skip(end + 1))
    } else {
        kept
    }
}

/// The environment that the variable `ENVIRONMENT` names: production where
/// its value is `production` in whatever case, else development.
pub open spec fn environment_of(vars: Seq<(String, String)>) -> Environment {
    if lowercase_of(text_or(vars, "ENVIRONMENT"@, Seq::empty())) == "production"@ {
        Environment::Production
    } else {
        Environment::Development
    }
}

/// The settings that the variables give, with the three values that have
/// no default.
pub open spec fn settings_of(
    vars: Seq<(String, String)>,
    secret_key: Seq<char>,
    database_url: Seq<char>,
    redis_url: Seq<char>,
) -> SettingsView {
    SettingsView {
        secret_key,
        environment: environment_of(vars),
        database: DatabaseSettingsView {
            url: database_url,
            max_connections: number_or(vars, "DB_MAX_CONNECTIONS"@, u32::MAX as nat, 10) as u32,
            min_idle_connections: number_or(vars, "DB_MIN_IDLE_CONNECTIONS"@, u32::MAX as nat, 2)
                as u32,
            timeout: number_or(vars, "DB_TIMEOUT"@, u64::MAX as nat, 30) as u64,
            max_lifetime: number_or(vars, "DB_MAX_LIFETIME"@, u64::MAX as nat, 1800) as u64,
            auto_migrate: flag_or(vars, "DB_AUTO_MIGRATE"@, false),
        },
        redis: RedisSettingsView {
            url: redis_url,
            pool_size: number_or(vars, "REDIS_POOL_SIZE"@, u32::MAX as nat, 10) as u32,
            timeout: number_or(vars, "REDIS_TIMEOUT"@, u64::MAX as nat, 30) as u64,
            max_retries: number_or(vars, "REDIS_MAX_RETRIES"@, u32::MAX as nat, 3) as u32,
        },
        api: ApiSettingsView {
            port: number_or(vars, "PORT"@, u16::MAX as nat, 8080) as u16,
            host: text_or(vars, "HOST"@, "0.0.0.0"@),
            request_timeout: number_or(vars, "API_REQUEST_TIMEOUT"@, u64::MAX as nat, 30) as u64,
            max_request_size: number_or(vars, "API_MAX_REQUEST_SIZE"@, u32::MAX as nat, 16777216)
                as u32,
            rate_limit: match number(vars, "API_RATE_LIMIT"@, u32::MAX as nat) {
                Some(limit) => Some(limit as u32),
                None => None,
            },
            api_prefix: text_or(vars, "API_PREFIX"@, "/api"@),
        },
        cors: CorsSettingsView {
            allowed_origins: comma_separated(
                text_or(vars, "CORS_ALLOWED_ORIGINS"@, "http://localhost:3000"@),
            ),
            allowed_methods: comma_separated(
                text_or(vars, "CORS_ALLOWED_METHODS"@, "GET,POST,PUT,DELETE"@),
            ),
            allowed_headers: comma_separated(
                text_or(vars, "CORS_ALLOWED_HEADERS"@, "Content-Type,Authorization"@),
            ),
            allow_credentials: flag_or(vars, "CORS_ALLOW_CREDENTIALS"@, true),
            max_age: number_or(vars, "CORS_MAX_AGE"@, u32::MAX as nat, 86400) as u32,
            expose_headers: comma_separated(text_or(vars, "CORS_EXPOSE_HEADERS"@, Seq::empty())),
        },
        cookie: CookieSettingsView {
            name: text_or(vars, "COOKIE_NAME"@, "session"@),
            http_only: flag_or(vars, "COOKIE_HTTP_ONLY"@, true),
            secure: flag_or(vars, "COOKIE_SECURE"@, false),
            same_site: text_or(vars, "COOKIE_SAME_SITE"@, "Lax"@),
            domain: text_or(vars, "COOKIE_DOMAIN"@, "localhost"@),
            max_age: match number(vars, "COOKIE_MAX_AGE"@, u32::MAX as nat) {
                Some(age) => Some(age as u32),
                None => None,
            },
            path: text_or(vars, "COOKIE_PATH"@, "/"@),
        },
    }
}

/// Whether `origin` names its scheme, `http` or `https`.
pub open spec fn is_web_origin(origin: Seq<char>) -> bool {
    "http://"@.is_prefix_of(origin) || "https://"@.is_prefix_of(origin)
}

/// The first of `origins` that names no scheme, if there is one.
pub open spec fn first_bad_origin(origins: Seq<Seq<char>>) -> Option<Seq<char>>
    decreases origins.len(),
{
    if origins.len() == 0 {
        None
    } else if !is_web_origin(origins[0]) {
        Some(origins[0])
    } else {
        first_bad_origin(origins.drop_first())
    }
}

impl SettingsView {
    /// What is wrong with the settings, if anything is. Where several
    /// things are, the first in this order: the secret key's length, the
    /// two addresses, the pool's bounds, the origins, the prefix.
    pub open spec fn defect(self) -> Option<SettingsErrorView> {
        if vstd::utf8::encode_utf8(self.secret_key).len() < 32 {
            Some(SettingsErrorView::SecretKeyTooShort)
        } else if self.database.url.len() == 0 {
            Some(SettingsErrorView::EmptyDatabaseUrl)
        } else if self.redis.url.len() == 0 {
            Some(SettingsErrorView::EmptyRedisUrl)
        } else if self.database.min_idle_connections > self.database.max_connections {
            Some(SettingsErrorView::TooManyIdleConnections)
        } else if first_bad_origin(self.cors.allowed_origins) is Some {
            Some(
                SettingsErrorView::InvalidCorsOrigin(
                    first_bad_origin(self.cors.allowed_origins)->0,
                ),
            )
        } else if !(self.api.api_prefix.len() > 0 && self.api.api_prefix[0] == '/') {
            Some(SettingsErrorView::InvalidApiPrefix)
        } else {
            None
        }
    }
}

/// What reading the settings from `vars` gives: the settings, if the three
/// variables without a default are set and nothing is wrong with the whole.
pub open spec fn loaded(vars: Seq<(String, String)>) -> Result<SettingsView, SettingsErrorView> {
    match lookup(vars, "SECRET_KEY"@) {
        None => Err(SettingsErrorView::MissingSecretKey),
        Some(secret_key) => match lookup(vars, "DATABASE_URL"@) {
            None => Err(SettingsErrorView::MissingDatabaseUrl),
            Some(database_url) => match lookup(vars, "REDIS_URL"@) {
                None => Err(SettingsErrorView::MissingRedisUrl),
                Some(redis_url) => {
                    let settings = settings_of(vars, secret_key, database_url, redis_url);
                    match settings.defect() {
                        Some(error) => Err(error),
                        None => Ok(settings),
                    }
                },
            },
        },
    }
}

/// The view of the result of reading or checking settings.
pub open spec fn outcome_view<T: View, E: View>(r: Result<T, E>) -> Result<T::V, E::V> {
    match r {
        Ok(value) => Ok(value@),
        Err(error) => Err(error@),
    }
}

/// The value of the variable `name`, if it is set.
pub fn variable(vars: &Vec<(String, String)>, name: &str) -> (r: Option<String>)
    ensures
        match r {
            Some(value) => lookup(vars@, name@) == Some(value@),
            None => lookup(vars@, name@) is None,
        },
{
    let mut i: usize = 0;
    assert(vars@.skip(0) == vars@);
    while i < vars.len()
        invariant
            i <= vars.len(),
            lookup(vars@, name@) == lookup(vars@.skip(i as int), name@),
        decreases vars.len() - i,
    {
        assert(vars@.skip(i as int).drop_first() == vars@.skip(i + 1));
        if same_text(vars[i].0.as_str(), name) {
            return Some(vars[i].1.clone());
        }
        i += 1;
    }
    None
}

/// The value of the variable `name`, or `default` where it is not set.
pub fn variable_or(vars: &Vec<(String, String)>, name: &str, default: &str) -> (r: String)
    ensures
        r@ == text_or(vars@, name@, default@),
{
    match variable(vars, name) {
        Some(value) => value,
        None => default.to_owned(),
    }
}

/// The `u64` that the variable `name` writes, or `default`.
pub fn variable_u64(vars: &Vec<(String, String)>, name: &str, default: u64) -> (r: u64)
    ensures
        r == number_or(vars@, name@, u64::MAX as nat, default as nat),
{
    match variable(vars, name) {
        Some(value) => match parse_u64(value.as_str()) {
            Some(number) => number,
            None => default,
        },
        None => default,
    }
}

/// The `u32` that the variable `name` writes, if it writes one.
pub fn variable_u32(vars: &Vec<(String, String)>, name: &str) -> (r: Option<u32>)
    ensures
        match number(vars@, name@, u32::MAX as nat) {
            Some(value) => r == Some(value as u32),
            None => r is None,
        },
{
    match variable(vars, name) {
        Some(value) => parse_u32(value.as_str()),
        None => None,
    }
}

/// The `u32` that the variable `name` writes, or `default`.
pub fn variable_u32_or(vars: &Vec<(String, String)>, name: &str, default: u32) -> (r: u32)
    ensures
        r == number_or(vars@, name@, u32::MAX as nat, default as nat),
{
    match variable_u32(vars, name) {
        Some(number) => number,
        None => default,
    }
}

/// The `u16` that the variable `name` writes, or `default`.
pub fn variable_u16_or(vars: &Vec<(String, String)>, name: &str, default: u16) -> (r: u16)
    ensures
        r == number_or(vars@, name@, u16::MAX as nat, default as nat),
{
    match variable(vars, name) {
        Some(value) => match parse_u16(value.as_str()) {
            Some(number) => number,
            None => default,
        },
        None => default,
    }
}

/// The truth value that the variable `name` writes, or `default`.
pub fn variable_flag(vars: &Vec<(String, String)>, name: &str, default: bool) -> (r: bool)
    ensures
        r == flag_or(vars@, name@, default),
{
    match variable(vars, name) {
        Some(value) => match parse_bool(value.as_str()) {
            Some(flag) => flag,
            None => default,
        },
        None => default,
    }
}

/// Where the first comma is, given that there is none before `end` and
/// that `end` is a comma or the end.
pub proof fn first_comma_found(s: Seq<char>, end: int)
    requires
        0 <= end <= s.len(),
        forall|i: int| 0 <= i < end ==> s[i] != ',',
        end < s.len() ==> s[end] == ',',
    ensures
        first_comma(s) == end,
    decreases end,
{
    if end > 0 {
        first_comma_found(s.drop_first(), end - 1);
    }
}

/// Splits a list that is written with commas between its entries.
pub fn split_comma_separated(s: &str) -> (r: Vec<String>)
    ensures
        texts(r@) == comma_separated(s@),
{
    let chars = chars_of(s);
    let n: usize = chars.len();
    let mut out: Vec<String> = Vec::new();
    let mut start: usize = 0;
    let mut i: usize = 0;
    assert(chars@.skip(0) == chars@);
    assert(texts(out@) =~= Seq::<Seq<char>>::empty());
    while i < n
        invariant
            start <= i <= n,
            n == chars.len(),
            chars@ == s@,
            forall|k: int| start <= k < i ==> chars@[k] != ',',
            comma_separated(s@) == texts(out@) + comma_separated(chars@.skip(start as int)),
        decreases n - i,
    {
        if chars[i] == ',' {
            let ghost rest = chars@.skip(start as int);
            let ghost before = texts(out@);
            proof {
                first_comma_found(rest, i - start);
                assert(rest.take(i - start) == chars@.subrange(start as int, i as int));
                assert(rest.skip(i - start + 1) == chars@.skip(i + 1));
            }
            let piece = substring(&chars, start, i);
            let entry = trim(piece.as_str());
            if !entry.as_str().is_empty() {
                out.push(entry);
                assert(texts(out@) =~= before + seq![entry@]);
            }
            start = i + 1;
            assert(comma_separated(chars@) == texts(out@) + comma_separated(
                chars@.skip(start as int),
            ));
        }
        i += 1;
    }
    let ghost rest = chars@.skip(start as int);
    let ghost before = texts(out@);
    proof {
        first_comma_found(rest, n - start);
        assert(rest.take(n - start) == chars@.subrange(start as int, n as int));
    }
    let piece = substring(&chars, start, n);
    let entry = trim(piece.as_str());
    if !entry.as_str().is_empty() {
        out.push(entry);
        assert(texts(out@) =~= before + seq![entry@]);
    }
    out
}

/// The first of `origins` that names no scheme, if there is one.
pub fn first_invalid_origin(origins: &Vec<String>) -> (r: Option<String>)
    ensures
        match r {
            Some(origin) => first_bad_origin(texts(origins@)) == Some(origin@),
            None => first_bad_origin(texts(origins@)) is None,
        },
{
    let mut i: usize = 0;
    assert(texts(origins@).skip(0) == texts(origins@));
    while i < origins.len()
        invariant
            i <= origins.len(),
            first_bad_origin(texts(origins@)) == first_bad_origin(texts(origins@).skip(i as int)),
        decreases origins.len() - i,
    {
        let origin = origins[i].as_str();
        assert(texts(origins@).skip(i as int).drop_first() == texts(origins@).skip(i + 1));
        assert(texts(origins@).skip(i as int)[0] == origin@);
        if !starts_with(origin, "http://") && !starts_with(origin, "https://") {
            return Some(origins[i].clone());
        }
        i += 1;
    }
    None
}

impl Settings {
    /// Reads the settings from the variables `vars`, each a name and a
    /// value, and checks them.
    pub fn new(vars: &Vec<(String, String)>) -> (r: Result<Settings, SettingsError>)
        ensures
            outcome_view(r) == loaded(vars@),
    {
        let secret_key = match variable(vars, "SECRET_KEY") {
            Some(value) => value,
            None => {
                return Err(SettingsError::MissingSecretKey);
            },
        };
        let environment = if same_text(
            to_lowercase(variable_or(vars, "ENVIRONMENT", "").as_str()).as_str(),
            "production",
        ) {
            Environment::Production
        } else {
            Environment::Development
        };
        let database_url = match variable(vars, "DATABASE_URL") {
            Some(value) => value,
            None => {
                return Err(SettingsError::MissingDatabaseUrl);
            },
        };
        let redis_url = match variable(vars, "REDIS_URL") {
            Some(value) => value,
            None => {
                return Err(SettingsError::MissingRedisUrl);
            },
        };
        proof {
            reveal_strlit("");
            assert(""@ == Seq::<char>::empty());
        }
        let settings = Settings {
            secret_key,
            environment,
            database: DatabaseSettings {
                url: database_url,
                max_connections: variable_u32_or(vars, "DB_MAX_CONNECTIONS", 10),
                min_idle_connections: variable_u32_or(vars, "DB_MIN_IDLE_CONNECTIONS", 2),
                timeout: variable_u64(vars, "DB_TIMEOUT", 30),
                max_lifetime: variable_u64(vars, "DB_MAX_LIFETIME", 1800),
                auto_migrate: variable_flag(vars, "DB_AUTO_MIGRATE", false),
            },
            redis: RedisSettings {
                url: redis_url,
                pool_size: variable_u32_or(vars, "REDIS_POOL_SIZE", 10),
                timeout: variable_u64(vars, "REDIS_TIMEOUT", 30),
                max_retries: variable_u32_or(vars, "REDIS_MAX_RETRIES", 3),
            },
            api: ApiSettings {
                port: variable_u16_or(vars, "PORT", 8080),
                host: variable_or(vars, "HOST", "0.0.0.0"),
                request_timeout: variable_u64(vars, "API_REQUEST_TIMEOUT", 30),
                max_request_size: variable_u32_or(vars, "API_MAX_REQUEST_SIZE", 16777216),
                rate_limit: variable_u32(vars, "API_RATE_LIMIT"),
                api_prefix: variable_or(vars, "API_PREFIX", "/api"),
            },
            cors: CorsSettings {
                allowed_origins: split_comma_separated(
                    variable_or(vars, "CORS_ALLOWED_ORIGINS", "http://localhost:3000").as_str(),
                ),
                allowed_methods: split_comma_separated(
                    variable_or(vars, "CORS_ALLOWED_METHODS", "GET,POST,PUT,DELETE").as_str(),
                ),
                allowed_headers: split_comma_separated(
                    variable_or(
                        vars,
                        "CORS_ALLOWED_HEADERS",
                        "Content-Type,Authorization",
                    ).as_str(),
                ),
                allow_credentials: variable_flag(vars, "CORS_ALLOW_CREDENTIALS", true),
                max_age: variable_u32_or(vars, "CORS_MAX_AGE", 86400),
                expose_headers: split_comma_separated(
                    variable_or(vars, "CORS_EXPOSE_HEADERS", "").as_str(),
                ),
            },
            cookie: CookieSettings {
                name: variable_or(vars, "COOKIE_NAME", "session"),
                http_only: variable_flag(vars, "COOKIE_HTTP_ONLY", true),
                secure: variable_flag(vars, "COOKIE_SECURE", false),
                same_site: variable_or(vars, "COOKIE_SAME_SITE", "Lax"),
                domain: variable_or(vars, "COOKIE_DOMAIN", "localhost"),
                max_age: variable_u32(vars, "COOKIE_MAX_AGE"),
                path: variable_or(vars, "COOKIE_PATH", "/"),
            },
        };
        assert(settings@ == settings_of(
            vars@,
            settings.secret_key@,
            settings.database.url@,
            settings.redis.url@,
        ));
        match settings.validate() {
            Ok(_) => Ok(settings),
            Err(error) => Err(error),
        }
    }

    pub fn is_production(&self) -> (r: bool)
        ensures
            r == (self.environment == Environment::Production),
    {
        self.environment == Environment::Production
    }

    pub fn is_development(&self) -> (r: bool)
        ensures
            r == (self.environment == Environment::Development),
    {
        self.environment == Environment::Development
    }

    /// Checks the settings as a whole.
    pub fn validate(&self) -> (r: Result<(), SettingsError>)
        ensures
            match self@.defect() {
                Some(error) => r is Err && r->Err_0@ == error,
                None => r is Ok,
            },
    {
        if self.secret_key.as_str().as_bytes().len() < 32 {
            return Err(SettingsError::SecretKeyTooShort);
        }
        if self.database.url.as_str().is_empty() {
            return Err(SettingsError::EmptyDatabaseUrl);
        }
        if self.redis.url.as_str().is_empty() {
            return Err(SettingsError::EmptyRedisUrl);
        }
        if self.database.min_idle_connections > self.database.max_connections {
            return Err(SettingsError::TooManyIdleConnections);
        }
        match first_invalid_origin(&self.cors.allowed_origins) {
            Some(origin) => {
                return Err(SettingsError::InvalidCorsOrigin(origin));
            },
            None => {},
        }
        proof {
            reveal_strlit("/");
            assert("/"@ =~= seq!['/']);
        }
        let rooted = starts_with(self.api.api_prefix.as_str(), "/");
        proof {
            let prefix = self.api.api_prefix@;
            if prefix.len() > 0 && prefix[0] == '/' {
                assert("/"@ =~= prefix.subrange(0, 1));
            }
            if rooted {
                assert(prefix.subrange(0, 1)[0] == '/');
            }
        }
        if !rooted {
            return Err(SettingsError::InvalidApiPrefix);
        }
        Ok(())
    }
}

/// Reads the settings from the variables `vars` and checks them.
pub fn get_settings(vars: &Vec<(String, String)>) -> (r: Result<Settings, SettingsError>)
    ensures
        outcome_view(r) == loaded(vars@),
{
    Settings::new(vars)
}

} // verus!
