//! Connection settings in three layers: what the caller set explicitly, what
//! a saved context holds, and the built-in defaults.
//!
//! Each field is settled on its own: the explicit value where there is one,
//! else the context's, else the default. A caller may thus override the
//! timeout alone and take host and port from a saved context.

use vstd::prelude::*;
use vstd::string::*;
use crate::text::{join4, opt_text};

verus! {

/// The connection settings that a caller may set explicitly, each of them
/// optional, and the path of a context to read the others from.
#[derive(Debug, Clone, PartialEq, Eq)]
pub struct ConnectionOpts {
    pub ctl_host: Option<String>,
    pub ctl_port: Option<String>,
    pub ctl_jwt: Option<String>,
    pub ctl_seed: Option<String>,
    pub ctl_credsfile: Option<String>,
    pub lattice_prefix: Option<String>,
    pub timeout_ms: Option<u64>,
    pub context: Option<String>,
}

/// What a [`ConnectionOpts`] stands for in contracts, with texts as sequences of
/// characters.
pub struct ConnectionOptsView {
    pub ctl_host: Option<Seq<char>>,
    pub ctl_port: Option<Seq<char>>,
    pub ctl_jwt: Option<Seq<char>>,
    pub ctl_seed: Option<Seq<char>>,
    pub ctl_credsfile: Option<Seq<char>>,
    pub lattice_prefix: Option<Seq<char>>,
    pub timeout_ms: Option<u64>,
    pub context: Option<Seq<char>>,
}

impl View for ConnectionOpts {
    type V = ConnectionOptsView;

    open spec fn view(&self) -> ConnectionOptsView {
        ConnectionOptsView {
            ctl_host: opt_text(self.ctl_host),
            ctl_port: opt_text(self.ctl_port),
            ctl_jwt: opt_text(self.ctl_jwt),
            ctl_seed: opt_text(self.ctl_seed),
            ctl_credsfile: opt_text(self.ctl_credsfile),
            lattice_prefix: opt_text(self.lattice_prefix),
            timeout_ms: self.timeout_ms,
            context: opt_text(self.context),
        }
    }
}

/// A saved environment: the same settings, as they were stored.
#[derive(Debug, Clone, PartialEq, Eq)]
pub struct ContextRecord {
    pub ctl_host: String,
    pub ctl_port: String,
    pub ctl_jwt: Option<String>,
    pub ctl_seed: Option<String>,
    pub ctl_credsfile: Option<String>,
    pub ctl_lattice_prefix: String,
    pub ctl_timeout: u64,
}

/// What a [`ContextRecord`] stands for in contracts, with texts as sequences of
/// characters.
pub struct ContextRecordView {
    pub ctl_host: Seq<char>,
    pub ctl_port: Seq<char>,
    pub ctl_jwt: Option<Seq<char>>,
    pub ctl_seed: Option<Seq<char>>,
    pub ctl_credsfile: Option<Seq<char>>,
    pub ctl_lattice_prefix: Seq<char>,
    pub ctl_timeout: u64,
}

impl View for ContextRecord {
    type V = ContextRecordView;

    open spec fn view(&self) -> ContextRecordView {
        ContextRecordView {
            ctl_host: self.ctl_host@,
            ctl_port: self.ctl_port@,
            ctl_jwt: opt_text(self.ctl_jwt),
            ctl_seed: opt_text(self.ctl_seed),
            ctl_credsfile: opt_text(self.ctl_credsfile),
            ctl_lattice_prefix: self.ctl_lattice_prefix@,
            ctl_timeout: self.ctl_timeout,
        }
    }
}

/// The view of an optional context.
pub open spec fn opt_context(context: Option<ContextRecord>) -> Option<ContextRecordView> {
    match context {
        Some(c) => Some(c@),
        None => None,
    }
}

/// How the client proves who it is. At most one way is in use: a token with
/// its seed, a credentials file, or nothing at all.
#[derive(Debug, Clone, PartialEq, Eq)]
pub enum Credentials {
    Anonymous,
    KeyPair { jwt: String, seed: String },
    File(String),
}

/// What a [`Credentials`] stands for in contracts, with texts as sequences of
/// characters.
pub enum CredentialsView {
    Anonymous,
    KeyPair { jwt: Seq<char>, seed: Seq<char> },
    File(Seq<char>),
}

impl View for Credentials {
    type V = CredentialsView;

    open spec fn view(&self) -> CredentialsView {
        match *self {
            Credentials::Anonymous => CredentialsView::Anonymous,
            Credentials::KeyPair { jwt, seed } => CredentialsView::KeyPair {
                jwt: jwt@,
                seed: seed@,
            },
            Credentials::File(path) => CredentialsView::File(path@),
        }
    }
}

/// The settings a connection is made with, every field settled.
#[derive(Debug, Clone, PartialEq, Eq)]
pub struct ConnectionConfig {
    pub host: String,
    pub port: String,
    pub credentials: Credentials,
    pub lattice_prefix: String,
    pub request_timeout_ms: u64,
}

/// What a [`ConnectionConfig`] stands for in contracts, with texts as sequences of
/// characters.
pub struct ConnectionConfigView {
    pub host: Seq<char>,
    pub port: Seq<char>,
    pub credentials: CredentialsView,
    pub lattice_prefix: Seq<char>,
    pub request_timeout_ms: u64,
}

impl View for ConnectionConfig {
    type V = ConnectionConfigView;

    open spec fn view(&self) -> ConnectionConfigView {
        ConnectionConfigView {
            host: self.host@,
            port: self.port@,
            credentials: self.credentials@,
            lattice_prefix: self.lattice_prefix@,
            request_timeout_ms: self.request_timeout_ms,
        }
    }
}

/// Why no connection settings could be made.
#[derive(Debug, Clone, PartialEq, Eq)]
pub enum ConfigError {
    /// A token was settled on, but no seed to go with it.
    JwtWithoutSeed,
    /// A seed was settled on, but no token to go with it.
    SeedWithoutJwt,
    /// The context that the caller named could not be read.
    ContextUnreadable { path: String, reason: String },
}

/// What a [`ConfigError`] stands for in contracts, with texts as sequences of
/// characters.
pub enum ConfigErrorView {
    JwtWithoutSeed,
    SeedWithoutJwt,
    ContextUnreadable { path: Seq<char>, reason: Seq<char> },
}

impl View for ConfigError {
    type V = ConfigErrorView;

    open spec fn view(&self) -> ConfigErrorView {
        match *self {
            ConfigError::JwtWithoutSeed => ConfigErrorView::JwtWithoutSeed,
            ConfigError::SeedWithoutJwt => ConfigErrorView::SeedWithoutJwt,
            ConfigError::ContextUnreadable { path, reason } => ConfigErrorView::ContextUnreadable {
                path: path@,
                reason: reason@,
            },
        }
    }
}

/// The description of a settings error for the user.
pub open spec fn error_text(e: ConfigErrorView) -> Seq<char> {
    match e {
        ConfigErrorView::JwtWithoutSeed => "A JWT must be supplied with a seed"@,
        ConfigErrorView::SeedWithoutJwt => "A seed must be supplied with a JWT"@,
        ConfigErrorView::ContextUnreadable { path, reason } => "Failed to load context "@ + path
            + ": "@ + reason,
    }
}

impl ConfigError {
    /// The description of this error for the user.
    pub fn message(&self) -> (m: String)
        ensures
            m@ == error_text(self@),
    {
        match self {
            ConfigError::JwtWithoutSeed => String::from_str("A JWT must be supplied with a seed"),
            ConfigError::SeedWithoutJwt => String::from_str("A seed must be supplied with a JWT"),
            ConfigError::ContextUnreadable { path, reason } => join4(
                "Failed to load context ",
                path.as_str(),
                ": ",
                reason.as_str(),
            ),
        }
    }
}

/// The timeout of a request where nothing else is set, in milliseconds.
pub const DEFAULT_NATS_TIMEOUT: u64 = 2000;

/// The built-in host.
pub open spec fn default_host() -> Seq<char> {
    "127.0.0.1"@
}

/// The built-in port.
pub open spec fn default_port() -> Seq<char> {
    "4222"@
}

/// The built-in lattice prefix.
pub open spec fn default_lattice_prefix() -> Seq<char> {
    "default"@
}

/// The built-in settings: a local bus, no credentials, the lattice `default`.
pub open spec fn builtin_defaults() -> ConnectionConfigView {
    ConnectionConfigView {
        host: default_host(),
        port: default_port(),
        credentials: CredentialsView::Anonymous,
        lattice_prefix: default_lattice_prefix(),
        request_timeout_ms: DEFAULT_NATS_TIMEOUT,
    }
}

impl ConnectionConfig {
    /// The built-in settings.
    pub fn builtin() -> (c: ConnectionConfig)
        ensures
            c@ == builtin_defaults(),
    {
        ConnectionConfig {
            host: String::from_str("127.0.0.1"),
            port: String::from_str("4222"),
            credentials: Credentials::Anonymous,
            lattice_prefix: String::from_str("default"),
            request_timeout_ms: DEFAULT_NATS_TIMEOUT,
        }
    }
}

impl Default for ConnectionOpts {
    /// Explicit settings that spell the built-in ones out: host, port, lattice
    /// prefix and timeout are set, credentials and context are not.
    fn default() -> (o: ConnectionOpts)
        ensures
            o@ == (ConnectionOptsView {
                ctl_host: Some(default_host()),
                ctl_port: Some(default_port()),
                ctl_jwt: None,
                ctl_seed: None,
                ctl_credsfile: None,
                lattice_prefix: Some(default_lattice_prefix()),
                timeout_ms: Some(DEFAULT_NATS_TIMEOUT),
                context: None,
            }),
    {
        ConnectionOpts {
            ctl_host: Some(String::from_str("127.0.0.1")),
            ctl_port: Some(String::from_str("4222")),
            ctl_jwt: None,
            ctl_seed: None,
            ctl_credsfile: None,
            lattice_prefix: Some(String::from_str("default")),
            timeout_ms: Some(DEFAULT_NATS_TIMEOUT),
            context: None,
        }
    }
}

/// A field that every layer below the explicit one holds: the explicit value,
/// else the context's where there is a context, else the default.
pub open spec fn layered<T>(explicit: Option<T>, context: Option<T>, fallback: T) -> T {
    match explicit {
        Some(v) => v,
        None => match context {
            Some(v) => v,
            None => fallback,
        },
    }
}

/// A field of the credentials: the explicit value, else the context's, else
/// none.
pub open spec fn layered_opt<T>(explicit: Option<T>, context: Option<Option<T>>) -> Option<T> {
    match explicit {
        Some(v) => Some(v),
        None => match context {
            Some(v) => v,
            None => None,
        },
    }
}

/// The token that the two upper layers settle on.
pub open spec fn settled_jwt(e: ConnectionOptsView, c: Option<ContextRecordView>) -> Option<
    Seq<char>,
> {
    layered_opt(
        e.ctl_jwt,
        match c {
            Some(c) => Some(c.ctl_jwt),
            None => None,
        },
    )
}

/// The seed that the two upper layers settle on.
pub open spec fn settled_seed(e: ConnectionOptsView, c: Option<ContextRecordView>) -> Option<
    Seq<char>,
> {
    layered_opt(
        e.ctl_seed,
        match c {
            Some(c) => Some(c.ctl_seed),
            None => None,
        },
    )
}

/// The credentials file that the two upper layers settle on.
pub open spec fn settled_credsfile(e: ConnectionOptsView, c: Option<ContextRecordView>) -> Option<
    Seq<char>,
> {
    layered_opt(
        e.ctl_credsfile,
        match c {
            Some(c) => Some(c.ctl_credsfile),
            None => None,
        },
    )
}

/// The credentials in use. A token and a seed go together and win over a
/// credentials file; one of the two without the other is an error; with none
/// of the three set in either upper layer the default's credentials remain.
pub open spec fn settled_credentials(
    e: ConnectionOptsView,
    c: Option<ContextRecordView>,
    d: ConnectionConfigView,
) -> Result<CredentialsView, ConfigErrorView> {
    match (settled_jwt(e, c), settled_seed(e, c)) {
        (Some(jwt), Some(seed)) => Ok(CredentialsView::KeyPair { jwt, seed }),
        (Some(_), None) => Err(ConfigErrorView::JwtWithoutSeed),
        (None, Some(_)) => Err(ConfigErrorView::SeedWithoutJwt),
        (None, None) => match settled_credsfile(e, c) {
            Some(path) => Ok(CredentialsView::File(path)),
            None => Ok(d.credentials),
        },
    }
}

/// The host in use.
pub open spec fn settled_host(
    e: ConnectionOptsView,
    c: Option<ContextRecordView>,
    d: ConnectionConfigView,
) -> Seq<char> {
    layered(
        e.ctl_host,
        match c {
            Some(c) => Some(c.ctl_host),
            None => None,
        },
        d.host,
    )
}

/// The port in use.
pub open spec fn settled_port(
    e: ConnectionOptsView,
    c: Option<ContextRecordView>,
    d: ConnectionConfigView,
) -> Seq<char> {
    layered(
        e.ctl_port,
        match c {
            Some(c) => Some(c.ctl_port),
            None => None,
        },
        d.port,
    )
}

/// The lattice prefix in use.
pub open spec fn settled_prefix(
    e: ConnectionOptsView,
    c: Option<ContextRecordView>,
    d: ConnectionConfigView,
) -> Seq<char> {
    layered(
        e.lattice_prefix,
        match c {
            Some(c) => Some(c.ctl_lattice_prefix),
            None => None,
        },
        d.lattice_prefix,
    )
}

/// The request timeout in use.
pub open spec fn settled_timeout(
    e: ConnectionOptsView,
    c: Option<ContextRecordView>,
    d: ConnectionConfigView,
) -> u64 {
    layered(
        e.timeout_ms,
        match c {
            Some(c) => Some(c.ctl_timeout),
            None => None,
        },
        d.request_timeout_ms,
    )
}

/// The settings that the three layers come to, or the reason why they come to
/// none.
pub open spec fn settled(
    e: ConnectionOptsView,
    c: Option<ContextRecordView>,
    d: ConnectionConfigView,
) -> Result<ConnectionConfigView, ConfigErrorView> {
    match settled_credentials(e, c, d) {
        Ok(credentials) => Ok(
            ConnectionConfigView {
                host: settled_host(e, c, d),
                port: settled_port(e, c, d),
                credentials,
                lattice_prefix: settled_prefix(e, c, d),
                request_timeout_ms: settled_timeout(e, c, d),
            },
        ),
        Err(err) => Err(err),
    }
}

/// Settings or an error, by view.
pub open spec fn resolution_view(r: Result<ConnectionConfig, ConfigError>) -> Result<
    ConnectionConfigView,
    ConfigErrorView,
> {
    match r {
        Ok(c) => Ok(c@),
        Err(e) => Err(e@),
    }
}

fn layer_text(explicit: &Option<String>, context: Option<&String>, fallback: &String) -> (r: String)
    ensures
        r@ == layered(
            opt_text(*explicit),
            match context {
                Some(s) => Some(s@),
                None => None,
            },
            fallback@,
        ),
{
    match explicit {
        Some(v) => v.clone(),
        None => match context {
            Some(v) => v.clone(),
            None => fallback.clone(),
        },
    }
}

fn layer_opt_text(explicit: &Option<String>, context: Option<&Option<String>>) -> (r: Option<
    String,
>)
    ensures
        opt_text(r) == layered_opt(
            opt_text(*explicit),
            match context {
                Some(s) => Some(opt_text(*s)),
                None => None,
            },
        ),
{
    match explicit {
        Some(v) => Some(v.clone()),
        None => match context {
            Some(Some(v)) => Some(v.clone()),
            _ => None,
        },
    }
}

fn copy_credentials(c: &Credentials) -> (r: Credentials)
    ensures
        r@ == c@,
{
    match c {
        Credentials::Anonymous => Credentials::Anonymous,
        Credentials::KeyPair { jwt, seed } => Credentials::KeyPair {
            jwt: jwt.clone(),
            seed: seed.clone(),
        },
        Credentials::File(path) => Credentials::File(path.clone()),
    }
}

/// Settles every field of the connection settings from the three layers, field
/// by field. The context's path in `explicit` plays no part here: `context`
/// is what was read from it, or nothing.
pub fn resolve(
    explicit: &ConnectionOpts,
    context: &Option<ContextRecord>,
    defaults: &ConnectionConfig,
) -> (r: Result<ConnectionConfig, ConfigError>)
    ensures
        resolution_view(r) == settled(explicit@, opt_context(*context), defaults@),
{
    let (c_host, c_port, c_prefix, c_jwt, c_seed, c_creds) = match context {
        Some(c) => (
            Some(&c.ctl_host),
            Some(&c.ctl_port),
            Some(&c.ctl_lattice_prefix),
            Some(&c.ctl_jwt),
            Some(&c.ctl_seed),
            Some(&c.ctl_credsfile),
        ),
        None => (None, None, None, None, None, None),
    };
    let jwt = layer_opt_text(&explicit.ctl_jwt, c_jwt);
    let seed = layer_opt_text(&explicit.ctl_seed, c_seed);
    let credentials = match (jwt, seed) {
        (Some(jwt), Some(seed)) => Credentials::KeyPair { jwt, seed },
        (Some(_), None) => {
            return Err(ConfigError::JwtWithoutSeed);
        },
        (None, Some(_)) => {
            return Err(ConfigError::SeedWithoutJwt);
        },
        (None, None) => match layer_opt_text(&explicit.ctl_credsfile, c_creds) {
            Some(path) => Credentials::File(path),
            None => copy_credentials(&defaults.credentials),
        },
    };
    let request_timeout_ms = match explicit.timeout_ms {
        Some(t) => t,
        None => match context {
            Some(c) => c.ctl_timeout,
            None => defaults.request_timeout_ms,
        },
    };
    Ok(
        ConnectionConfig {
            host: layer_text(&explicit.ctl_host, c_host, &defaults.host),
            port: layer_text(&explicit.ctl_port, c_port, &defaults.port),
            credentials,
            lattice_prefix: layer_text(&explicit.lattice_prefix, c_prefix, &defaults.lattice_prefix),
            request_timeout_ms,
        },
    )
}

/// Where the context of an invocation is looked for.
#[derive(Debug, Clone, PartialEq, Eq)]
pub enum ContextSource {
    /// The file that the caller named.
    Named(String),
    /// The current context of the well-known context directory.
    Current,
}

/// The place to look for a context: the path that the caller named, else the
/// current context.
pub fn context_source(explicit: &ConnectionOpts) -> (s: ContextSource)
    ensures
        match explicit.context {
            Some(path) => s matches ContextSource::Named(p) && p@ == path@,
            None => s == ContextSource::Current,
        },
{
    match &explicit.context {
        Some(path) => ContextSource::Named(path.clone()),
        None => ContextSource::Current,
    }
}

/// What an attempt to read the context comes to. A context that was read is
/// used. A current context that cannot be read is passed over in silence; a
/// context that the caller named and that cannot be read is an error.
pub fn loaded_context(source: &ContextSource, loaded: Result<ContextRecord, String>) -> (r: Result<
    Option<ContextRecord>,
    ConfigError,
>)
    ensures
        match loaded {
            Ok(c) => r == Ok::<Option<ContextRecord>, ConfigError>(Some(c)),
            Err(reason) => match *source {
                ContextSource::Named(path) => r matches Err(
                    ConfigError::ContextUnreadable { path: p, reason: why },
                ) && p@ == path@ && why@ == reason@,
                ContextSource::Current => r == Ok::<Option<ContextRecord>, ConfigError>(None),
            },
        },
{
    match loaded {
        Ok(c) => Ok(Some(c)),
        Err(reason) => match source {
            ContextSource::Named(path) => Err(
                ConfigError::ContextUnreadable { path: path.clone(), reason },
            ),
            ContextSource::Current => Ok(None),
        },
    }
}

/// The connection settings of an invocation, given what the attempt to read
/// its context came to. A context that was read is the middle layer. Without
/// one, the explicit settings and the defaults are all there is, unless the
/// caller named the context: then the failure to read it is the error.
pub fn settle(
    explicit: &ConnectionOpts,
    loaded: Result<ContextRecord, String>,
    defaults: &ConnectionConfig,
) -> (r: Result<ConnectionConfig, ConfigError>)
    ensures
        match loaded {
            Ok(c) => resolution_view(r) == settled(explicit@, Some(c@), defaults@),
            Err(reason) => match explicit.context {
                Some(path) => r matches Err(
                    ConfigError::ContextUnreadable { path: p, reason: why },
                ) && p@ == path@ && why@ == reason@,
                None => resolution_view(r) == settled(explicit@, None, defaults@),
            },
        },
{
    let source = context_source(explicit);
    match loaded_context(&source, loaded) {
        Ok(context) => resolve(explicit, &context, defaults),
        Err(e) => Err(e),
    }
}

/// The explicit layer holds every field.
pub open spec fn fully_explicit(e: ConnectionOptsView) -> bool {
    &&& e.ctl_host is Some
    &&& e.ctl_port is Some
    &&& e.ctl_jwt is Some
    &&& e.ctl_seed is Some
    &&& e.lattice_prefix is Some
    &&& e.timeout_ms is Some
}

/// Where the explicit layer holds every field, the settings are the explicit
/// values, whatever the context and the defaults hold. The token and its seed
/// are the credentials then, and a credentials file is not looked at.
pub proof fn explicit_layer_wins(
    e: ConnectionOptsView,
    c: Option<ContextRecordView>,
    d: ConnectionConfigView,
)
    requires
        fully_explicit(e),
    ensures
        settled(e, c, d) == Ok::<ConnectionConfigView, ConfigErrorView>(
            ConnectionConfigView {
                host: e.ctl_host->0,
                port: e.ctl_port->0,
                credentials: CredentialsView::KeyPair { jwt: e.ctl_jwt->0, seed: e.ctl_seed->0 },
                lattice_prefix: e.lattice_prefix->0,
                request_timeout_ms: e.timeout_ms->0,
            },
        ),
{
}

/// A field that the explicit layer holds is settled by it alone.
pub proof fn explicit_field_wins(
    e: ConnectionOptsView,
    c: Option<ContextRecordView>,
    d: ConnectionConfigView,
)
    ensures
        e.ctl_host matches Some(v) ==> settled_host(e, c, d) == v,
        e.ctl_port matches Some(v) ==> settled_port(e, c, d) == v,
        e.lattice_prefix matches Some(v) ==> settled_prefix(e, c, d) == v,
        e.timeout_ms matches Some(v) ==> settled_timeout(e, c, d) == v,
        e.ctl_jwt matches Some(v) ==> settled_jwt(e, c) == Some(v),
        e.ctl_seed matches Some(v) ==> settled_seed(e, c) == Some(v),
        e.ctl_credsfile matches Some(v) ==> settled_credsfile(e, c) == Some(v),
{
}

/// A field that neither the explicit layer nor a context holds is the
/// default's, exactly. For the credentials this asks that none of token, seed
/// and credentials file is held by either.
pub proof fn unset_field_is_default(
    e: ConnectionOptsView,
    c: Option<ContextRecordView>,
    d: ConnectionConfigView,
)
    ensures
        e.ctl_host is None && c is None ==> settled_host(e, c, d) == d.host,
        e.ctl_port is None && c is None ==> settled_port(e, c, d) == d.port,
        e.lattice_prefix is None && c is None ==> settled_prefix(e, c, d) == d.lattice_prefix,
        e.timeout_ms is None && c is None ==> settled_timeout(e, c, d) == d.request_timeout_ms,
        settled_jwt(e, c) is None && settled_seed(e, c) is None && settled_credsfile(e, c) is None
            ==> settled_credentials(e, c, d) == Ok::<CredentialsView, ConfigErrorView>(
            d.credentials,
        ),
{
}

/// With nothing set explicitly and no context, the settings are the defaults.
pub proof fn nothing_set_gives_defaults(e: ConnectionOptsView, d: ConnectionConfigView)
    requires
        e.ctl_host is None,
        e.ctl_port is None,
        e.ctl_jwt is None,
        e.ctl_seed is None,
        e.ctl_credsfile is None,
        e.lattice_prefix is None,
        e.timeout_ms is None,
    ensures
        settled(e, None, d) == Ok::<ConnectionConfigView, ConfigErrorView>(d),
{
}

/// Settings never hold half a key pair: either both token and seed were
/// settled on, or neither is in use.
pub proof fn token_and_seed_go_together(
    e: ConnectionOptsView,
    c: Option<ContextRecordView>,
    d: ConnectionConfigView,
)
    ensures
        settled(e, c, d) is Ok <==> (settled_jwt(e, c) is Some <==> settled_seed(e, c) is Some),
        settled_jwt(e, c) is Some && settled_seed(e, c) is Some ==> settled_credentials(e, c, d)
            == Ok::<CredentialsView, ConfigErrorView>(
            CredentialsView::KeyPair { jwt: settled_jwt(e, c)->0, seed: settled_seed(e, c)->0 },
        ),
{
}

} // verus!
