//! Logging in: the login form's data, the user name and homeserver rules,
//! and the authentication state that the pages share.
use vstd::prelude::*;
use vstd::string::*;

use crate::boundary::{
    is_white_space, parse_url, parsed_server_url, well_known_base_url, well_known_homeserver, ServerUrl,
    ServerUrlView,
};
use crate::text::{
    clone_opt_string, concat2, contains_char, ends_with, has_two_labels, labels, last_two_labels,
    lemma_labels_chars, lemma_labels_free, lemma_labels_of_pair, lemma_trim_fixed,
    lemma_trim_idempotent, lemma_trimmed_ends, starts_with, trim, trimmed,
};

verus! {

/// Why logging in could not go on.
#[derive(PartialEq, Eq, Structural, Clone, Copy, Debug)]
pub enum AuthError {
    BuildError,
    InvalidHomeserver,
    ServerNotFound,
}

impl From<serde_json::Error> for AuthError {
    fn from(_e: serde_json::Error) -> (r: Self) {
        AuthError::InvalidHomeserver
    }
}

impl vstd::std_specs::convert::FromSpecImpl<serde_json::Error> for AuthError {
    open spec fn obeys_from_spec() -> bool {
        true
    }

    open spec fn from_spec(v: serde_json::Error) -> AuthError {
        AuthError::InvalidHomeserver
    }
}

/// What is remembered of the last login: server, user name, display name.
pub struct CacheLogin {
    pub server: String,
    pub username: String,
    pub display_name: Option<String>,
}

impl Clone for CacheLogin {
    fn clone(&self) -> (r: Self)
        ensures
            r == *self,
    {
        CacheLogin {
            server: self.server.clone(),
            username: self.username.clone(),
            display_name: clone_opt_string(&self.display_name),
        }
    }
}

/// Everything needed to log in.
pub struct LoginInfo {
    pub server: ServerUrl,
    pub username: String,
    pub password: String,
}

pub struct LoginInfoView {
    pub server: ServerUrlView,
    pub username: Seq<char>,
    pub password: Seq<char>,
}

impl View for LoginInfo {
    type V = LoginInfoView;

    open spec fn view(&self) -> LoginInfoView {
        LoginInfoView { server: self.server@, username: self.username@, password: self.password@ }
    }
}

/// The login data gathered so far.
pub struct LoginInfoBuilder {
    pub server: Option<ServerUrl>,
    pub username: Option<String>,
    pub password: Option<String>,
}

pub struct LoginInfoBuilderView {
    pub server: Option<ServerUrlView>,
    pub username: Option<Seq<char>>,
    pub password: Option<Seq<char>>,
}

impl View for LoginInfoBuilder {
    type V = LoginInfoBuilderView;

    open spec fn view(&self) -> LoginInfoBuilderView {
        LoginInfoBuilderView {
            server: self.server.deep_view(),
            username: self.username.deep_view(),
            password: self.password.deep_view(),
        }
    }
}

impl Clone for LoginInfoBuilder {
    fn clone(&self) -> (r: Self)
        ensures
            r == *self,
    {
        LoginInfoBuilder {
            server: match &self.server {
                Some(s) => Some(s.clone()),
                None => None,
            },
            username: clone_opt_string(&self.username),
            password: clone_opt_string(&self.password),
        }
    }
}

/// Login data with nothing gathered yet.
pub open spec fn empty_builder() -> LoginInfoBuilderView {
    LoginInfoBuilderView { server: None, username: None, password: None }
}

/// The login data, once server, user name and password are all known.
pub open spec fn built(b: LoginInfoBuilderView) -> Result<LoginInfoView, AuthError> {
    match (b.server, b.username, b.password) {
        (Some(s), Some(u), Some(p)) => Ok(LoginInfoView { server: s, username: u, password: p }),
        _ => Err(AuthError::BuildError),
    }
}

impl LoginInfoBuilder {
    /// Login data with nothing gathered yet.
    pub fn new() -> (r: Self)
        ensures
            r@ == empty_builder(),
    {
        LoginInfoBuilder { server: None, username: None, password: None }
    }

    /// Sets the homeserver.
    pub fn server(&mut self, server: ServerUrl)
        ensures
            final(self)@ == (LoginInfoBuilderView { server: Some(server@), ..old(self)@ }),
    {
        self.server = Some(server);
    }

    /// Sets the user name.
    pub fn username(&mut self, username: &str)
        ensures
            final(self)@ == (LoginInfoBuilderView { username: Some(username@), ..old(self)@ }),
    {
        self.username = Some(username.to_owned());
    }

    /// Sets the password.
    pub fn password(&mut self, password: &str)
        ensures
            final(self)@ == (LoginInfoBuilderView { password: Some(password@), ..old(self)@ }),
    {
        self.password = Some(password.to_owned());
    }

    /// The login data: `BuildError` unless server, user name and password
    /// are all set.
    pub fn build(self) -> (r: Result<LoginInfo, AuthError>)
        ensures
            match r {
                Ok(info) => built(self@) == Ok::<LoginInfoView, AuthError>(info@),
                Err(e) => built(self@) == Err::<LoginInfoView, AuthError>(e),
            },
    {
        match self {
            LoginInfoBuilder { server: Some(server), username: Some(username), password: Some(password) } => Ok(
                LoginInfo { server, username, password },
            ),
            _ => Err(AuthError::BuildError),
        }
    }
}

// ---------------------------------------------------------------------------
// User names and homeservers
// ---------------------------------------------------------------------------

/// The registrable domain name of a host: its last two labels joined by a
/// dot (`matrix.example.org` gives `example.org`).
pub open spec fn domain_name(host: Seq<char>) -> Seq<char> {
    let l = labels(host, '.');
    l[l.len() - 2] + "."@ + l[l.len() - 1]
}

/// The registrable domain name of `host`; `host` has at least two
/// non-empty labels.
pub fn extract_domain_name(host: &str) -> (r: String)
    requires
        labels(host@, '.').len() >= 2,
    ensures
        r@ == domain_name(host@),
{
    let (domain, suffix) = last_two_labels(host, '.');
    let with_dot = concat2(domain.as_str(), ".");
    concat2(with_dot.as_str(), suffix.as_str())
}

/// `t` with a leading `@`, added when missing.
pub open spec fn at_prefixed(t: Seq<char>) -> Seq<char> {
    if "@"@.is_prefix_of(t) {
        t
    } else {
        "@"@ + t
    }
}

/// The user name stored for `username`, given the homeserver chosen so far:
/// the name trimmed; when parsing, prefixed with `@` and, unless it names a
/// server already, suffixed with `:` and the homeserver's domain name
/// (unless it already ends with it). `None` when parsing needs a domain
/// that is not known: then nothing is stored.
pub open spec fn username_for(username: Seq<char>, parse: bool, server: Option<ServerUrlView>) -> Option<
    Seq<char>,
> {
    let t = trimmed(username);
    if !parse {
        Some(t)
    } else {
        let a = at_prefixed(t);
        if a.contains(':') {
            Some(a)
        } else {
            match server {
                None => None,
                Some(s) => match s.domain {
                    None => None,
                    Some(d) => {
                        let dn = domain_name(d);
                        if dn.is_suffix_of(a) {
                            Some(a)
                        } else {
                            Some(a + ":"@ + dn)
                        }
                    },
                },
            }
        }
    }
}

/// The homeserver's domain has a registrable domain name whenever the
/// user name needs one.
pub open spec fn username_settable(username: Seq<char>, parse: bool, server: Option<ServerUrlView>) -> bool {
    (parse && !at_prefixed(trimmed(username)).contains(':') && server is Some
        && server->0.domain is Some) ==> labels(server->0.domain->0, '.').len() >= 2
}

/// The user name to store (see `username_for`).
fn username_value(username: &str, parse: bool, server: &Option<ServerUrl>) -> (r: Option<String>)
    requires
        username_settable(username@, parse, server.deep_view()),
    ensures
        r.deep_view() == username_for(username@, parse, server.deep_view()),
{
    let t = trim(username);
    if !parse {
        return Some(t);
    }
    proof {
        reveal_strlit("@");
    }
    let a = if starts_with(t.as_str(), "@") {
        t
    } else {
        concat2("@", t.as_str())
    };
    if contains_char(a.as_str(), ':') {
        return Some(a);
    }
    let s = match server {
        Some(s) => s,
        None => return None,
    };
    let d = match &s.domain {
        Some(d) => d,
        None => return None,
    };
    let dn = extract_domain_name(d.as_str());
    if ends_with(a.as_str(), dn.as_str()) {
        Some(a)
    } else {
        let with_colon = concat2(a.as_str(), ":");
        Some(concat2(with_colon.as_str(), dn.as_str()))
    }
}

/// The address tried for a homeserver: as given when it starts with
/// `http://` or `https://`, else with `https://` in front.
pub open spec fn homeserver_candidate(homeserver: Seq<char>) -> Seq<char> {
    if "http://"@.is_prefix_of(homeserver) || "https://"@.is_prefix_of(homeserver) {
        homeserver
    } else {
        "https://"@ + homeserver
    }
}

/// The homeserver URL for what the user typed: `InvalidHomeserver` when it
/// does not make a URL.
pub fn server_from_homeserver(homeserver: &str) -> (r: Result<ServerUrl, AuthError>)
    ensures
        match parsed_server_url(homeserver_candidate(homeserver@)) {
            Some(u) => r is Ok && r->Ok_0@ == u,
            None => r == Err::<ServerUrl, AuthError>(AuthError::InvalidHomeserver),
        },
{
    let candidate = if starts_with(homeserver, "http://") || starts_with(homeserver, "https://") {
        homeserver.to_owned()
    } else {
        concat2("https://", homeserver)
    };
    match parse_url(candidate.as_str()) {
        Some(u) => Ok(u),
        None => Err(AuthError::InvalidHomeserver),
    }
}

/// The address of the homeserver's client discovery document.
pub fn well_known_url(server: &ServerUrl) -> (r: String)
    ensures
        r@ == server.url@ + ".well-known/matrix/client"@,
{
    concat2(server.url.as_str(), ".well-known/matrix/client")
}

/// The homeserver that a discovery document names: `InvalidHomeserver` when
/// the document or its base URL cannot be read.
pub fn homeserver_from_well_known(body: &str) -> (r: Result<ServerUrl, AuthError>)
    ensures
        match well_known_base_url(body@) {
            Some(b) => match parsed_server_url(b) {
                Some(u) => r is Ok && r->Ok_0@ == u,
                None => r == Err::<ServerUrl, AuthError>(AuthError::InvalidHomeserver),
            },
            None => r == Err::<ServerUrl, AuthError>(AuthError::InvalidHomeserver),
        },
{
    let base = match well_known_homeserver(body) {
        Some(b) => b,
        None => return Err(AuthError::InvalidHomeserver),
    };
    match parse_url(base.as_str()) {
        Some(u) => Ok(u),
        None => Err(AuthError::InvalidHomeserver),
    }
}

/// The address of the client discovery document for what the user typed:
/// `InvalidHomeserver` when it does not make a URL (see
/// `server_from_homeserver`).
pub fn discovery_address(homeserver: &str) -> (r: Result<String, AuthError>)
    ensures
        match parsed_server_url(homeserver_candidate(homeserver@)) {
            Some(u) => r is Ok && r->Ok_0@ == u.url + ".well-known/matrix/client"@,
            None => r == Err::<String, AuthError>(AuthError::InvalidHomeserver),
        },
{
    let server = server_from_homeserver(homeserver)?;
    Ok(well_known_url(&server))
}

/// The homeserver that discovery finds for what the user typed, given the
/// discovery document read from its discovery address (`None` when it could
/// not be fetched or read): the URL of the document's base address, if the
/// typed homeserver, the document and that address are all valid.
pub open spec fn discovered_server(homeserver: Seq<char>, body: Option<Seq<char>>) -> Option<
    ServerUrlView,
> {
    match parsed_server_url(homeserver_candidate(homeserver)) {
        None => None,
        Some(_) => match body {
            None => None,
            Some(b) => match well_known_base_url(b) {
                Some(base) => parsed_server_url(base),
                None => None,
            },
        },
    }
}

// ---------------------------------------------------------------------------
// Authentication state
// ---------------------------------------------------------------------------

/// Whether the user is logged in.
#[derive(PartialEq, Eq, Structural, Clone, Copy, Debug)]
pub struct LoggedIn(pub bool);

/// A snapshot of the authentication state.
pub struct UseAuth {
    pub data: LoginInfoBuilder,
    pub error: Option<AuthError>,
    pub logged_in: LoggedIn,
}

/// The authentication state shared by the login pages: the login data
/// gathered, the last error, whether the user is logged in and the cached
/// login.
pub struct UseAuthState {
    pub data: LoginInfoBuilder,
    pub error: Option<AuthError>,
    pub logged_in: LoggedIn,
    pub login_cache: Option<CacheLogin>,
}

/// A fresh authentication state over the shared login status and cache.
pub fn use_auth(logged_in: LoggedIn, login_cache: Option<CacheLogin>) -> (r: UseAuthState)
    ensures
        r.data@ == empty_builder(),
        r.error is None,
        r.logged_in == logged_in,
        r.login_cache == login_cache,
{
    UseAuthState { data: LoginInfoBuilder::new(), error: None, logged_in, login_cache }
}

impl UseAuthState {
    /// Records the outcome of choosing `server`: when a client could be
    /// built for it, it becomes the homeserver and the error is cleared;
    /// otherwise the error is `ServerNotFound`.
    pub fn set_server(&mut self, server: ServerUrl, client_built: bool)
        ensures
            client_built ==> final(self).data@ == (LoginInfoBuilderView {
                server: Some(server@),
                ..old(self).data@
            }) && final(self).error is None,
            !client_built ==> final(self).data@ == old(self).data@ && final(self).error == Some(
                AuthError::ServerNotFound,
            ),
            final(self).logged_in == old(self).logged_in,
            final(self).login_cache == old(self).login_cache,
    {
        if client_built {
            self.data.server(server);
            self.error = None;
        } else {
            self.error = Some(AuthError::ServerNotFound);
        }
    }

    /// Chooses the homeserver the user typed. `body` is the discovery
    /// document fetched from `discovery_address(homeserver)` (`None` when
    /// it could not be fetched or read), and `client_built` whether a client
    /// could be built for the homeserver that the document names.
    /// `InvalidHomeserver`, with nothing changed, when discovery finds no
    /// homeserver (see `discovered_server`); otherwise the outcome is
    /// recorded as `set_server` does.
    pub fn set_server_from(&mut self, homeserver: &str, body: Option<String>, client_built: bool) -> (r:
        Result<(), AuthError>)
        ensures
            match discovered_server(homeserver@, body.deep_view()) {
                None => r == Err::<(), AuthError>(AuthError::InvalidHomeserver) && *final(self)
                    == *old(self),
                Some(u) => {
                    &&& r == Ok::<(), AuthError>(())
                    &&& client_built ==> final(self).data@ == (LoginInfoBuilderView {
                        server: Some(u),
                        ..old(self).data@
                    }) && final(self).error is None
                    &&& !client_built ==> final(self).data@ == old(self).data@ && final(self).error
                        == Some(AuthError::ServerNotFound)
                    &&& final(self).logged_in == old(self).logged_in
                    &&& final(self).login_cache == old(self).login_cache
                },
            },
    {
        let _address = discovery_address(homeserver)?;
        let document = match body {
            Some(b) => b,
            None => return Err(AuthError::InvalidHomeserver),
        };
        let base = homeserver_from_well_known(document.as_str())?;
        self.set_server(base, client_built);
        Ok(())
    }

    /// Whether the user name can be stored now: the homeserver's domain has
    /// a registrable domain name whenever the user name needs one (see
    /// `username_settable`).
    pub fn can_set_username(&self, username: &str, parse: bool) -> (r: bool)
        ensures
            r == username_settable(username@, parse, self.data@.server),
    {
        if !parse {
            return true;
        }
        let t = trim(username);
        proof {
            reveal_strlit("@");
        }
        let a = if starts_with(t.as_str(), "@") {
            t
        } else {
            concat2("@", t.as_str())
        };
        if contains_char(a.as_str(), ':') {
            return true;
        }
        match &self.data.server {
            Some(s) => match &s.domain {
                Some(d) => has_two_labels(d.as_str(), '.'),
                None => true,
            },
            None => true,
        }
    }

    /// Stores the user name as `username_for` describes (nothing is stored
    /// when a needed domain is unknown).
    pub fn set_username(&mut self, username: &str, parse: bool)
        requires
            username_settable(username@, parse, old(self).data@.server),
        ensures
            match username_for(username@, parse, old(self).data@.server) {
                Some(u) => final(self).data@ == (LoginInfoBuilderView {
                    username: Some(u),
                    ..old(self).data@
                }),
                None => final(self).data@ == old(self).data@,
            },
            final(self).error == old(self).error,
            final(self).logged_in == old(self).logged_in,
            final(self).login_cache == old(self).login_cache,
    {
        match username_value(username, parse, &self.data.server) {
            Some(u) => self.data.username(u.as_str()),
            None => {},
        }
    }

    /// Stores the password without surrounding white space.
    pub fn set_password(&mut self, password: &str)
        ensures
            final(self).data@ == (LoginInfoBuilderView {
                password: Some(trimmed(password@)),
                ..old(self).data@
            }),
            final(self).error == old(self).error,
            final(self).logged_in == old(self).logged_in,
            final(self).login_cache == old(self).login_cache,
    {
        let t = trim(password);
        self.data.password(t.as_str());
    }

    /// Caches the last login.
    pub fn set_login_cache(&mut self, data: CacheLogin)
        ensures
            final(self).login_cache == Some(data),
            final(self).data == old(self).data,
            final(self).error == old(self).error,
            final(self).logged_in == old(self).logged_in,
    {
        self.login_cache = Some(data);
    }

    /// The cached login.
    pub fn get_login_cache(&self) -> (r: Option<CacheLogin>)
        ensures
            r == self.login_cache,
    {
        match &self.login_cache {
            Some(c) => Some(c.clone()),
            None => None,
        }
    }

    /// A snapshot of the login data, the error and the login status.
    pub fn get(&self) -> (r: UseAuth)
        ensures
            r.data == self.data,
            r.error == self.error,
            r.logged_in == self.logged_in,
    {
        UseAuth { data: self.data.clone(), error: self.error, logged_in: self.logged_in }
    }

    /// Forgets the login data and the error.
    pub fn reset(&mut self)
        ensures
            final(self).data@ == empty_builder(),
            final(self).error is None,
            final(self).logged_in == old(self).logged_in,
            final(self).login_cache == old(self).login_cache,
    {
        self.data = LoginInfoBuilder::new();
        self.error = None;
    }

    /// The login data, once complete (see `LoginInfoBuilder::build`).
    pub fn build(&self) -> (r: Result<LoginInfo, AuthError>)
        ensures
            match r {
                Ok(info) => built(self.data@) == Ok::<LoginInfoView, AuthError>(info@),
                Err(e) => built(self.data@) == Err::<LoginInfoView, AuthError>(e),
            },
    {
        self.data.clone().build()
    }

    /// Whether the user is logged in.
    pub fn is_logged_in(&self) -> (r: LoggedIn)
        ensures
            r == self.logged_in,
    {
        self.logged_in
    }

    /// Records whether the user is logged in.
    pub fn set_logged_in(&mut self, option: bool)
        ensures
            final(self).logged_in == LoggedIn(option),
            final(self).data == old(self).data,
            final(self).error == old(self).error,
            final(self).login_cache == old(self).login_cache,
    {
        self.logged_in = LoggedIn(option);
    }
}

// ---------------------------------------------------------------------------
// Registering
// ---------------------------------------------------------------------------

/// How a registration request proves it may register.
pub enum RegistrationAuth {
    /// No proof: the server answers with the steps it wants.
    Nothing,
    /// The dummy step, for servers that ask for no real step.
    Dummy,
    /// A solved reCAPTCHA, with the session the server opened, if any.
    ReCaptcha { token: String, session: Option<String> },
}

/// The proof an account registration sends: the solved reCAPTCHA when
/// there is one, nothing otherwise.
pub fn registration_auth(recaptcha_token: Option<String>, session: Option<String>) -> (r:
    RegistrationAuth)
    ensures
        recaptcha_token is None ==> r is Nothing,
        recaptcha_token is Some ==> (r matches RegistrationAuth::ReCaptcha { token, session: s }
            && token == recaptcha_token->0 && s == session),
{
    match recaptcha_token {
        Some(token) => RegistrationAuth::ReCaptcha { token, session },
        None => RegistrationAuth::Nothing,
    }
}

/// The credentials of a guest account that the server just registered:
/// its access token and device, both needed to log in; otherwise the
/// message that they were not found.
pub fn guest_credentials(access_token: Option<String>, device_id: Option<String>) -> (r: Result<
    (String, String),
    String,
>)
    ensures
        access_token is Some && device_id is Some ==> r == Ok::<(String, String), String>(
            (access_token->0, device_id->0),
        ),
        !(access_token is Some && device_id is Some) ==> r is Err && r->Err_0@
            == "Access token or device_id not found"@,
{
    match (access_token, device_id) {
        (Some(a), Some(d)) => Ok((a, d)),
        _ => Err(String::from_str("Access token or device_id not found")),
    }
}

// ---------------------------------------------------------------------------
// Laws
// ---------------------------------------------------------------------------

/// Login data can be built exactly when server, user name and password have
/// all been given, and the built data holds what was given; with nothing
/// given (as after `reset`), building fails with `BuildError`.
pub proof fn lemma_build_after_set(b: LoginInfoBuilderView)
    ensures
        built(b) is Ok <==> (b.server is Some && b.username is Some && b.password is Some),
        built(b) is Ok ==> built(b)->Ok_0 == (LoginInfoView {
            server: b.server->0,
            username: b.username->0,
            password: b.password->0,
        }),
        built(empty_builder()) == Err::<LoginInfoView, AuthError>(AuthError::BuildError),
{
}

/// A registrable domain name is its own domain name: extracting it twice
/// gives what extracting it once gave.
pub proof fn lemma_domain_name_idempotent(host: Seq<char>)
    requires
        labels(host, '.').len() >= 2,
    ensures
        labels(domain_name(host), '.').len() >= 2,
        domain_name(domain_name(host)) == domain_name(host),
{
    let l = labels(host, '.');
    lemma_labels_free(host, '.');
    let d = l[l.len() - 2];
    let t = l[l.len() - 1];
    assert(d.len() > 0 && !d.contains('.'));
    assert(t.len() > 0 && !t.contains('.'));
    assert(domain_name(host) == d + seq!['.'] + t) by {
        reveal_strlit(".");
        assert("."@ =~= seq!['.']);
    }
    lemma_labels_of_pair(d, t, '.');
}

/// The last character of a domain name is a character of the host.
proof fn lemma_domain_name_last(host: Seq<char>)
    requires
        labels(host, '.').len() >= 2,
    ensures
        domain_name(host).len() > 0,
        host.contains(domain_name(host).last()),
{
    let l = labels(host, '.');
    lemma_labels_free(host, '.');
    lemma_labels_chars(host, '.');
    let t = l[l.len() - 1];
    assert(t.len() > 0);
    assert(domain_name(host).last() == t[t.len() - 1]);
    assert(host.contains(l[l.len() - 1][t.len() - 1]));
}

/// `@` is not white space.
proof fn lemma_at_not_white_space()
    ensures
        !is_white_space('@'),
        "@"@ == seq!['@'],
{
    reveal_strlit("@");
    assert("@"@ =~= seq!['@']);
}

/// A user name prefixed with `@` after trimming neither starts nor ends with
/// white space.
proof fn lemma_at_prefixed_ends(u: Seq<char>)
    ensures
        at_prefixed(trimmed(u)).len() > 0,
        at_prefixed(trimmed(u))[0] == '@',
        !is_white_space(at_prefixed(trimmed(u)).last()),
{
    lemma_at_not_white_space();
    lemma_trimmed_ends(u);
    let t = trimmed(u);
    if !"@"@.is_prefix_of(t) {
        let a = "@"@ + t;
        if t.len() > 0 {
            assert(a.last() == t.last());
        }
    } else {
        assert(t[0] == "@"@[0]);
    }
}

/// Storing a user name that was stored before stores it unchanged: the
/// stored form of a stored user name is itself (for a homeserver whose
/// domain holds no white space).
pub proof fn lemma_username_idempotent(username: Seq<char>, server: Option<ServerUrlView>)
    requires
        username_settable(username, true, server),
        username_for(username, true, server) is Some,
        server is Some && server->0.domain is Some ==> forall|i: int|
            0 <= i < server->0.domain->0.len() ==> !is_white_space(
                #[trigger] server->0.domain->0[i],
            ),
    ensures
        username_settable(username_for(username, true, server)->0, true, server),
        username_for(username_for(username, true, server)->0, true, server) == username_for(
            username,
            true,
            server,
        ),
{
    let x = username_for(username, true, server)->0;
    let a = at_prefixed(trimmed(username));
    lemma_at_prefixed_ends(username);
    lemma_at_not_white_space();
    lemma_trim_idempotent(username);
    if x == a {
        lemma_trim_fixed(a);
        assert(trimmed(x) == x);
        assert("@"@.is_prefix_of(x));
        assert(at_prefixed(trimmed(x)) == x);
    } else {
        let s = server->0;
        let d = s.domain->0;
        let dn = domain_name(d);
        assert(x == a + ":"@ + dn);
        lemma_domain_name_last(d);
        let i = choose|i: int| 0 <= i < d.len() && d[i] == dn.last();
        assert(!is_white_space(d[i]));
        assert(x.last() == dn.last());
        assert(x[0] == a[0]);
        lemma_trim_fixed(x);
        assert(trimmed(x) == x);
        assert("@"@.is_prefix_of(x)) by {
            assert(x[0] == '@');
        }
        assert(at_prefixed(trimmed(x)) == x);
        reveal_strlit(":");
        assert(x.contains(':')) by {
            assert(x[a.len() as int] == ':');
        }
    }
}

/// Why logging out failed.
#[derive(PartialEq, Eq, Structural, Clone, Copy, Debug)]
pub enum LogoutError {
    DefaultClient,
    RemoveSession,
    Failed,
}

} // verus!
