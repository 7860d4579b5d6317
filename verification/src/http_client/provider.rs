use reqwest::Error as ReqwestError;
use reqwest::Proxy as ReqwestProxy;
use vstd::prelude::*;

use crate::http_client::config::{auth_header_count, header_count, Auth, AuthBasic, Config, Proxy};
use crate::http_client::error::Error;
use crate::http_client::headers::{
    compose_headers, composed_headers, header_map_entries, header_map_proxy_authorization, header_value_from_str,
    header_value_text, is_header_value_text, MAX_COMPOSED_HEADERS,
};
use crate::http_client::url_path::{
    compose_request_url, spec_destination_url, uri_display_of, url_composition, url_parses, url_scheme_of, Location,
    RequestUri,
};
use crate::text::{clone_option_text, clone_pairs, option_text, same_pairs, same_text};

verus! {

#[verifier::external_type_specification]
#[verifier::external_body]
pub struct ExClient(reqwest::Client);

#[verifier::external_type_specification]
#[verifier::external_body]
pub struct ExRequestBuilder(reqwest::RequestBuilder);

#[verifier::external_type_specification]
#[verifier::external_body]
pub struct ExMethod(http::Method);

/// What a request builder holds: the request it builds, as the name of its method, the text
/// of its URL, and its headers (each name, as stored, with the texts of its values in
/// order); none where building it has failed.
pub uninterp spec fn builder_request(b: reqwest::RequestBuilder) -> Option<
    (Seq<char>, Seq<char>, Map<Seq<char>, Seq<Seq<char>>>),
>;

/// What `Client::request` starts a request with, for a URL text: the text of the URL it goes
/// to, and its headers (credentials in the URL are taken out of it and become an
/// `Authorization` header); none where the text is no URL with a host.
pub uninterp spec fn client_request_of(url: Seq<char>) -> Option<(Seq<char>, Map<Seq<char>, Seq<Seq<char>>>)>;

/// The `Authorization` value that `RequestBuilder::basic_auth` makes of a user name and a
/// password: `Basic ` and the Base64 of the user name, a colon and the password.
pub uninterp spec fn basic_auth_value(username: Seq<char>, password: Option<Seq<char>>) -> Seq<char>;

/// The name of a method, as `Method::as_str` gives it.
pub uninterp spec fn method_name(m: http::Method) -> Seq<char>;

/// The headers with one more value for a name, after those it has (`HeaderMap::append`).
pub open spec fn header_appended(
    headers: Map<Seq<char>, Seq<Seq<char>>>,
    name: Seq<char>,
    value: Seq<char>,
) -> Map<Seq<char>, Seq<Seq<char>>> {
    if headers.dom().contains(name) {
        headers.insert(name, headers[name].push(value))
    } else {
        headers.insert(name, seq![value])
    }
}

/// A request holds few enough header names that this many more can be added.
pub open spec fn has_header_room(b: Option<(Seq<char>, Seq<char>, Map<Seq<char>, Seq<Seq<char>>>)>, more: nat) -> bool {
    b matches Some(q) ==> q.2.dom().finite() && q.2.dom().len() + more <= MAX_COMPOSED_HEADERS
}

/// `Client::request`: a builder of a request with this method to the URL of this text, as
/// `client_request_of` says; it holds at most the one header the URL's credentials give.
#[verifier::external_body]
fn client_request(client: &reqwest::Client, method: http::Method, url: &str) -> (r: reqwest::RequestBuilder)
    ensures
        builder_request(r) == (match client_request_of(url@) {
            Some(start) => Some((method_name(method), start.0, start.1)),
            None => None,
        }),
        builder_request(r) matches Some(q) ==> q.2.dom().finite() && q.2.dom().len() <= 1,
{
    client.request(method, url)
}

/// `RequestBuilder::basic_auth`: the request gets one more `Authorization` value, that of
/// the credentials. A builder that has failed stays so.
#[verifier::external_body]
fn request_basic_auth(builder: reqwest::RequestBuilder, username: String, password: Option<String>) -> (r: reqwest::RequestBuilder)
    requires
        has_header_room(builder_request(builder), 1),
    ensures
        builder_request(r) == (match builder_request(builder) {
            Some(q) => Some(
                (q.0, q.1, header_appended(q.2, "authorization"@, basic_auth_value(username@, option_text(password)))),
            ),
            None => None,
        }),
{
    builder.basic_auth(username, password)
}

/// `RequestBuilder::bearer_auth`: the request gets one more `Authorization` value, `Bearer `
/// and the token; where that is no header value, the builder fails. A builder that has
/// failed stays so.
#[verifier::external_body]
fn request_bearer_auth(builder: reqwest::RequestBuilder, token: String) -> (r: reqwest::RequestBuilder)
    requires
        has_header_room(builder_request(builder), 1),
    ensures
        builder_request(r) == (match builder_request(builder) {
            Some(q) => if is_header_value_text(bearer_text(token@)) {
                Some((q.0, q.1, header_appended(q.2, "authorization"@, bearer_text(token@))))
            } else {
                None
            },
            None => None,
        }),
{
    builder.bearer_auth(token)
}

/// `RequestBuilder::headers`: each name of the map gets the map's values in place of those
/// it had; the other names keep theirs. A builder that has failed stays so.
#[verifier::external_body]
fn request_headers(builder: reqwest::RequestBuilder, headers: http::HeaderMap<http::HeaderValue>) -> (r: reqwest::RequestBuilder)
    requires
        header_map_entries(headers).dom().finite(),
        has_header_room(builder_request(builder), header_map_entries(headers).dom().len()),
    ensures
        builder_request(r) == (match builder_request(builder) {
            Some(q) => Some((q.0, q.1, q.2.union_prefer_right(header_map_entries(headers)))),
            None => None,
        }),
{
    builder.headers(headers)
}

/// `Method::GET`.
#[verifier::external_body]
fn method_get() -> (m: http::Method)
    ensures
        method_name(m) == "GET"@,
{
    http::Method::GET
}

/// `Method::POST`.
#[verifier::external_body]
fn method_post() -> (m: http::Method)
    ensures
        method_name(m) == "POST"@,
{
    http::Method::POST
}

/// `Method::PUT`.
#[verifier::external_body]
fn method_put() -> (m: http::Method)
    ensures
        method_name(m) == "PUT"@,
{
    http::Method::PUT
}

/// `Method::PATCH`.
#[verifier::external_body]
fn method_patch() -> (m: http::Method)
    ensures
        method_name(m) == "PATCH"@,
{
    http::Method::PATCH
}

/// `Method::DELETE`.
#[verifier::external_body]
fn method_delete() -> (m: http::Method)
    ensures
        method_name(m) == "DELETE"@,
{
    http::Method::DELETE
}

/// `Method::HEAD`.
#[verifier::external_body]
fn method_head() -> (m: http::Method)
    ensures
        method_name(m) == "HEAD"@,
{
    http::Method::HEAD
}

/// `Method::OPTIONS`.
#[verifier::external_body]
fn method_options() -> (m: http::Method)
    ensures
        method_name(m) == "OPTIONS"@,
{
    http::Method::OPTIONS
}

/// `Method::CONNECT`.
#[verifier::external_body]
fn method_connect() -> (m: http::Method)
    ensures
        method_name(m) == "CONNECT"@,
{
    http::Method::CONNECT
}

/// `Method::TRACE`.
#[verifier::external_body]
fn method_trace() -> (m: http::Method)
    ensures
        method_name(m) == "TRACE"@,
{
    http::Method::TRACE
}

/// Something that builds requests: `request` with a method, and one shorthand per method.
pub trait RequestBuilderProvider {
    /// Whether `r` is a result that `request` may give for this method and target.
    spec fn requested(&self, method: Seq<char>, uri: Seq<char>, r: Result<reqwest::RequestBuilder, Error>) -> bool;

    fn request(&self, method: http::Method, uri: &RequestUri) -> (r: Result<reqwest::RequestBuilder, Error>)
        ensures
            self.requested(method_name(method), uri@, r),
    ;

    /// `request` with the method `GET`.
    fn get(&self, uri: &RequestUri) -> (r: Result<reqwest::RequestBuilder, Error>)
        ensures
            self.requested("GET"@, uri@, r),
    {
        self.request(method_get(), uri)
    }

    /// `request` with the method `POST`.
    fn post(&self, uri: &RequestUri) -> (r: Result<reqwest::RequestBuilder, Error>)
        ensures
            self.requested("POST"@, uri@, r),
    {
        self.request(method_post(), uri)
    }

    /// `request` with the method `PUT`.
    fn put(&self, uri: &RequestUri) -> (r: Result<reqwest::RequestBuilder, Error>)
        ensures
            self.requested("PUT"@, uri@, r),
    {
        self.request(method_put(), uri)
    }

    /// `request` with the method `PATCH`.
    fn patch(&self, uri: &RequestUri) -> (r: Result<reqwest::RequestBuilder, Error>)
        ensures
            self.requested("PATCH"@, uri@, r),
    {
        self.request(method_patch(), uri)
    }

    /// `request` with the method `DELETE`.
    fn delete(&self, uri: &RequestUri) -> (r: Result<reqwest::RequestBuilder, Error>)
        ensures
            self.requested("DELETE"@, uri@, r),
    {
        self.request(method_delete(), uri)
    }

    /// `request` with the method `HEAD`.
    fn head(&self, uri: &RequestUri) -> (r: Result<reqwest::RequestBuilder, Error>)
        ensures
            self.requested("HEAD"@, uri@, r),
    {
        self.request(method_head(), uri)
    }

    /// `request` with the method `OPTIONS`.
    fn options(&self, uri: &RequestUri) -> (r: Result<reqwest::RequestBuilder, Error>)
        ensures
            self.requested("OPTIONS"@, uri@, r),
    {
        self.request(method_options(), uri)
    }

    /// `request` with the method `CONNECT`.
    fn connect(&self, uri: &RequestUri) -> (r: Result<reqwest::RequestBuilder, Error>)
        ensures
            self.requested("CONNECT"@, uri@, r),
    {
        self.request(method_connect(), uri)
    }

    /// `request` with the method `TRACE`.
    fn trace(&self, uri: &RequestUri) -> (r: Result<reqwest::RequestBuilder, Error>)
        ensures
            self.requested("TRACE"@, uri@, r),
    {
        self.request(method_trace(), uri)
    }
}

impl RequestBuilderProvider for Provider {
    open spec fn requested(&self, method: Seq<char>, uri: Seq<char>, r: Result<reqwest::RequestBuilder, Error>) -> bool {
        self.spec_request_outcome(method, uri, r)
    }

    fn request(&self, method: http::Method, uri: &RequestUri) -> (r: Result<reqwest::RequestBuilder, Error>) {
        Provider::request(self, method, uri)
    }
}

/// Builds requests: with a client, the configured destination, authentication and headers.
pub struct Provider {
    client: reqwest::Client,
    destination: Option<Location>,
    auth: Option<Auth>,
    headers: Option<Vec<(String, String)>>,
}

impl Provider {
    #[verifier::type_invariant]
    spec fn within_header_limit(self) -> bool {
        1 + auth_header_count(self.auth) + header_count(self.headers) <= MAX_COMPOSED_HEADERS
    }

    pub closed spec fn spec_client(self) -> reqwest::Client {
        self.client
    }

    pub closed spec fn spec_destination(self) -> Option<Location> {
        self.destination
    }

    pub closed spec fn spec_auth(self) -> Option<Auth> {
        self.auth
    }

    pub closed spec fn spec_headers(self) -> Option<Vec<(String, String)>> {
        self.headers
    }

    /// The text of the URL a request for a target goes to: see `compose_request_url`.
    pub open spec fn spec_request_url(self, uri: Seq<char>) -> Seq<char> {
        match self.spec_destination() {
            Some(d) => spec_destination_url(d@, uri),
            None => uri_display_of(uri),
        }
    }

    /// The headers of a request after its authentication: credentials or a bearer token add
    /// an `Authorization` value (none where the token makes no header value), headers go in
    /// place of those of the same names.
    pub open spec fn spec_auth_headers(self, headers: Map<Seq<char>, Seq<Seq<char>>>) -> Option<
        Map<Seq<char>, Seq<Seq<char>>>,
    > {
        match self.spec_auth() {
            None => Some(headers),
            Some(Auth::Basic(b)) => Some(
                header_appended(headers, "authorization"@, basic_auth_value(b.username@, option_text(b.password))),
            ),
            Some(Auth::Bearer(t)) => if is_header_value_text(bearer_text(t@)) {
                Some(header_appended(headers, "authorization"@, bearer_text(t@)))
            } else {
                None
            },
            Some(Auth::Header(pairs)) => Some(headers.union_prefer_right(composed_headers(pairs@))),
        }
    }

    /// The headers of a request after the configured ones: each goes in place of those of the
    /// same name.
    pub open spec fn spec_configured_headers(self, headers: Map<Seq<char>, Seq<Seq<char>>>) -> Map<
        Seq<char>,
        Seq<Seq<char>>,
    > {
        match self.spec_headers() {
            Some(pairs) => headers.union_prefer_right(composed_headers(pairs@)),
            None => headers,
        }
    }

    /// The request built for a method and a URL text: what `Client::request` starts with,
    /// then the authentication, then the configured headers, which win over those of the
    /// authentication; none where building fails.
    pub open spec fn spec_built_request(self, method: Seq<char>, url: Seq<char>) -> Option<
        (Seq<char>, Seq<char>, Map<Seq<char>, Seq<Seq<char>>>),
    > {
        match client_request_of(url) {
            Some(start) => match self.spec_auth_headers(start.1) {
                Some(h) => Some((method, start.0, self.spec_configured_headers(h))),
                None => None,
            },
            None => None,
        }
    }

    /// What a request of a method (by name) for a target gives: it succeeds whenever there is a destination, and
    /// without one exactly when the target, written out, is a URL; it fails only on a URL
    /// that cannot be read; and its builder holds the request `spec_built_request` says.
    pub open spec fn spec_request_outcome(
        self,
        method: Seq<char>,
        uri: Seq<char>,
        r: Result<reqwest::RequestBuilder, Error>,
    ) -> bool {
        &&& self.spec_destination() is Some ==> r is Ok
        &&& self.spec_destination() is None ==> (r is Ok <==> url_parses(uri_display_of(uri)))
        &&& r is Err ==> r->Err_0 is UrlParseError
        &&& r is Ok ==> builder_request(r->Ok_0) == self.spec_built_request(method, self.spec_request_url(uri))
    }

    /// A provider that sends with the given client where the configuration says, with its
    /// authentication and headers. The proxy of the configuration goes into the client.
    pub fn with_client(client: reqwest::Client, config: Config) -> (p: Provider)
        requires
            config.within_header_limit(),
        ensures
            p.spec_client() == client,
            p.spec_destination() == config.destination,
            p.spec_auth() == config.auth,
            p.spec_headers() == config.headers,
    {
        Provider { client, destination: config.destination, auth: config.auth, headers: config.headers }
    }

    /// A request of this method for this URI: sent to the URL that `compose_request_url`
    /// gives, with the configured authentication (basic credentials, a bearer token, or
    /// headers), and then the configured headers.
    pub fn request(&self, method: http::Method, uri: &RequestUri) -> (r: Result<reqwest::RequestBuilder, Error>)
        ensures
            self.spec_request_outcome(method_name(method), uri@, r),
    {
        proof {
            use_type_invariant(self);
        }
        let url = match compose_request_url(&self.destination, uri) {
            Ok(url) => url,
            Err(e) => {
                return Err(e);
            },
        };
        assert(url@ == self.spec_request_url(uri@));
        let mut builder = client_request(&self.client, method, url.as_str());
        let ghost start = builder_request(builder);
        match &self.auth {
            Some(Auth::Basic(basic)) => {
                let password = clone_option_text(&basic.password);
                builder = request_basic_auth(builder, basic.username.clone(), password);
            },
            Some(Auth::Bearer(token)) => {
                builder = request_bearer_auth(builder, token.clone());
            },
            Some(Auth::Header(pairs)) => {
                let auth_headers = compose_headers(pairs);
                builder = request_headers(builder, auth_headers);
                proof {
                    if let Some(q) = start {
                        let c = composed_headers(pairs@);
                        assert(q.2.union_prefer_right(c).dom() =~= q.2.dom().union(c.dom()));
                        vstd::set_lib::lemma_len_union(q.2.dom(), c.dom());
                    }
                }
            },
            None => {},
        }
        let ghost after_auth = builder_request(builder);
        assert(after_auth == (match start {
            Some(q) => match self.spec_auth_headers(q.2) {
                Some(h) => Some((q.0, q.1, h)),
                None => None,
            },
            None => None,
        }));
        assert(has_header_room(after_auth, header_count(self.headers)));
        if let Some(pairs) = &self.headers {
            let configured = compose_headers(pairs);
            builder = request_headers(builder, configured);
        }
        Ok(builder)
    }
}

/// A request goes where composing its URL says: it fails exactly when that fails, and in the
/// same way; when it succeeds, its builder holds what `Client::request` makes of that URL,
/// with the method, the authentication and the configured headers.
pub proof fn lemma_request_follows_composed_url(
    p: Provider,
    method: Seq<char>,
    uri: Seq<char>,
    r: Result<reqwest::RequestBuilder, Error>,
    url: Result<Location, Error>,
)
    requires
        p.spec_request_outcome(method, uri, r),
        url_composition(p.spec_destination(), uri, url),
    ensures
        r is Err <==> url is Err,
        r is Err ==> r->Err_0 is UrlParseError && url->Err_0 is UrlParseError,
        r is Ok ==> builder_request(r->Ok_0) == p.spec_built_request(method, url->Ok_0@),
{
}

/// Headers given for authentication reach the request: each name they compose that the
/// configured headers do not name carries, in the built request, the value they compose.
pub proof fn lemma_auth_headers_reach_request(
    p: Provider,
    method: Seq<char>,
    uri: Seq<char>,
    r: Result<reqwest::RequestBuilder, Error>,
    name: Seq<char>,
)
    requires
        p.spec_request_outcome(method, uri, r),
        r is Ok,
        builder_request(r->Ok_0) is Some,
        p.spec_auth() is Some,
        p.spec_auth()->Some_0 is Header,
        composed_headers(p.spec_auth()->Some_0->Header_0@).dom().contains(name),
        p.spec_headers() is Some ==> !composed_headers(p.spec_headers()->Some_0@).dom().contains(name),
    ensures
        builder_request(r->Ok_0)->Some_0.2.dom().contains(name),
        builder_request(r->Ok_0)->Some_0.2[name] == composed_headers(p.spec_auth()->Some_0->Header_0@)[name],
{
}

/// Credentials and tokens reach the request: unless the configured headers name
/// `authorization`, its last value in the built request is the one basic credentials give,
/// or `Bearer ` and the token.
pub proof fn lemma_auth_value_reaches_request(
    p: Provider,
    method: Seq<char>,
    uri: Seq<char>,
    r: Result<reqwest::RequestBuilder, Error>,
)
    requires
        p.spec_request_outcome(method, uri, r),
        r is Ok,
        builder_request(r->Ok_0) is Some,
        p.spec_auth() is Some,
        p.spec_headers() is Some ==> !composed_headers(p.spec_headers()->Some_0@).dom().contains("authorization"@),
    ensures
        p.spec_auth()->Some_0 is Basic ==> builder_request(r->Ok_0)->Some_0.2.dom().contains("authorization"@)
            && builder_request(r->Ok_0)->Some_0.2["authorization"@].last() == basic_auth_value(
            p.spec_auth()->Some_0->Basic_0.username@,
            option_text(p.spec_auth()->Some_0->Basic_0.password),
        ),
        p.spec_auth()->Some_0 is Bearer ==> builder_request(r->Ok_0)->Some_0.2.dom().contains("authorization"@)
            && builder_request(r->Ok_0)->Some_0.2["authorization"@].last() == bearer_text(
            p.spec_auth()->Some_0->Bearer_0@,
        ),
{
}

/// A built request has the method it was asked for, and goes where `Client::request` sends
/// the composed URL.
pub proof fn lemma_request_method_and_url(
    p: Provider,
    method: Seq<char>,
    uri: Seq<char>,
    r: Result<reqwest::RequestBuilder, Error>,
)
    requires
        p.spec_request_outcome(method, uri, r),
        r is Ok,
        builder_request(r->Ok_0) is Some,
    ensures
        builder_request(r->Ok_0)->Some_0.0 == method,
        client_request_of(p.spec_request_url(uri)) is Some,
        builder_request(r->Ok_0)->Some_0.1 == client_request_of(p.spec_request_url(uri))->Some_0.0,
{
}

/// The proxy added for a configuration agrees with its plan: it takes the traffic its URL's
/// scheme selects; basic credentials of the plan are set on the URL `reqwest` makes of the
/// configured text; a custom value of the plan is the one it sends; without authentication
/// its URL is that URL and it sends no custom value. The proxies added before stay.
pub proof fn lemma_configured_proxy_follows_plan(
    p: Proxy,
    before: Seq<(Seq<char>, Seq<char>, Option<Seq<char>>)>,
    after: Seq<(Seq<char>, Seq<char>, Option<Seq<char>>)>,
    plan_auth: ProxyAuth,
)
    requires
        after == before.push(spec_configured_proxy(p)),
    ensures
        after.len() == before.len() + 1,
        after.subrange(0, before.len() as int) == before,
        after.last().0 == target_name(ProxyTarget::spec_for_scheme(url_scheme_of(p.destination@))),
        p.auth is None ==> after.last().1 == proxy_url_text_of(p.destination@) && after.last().2 is None,
        p.auth is Some && p.auth->Some_0 is Basic && basic_auth_of(plan_auth, p.auth->Some_0->Basic_0) ==> after.last().1
            == url_with_credentials(proxy_url_text_of(p.destination@), plan_auth->username@, plan_auth->password@)
            && after.last().2 is None,
        p.auth is Some && p.auth->Some_0 is Bearer ==> after.last().1 == proxy_url_text_of(p.destination@)
            && after.last().2 == Some(bearer_text(p.auth->Some_0->Bearer_0@)),
        p.auth is Some && p.auth->Some_0 is Header ==> after.last().1 == proxy_url_text_of(p.destination@) && (
        after.last().2 is Some <==> composed_headers(p.auth->Some_0->Header_0@).dom().contains(
            "proxy-authorization"@,
        )),
        p.auth is Some && p.auth->Some_0 is Header && composed_headers(p.auth->Some_0->Header_0@).dom().contains(
            "proxy-authorization"@,
        ) && custom_auth_of(
            plan_auth,
            composed_headers(p.auth->Some_0->Header_0@)["proxy-authorization"@][0],
        ) ==> after.last().2 == Some(header_value_text(plan_auth->Custom_0)),
{
    assert(after.subrange(0, before.len() as int) =~= before);
}

/// A configured header always wins: whatever the authentication put under its name, a built
/// request carries the configured value alone under it.
pub proof fn lemma_configured_headers_win(p: Provider, method: Seq<char>, url: Seq<char>, name: Seq<char>)
    requires
        p.spec_headers() is Some,
        composed_headers(p.spec_headers()->Some_0@).dom().contains(name),
        p.spec_built_request(method, url) is Some,
    ensures
        p.spec_built_request(method, url)->Some_0.2.dom().contains(name),
        p.spec_built_request(method, url)->Some_0.2[name] == composed_headers(p.spec_headers()->Some_0@)[name],
{
}

/// `Client::clone`: the same client, whose state is shared behind an `Arc`.
#[verifier::external_body]
fn client_clone(client: &reqwest::Client) -> (c: reqwest::Client)
    ensures
        c == *client,
{
    client.clone()
}

impl Clone for Provider {
    /// A provider with the same client, destination, authentication and headers.
    fn clone(&self) -> (p: Provider)
        ensures
            p.spec_client() == self.spec_client(),
            p.spec_destination() is Some <==> self.spec_destination() is Some,
            p.spec_destination() is Some ==> p.spec_destination()->Some_0@ == self.spec_destination()->Some_0@,
            p.spec_auth() is Some <==> self.spec_auth() is Some,
            p.spec_auth() is Some ==> p.spec_auth()->Some_0.same_as(self.spec_auth()->Some_0),
            p.spec_headers() is Some <==> self.spec_headers() is Some,
            p.spec_headers() is Some ==> same_pairs(p.spec_headers()->Some_0@, self.spec_headers()->Some_0@),
    {
        proof {
            use_type_invariant(self);
        }
        let destination = match &self.destination {
            Some(d) => Some(d.clone()),
            None => None,
        };
        let auth = match &self.auth {
            Some(a) => Some(a.copy()),
            None => None,
        };
        let headers = match &self.headers {
            Some(h) => Some(clone_pairs(h)),
            None => None,
        };
        Provider { client: client_clone(&self.client), destination, auth, headers }
    }
}

/// Where a proxy takes traffic: plain HTTP, HTTPS, or all of it.
#[derive(Clone, Copy, Debug, PartialEq, Eq, Structural)]
pub enum ProxyTarget {
    Http,
    Https,
    All,
}

impl ProxyTarget {
    /// The target a proxy URL's scheme selects.
    pub open spec fn spec_for_scheme(scheme: Seq<char>) -> ProxyTarget {
        if scheme == "http"@ {
            ProxyTarget::Http
        } else if scheme == "https"@ {
            ProxyTarget::Https
        } else {
            ProxyTarget::All
        }
    }

    /// `http` proxies plain HTTP, `https` proxies HTTPS, any other scheme proxies all.
    pub fn for_scheme(scheme: &str) -> (t: ProxyTarget)
        ensures
            t == ProxyTarget::spec_for_scheme(scheme@),
    {
        if same_text(scheme, "http") {
            ProxyTarget::Http
        } else if same_text(scheme, "https") {
            ProxyTarget::Https
        } else {
            ProxyTarget::All
        }
    }
}

/// How a client authenticates to its proxy.
pub enum ProxyAuth {
    NoAuth,
    Basic { username: String, password: String },
    Custom(http::HeaderValue),
}

/// The proxy a client goes through.
pub struct ProxyPlan {
    pub target: ProxyTarget,
    pub destination: Location,
    pub auth: ProxyAuth,
}

/// The proxy authentication carries the user name of the credentials, and their password
/// or an empty one.
pub open spec fn basic_auth_of(auth: ProxyAuth, b: AuthBasic) -> bool {
    &&& auth matches ProxyAuth::Basic { username, password }
    &&& auth->username@ == b.username@
    &&& auth->password@ == (if b.password is Some {
        b.password->Some_0@
    } else {
        Seq::<char>::empty()
    })
}

/// The proxy authentication is a header value of this text.
pub open spec fn custom_auth_of(auth: ProxyAuth, text: Seq<char>) -> bool {
    &&& auth is Custom
    &&& header_value_text(auth->Custom_0) == text
}

/// The value of an `Authorization` header for a bearer token.
pub open spec fn bearer_text(token: Seq<char>) -> Seq<char> {
    "Bearer "@ + token
}

/// Writes the value of an `Authorization` header for a bearer token.
pub fn bearer_value_text(token: &str) -> (r: String)
    ensures
        r@ == bearer_text(token@),
{
    let prefix = String::from_str("Bearer ");
    prefix.concat(token)
}

#[verifier::external_type_specification]
#[verifier::external_body]
pub struct ExProxy(ReqwestProxy);

#[verifier::external_type_specification]
#[verifier::external_body]
pub struct ExClientBuilder(reqwest::ClientBuilder);

/// Whether `reqwest` takes a text as the URL of a proxy (`IntoProxy::into_proxy`): the text
/// parses to a URL with a host, or, where it does not for want of a scheme or of a host,
/// `http://` before it makes one that does.
pub uninterp spec fn proxy_url_accepted(text: Seq<char>) -> bool;

/// `Url::has_host` of the URL a text parses to.
pub uninterp spec fn url_has_host(text: Seq<char>) -> bool;

/// Whether the URL a text parses to can carry a user name and a password: `Url::set_username`
/// and `Url::set_password` accept them exactly when it has a host that is not empty and its
/// scheme is not `file`.
pub uninterp spec fn url_takes_credentials(text: Seq<char>) -> bool;

/// Whether the URL a proxy goes to can carry a user name and a password, as above; a proxy
/// that decides its URL by a function of its own has none, and cannot.
pub uninterp spec fn proxy_takes_credentials(p: ReqwestProxy) -> bool;

/// What a proxy is: the traffic it takes (`http`, `https` or `all`), the text of the URL it
/// goes to (with any credentials it carries), and the text of the custom authorization
/// header value it sends, if any.
pub uninterp spec fn proxy_of(p: ReqwestProxy) -> (Seq<char>, Seq<char>, Option<Seq<char>>);

/// The proxies added to a client builder, in the order they were added, each as `proxy_of`
/// gives it.
pub uninterp spec fn builder_proxies(b: reqwest::ClientBuilder) -> Seq<(Seq<char>, Seq<char>, Option<Seq<char>>)>;

/// The text of the URL that `IntoProxy::into_proxy` makes of a text: the URL it parses to
/// (with port 1080 for a SOCKS URL without one), or, where that has no host, the URL of
/// `http://` and the text.
pub uninterp spec fn proxy_url_text_of(text: Seq<char>) -> Seq<char>;

/// The text of the URL a text parses to, after `Url::set_username` with a user name and
/// `Url::set_password` with a password.
pub uninterp spec fn url_with_credentials(text: Seq<char>, username: Seq<char>, password: Seq<char>) -> Seq<char>;

/// `Url::has_host` of the URL the text parses to (the `requires` says it parses).
#[verifier::external_body]
fn url_host_present(text: &str) -> (b: bool)
    requires
        url_parses(text@),
    ensures
        b == url_has_host(text@),
{
    url::Url::parse(text).unwrap().has_host()
}

/// `Url::set_username` on the URL the text parses to (the `requires` says it parses): whether
/// the URL can carry credentials.
#[verifier::external_body]
fn url_can_take_credentials(text: &str) -> (b: bool)
    requires
        url_parses(text@),
    ensures
        b == url_takes_credentials(text@),
{
    url::Url::parse(text).unwrap().set_username("").is_ok()
}

/// Whether the URL that `reqwest` makes of a proxy URL text can carry credentials: the URL of
/// the text itself where that has a host; else `http://` and the text, which always can.
pub open spec fn proxy_text_takes_credentials(text: Seq<char>) -> bool {
    url_has_host(text) ==> url_takes_credentials(text)
}

/// `Proxy::http`: a proxy of plain HTTP traffic to the URL of the text, where `reqwest` takes
/// it; its URL is that of the text (with the default port set for SOCKS), or, where that has
/// no host, that of `http://` and the text.
#[verifier::external_body]
fn proxy_http(destination: &str) -> (r: Result<ReqwestProxy, ReqwestError>)
    requires
        url_parses(destination@),
    ensures
        r is Ok <==> proxy_url_accepted(destination@),
        r is Ok ==> proxy_takes_credentials(r->Ok_0) == proxy_text_takes_credentials(destination@),
        r is Ok ==> proxy_of(r->Ok_0) == ("http"@, proxy_url_text_of(destination@), None::<Seq<char>>),
{
    ReqwestProxy::http(destination)
}

/// `Proxy::https`: as `proxy_http`, for HTTPS traffic only.
#[verifier::external_body]
fn proxy_https(destination: &str) -> (r: Result<ReqwestProxy, ReqwestError>)
    requires
        url_parses(destination@),
    ensures
        r is Ok <==> proxy_url_accepted(destination@),
        r is Ok ==> proxy_takes_credentials(r->Ok_0) == proxy_text_takes_credentials(destination@),
        r is Ok ==> proxy_of(r->Ok_0) == ("https"@, proxy_url_text_of(destination@), None::<Seq<char>>),
{
    ReqwestProxy::https(destination)
}

/// `Proxy::all`: as `proxy_http`, for all traffic.
#[verifier::external_body]
fn proxy_all(destination: &str) -> (r: Result<ReqwestProxy, ReqwestError>)
    requires
        url_parses(destination@),
    ensures
        r is Ok <==> proxy_url_accepted(destination@),
        r is Ok ==> proxy_takes_credentials(r->Ok_0) == proxy_text_takes_credentials(destination@),
        r is Ok ==> proxy_of(r->Ok_0) == ("all"@, proxy_url_text_of(destination@), None::<Seq<char>>),
{
    ReqwestProxy::all(destination)
}

/// `Proxy::basic_auth`: the proxy's URL gets the user name and the password; the rest stays.
/// It panics where the URL cannot carry them, which the `requires` leaves out.
#[verifier::external_body]
fn proxy_basic_auth(proxy: ReqwestProxy, username: &str, password: &str) -> (r: ReqwestProxy)
    requires
        proxy_takes_credentials(proxy),
    ensures
        proxy_of(r) == (
            proxy_of(proxy).0,
            url_with_credentials(proxy_of(proxy).1, username@, password@),
            proxy_of(proxy).2,
        ),
{
    proxy.basic_auth(username, password)
}

/// `Proxy::custom_http_auth`: the proxy sends this header value as its authorization; the
/// rest stays.
#[verifier::external_body]
fn proxy_custom_http_auth(proxy: ReqwestProxy, value: http::HeaderValue) -> (r: ReqwestProxy)
    ensures
        proxy_of(r) == (proxy_of(proxy).0, proxy_of(proxy).1, Some(header_value_text(value))),
{
    proxy.custom_http_auth(value)
}

/// `ClientBuilder::proxy`: the builder with this proxy added after the others. (It also
/// stops the builder from reading proxies from the environment, which is not modelled.)
#[verifier::external_body]
fn client_builder_with_proxy(builder: reqwest::ClientBuilder, proxy: ReqwestProxy) -> (r: reqwest::ClientBuilder)
    ensures
        builder_proxies(r) == builder_proxies(builder).push(proxy_of(proxy)),
{
    builder.proxy(proxy)
}

/// The name `proxy_of` gives the traffic a target takes.
pub open spec fn target_name(t: ProxyTarget) -> Seq<char> {
    match t {
        ProxyTarget::Http => "http"@,
        ProxyTarget::Https => "https"@,
        ProxyTarget::All => "all"@,
    }
}

/// A password, or the empty one.
pub open spec fn password_or_empty(password: Option<String>) -> Seq<char> {
    if password is Some {
        password->Some_0@
    } else {
        Seq::<char>::empty()
    }
}

/// The proxy a client goes through for a configured proxy: the traffic its URL's scheme
/// selects, the URL `reqwest` makes of the text, with basic credentials set on it (a
/// missing password as an empty one); a bearer token as the value `Bearer ` and the token;
/// headers as the `Proxy-Authorization` value they compose, if any.
pub open spec fn spec_configured_proxy(p: Proxy) -> (Seq<char>, Seq<char>, Option<Seq<char>>) {
    let target = target_name(ProxyTarget::spec_for_scheme(url_scheme_of(p.destination@)));
    let url = proxy_url_text_of(p.destination@);
    match p.auth {
        Some(Auth::Basic(b)) => (target, url_with_credentials(url, b.username@, password_or_empty(b.password)), None),
        Some(Auth::Bearer(t)) => (target, url, Some(bearer_text(t@))),
        Some(Auth::Header(h)) => (target, url, if composed_headers(h@).dom().contains("proxy-authorization"@) {
            Some(composed_headers(h@)["proxy-authorization"@][0])
        } else {
            None
        }),
        None => (target, url, None),
    }
}

/// A configuration whose proxy takes basic credentials has a proxy URL that can carry them.
pub open spec fn proxy_credentials_fit(config: Config) -> bool {
    config.proxy matches Some(p) ==> (p.auth matches Some(Auth::Basic(_)) ==> proxy_text_takes_credentials(
        p.destination@,
    ))
}

/// The client builder with the proxy of the configuration, if it has one: see `proxy_plan`
/// for its target and its authentication. A proxy URL that `reqwest` does not take fails
/// first; then a bearer token that makes no header value.
pub fn client_builder_proxy_config(client_builder: reqwest::ClientBuilder, config: &Config) -> (r: Result<
    reqwest::ClientBuilder,
    Error,
>)
    requires
        config.proxy matches Some(p) ==> (p.auth matches Some(a) ==> a.within_header_limit()),
        proxy_credentials_fit(*config),
    ensures
        config.proxy is None ==> r == Ok::<reqwest::ClientBuilder, Error>(client_builder),
        config.proxy matches Some(p) ==> {
            &&& (r is Err && r->Err_0 is ReqwestError <==> !proxy_url_accepted(p.destination@))
            &&& (r is Err && r->Err_0 is InvalidHeaderValue <==> proxy_url_accepted(p.destination@) && (
            p.auth matches Some(Auth::Bearer(t)) && !is_header_value_text(bearer_text(t@))))
        },
        config.proxy matches Some(p) ==> (r is Ok ==> builder_proxies(r->Ok_0) == builder_proxies(client_builder).push(
            spec_configured_proxy(p),
        )),
        r is Err ==> r->Err_0 is ReqwestError || r->Err_0 is InvalidHeaderValue,
{
    match &config.proxy {
        None => Ok(client_builder),
        Some(proxy) => {
            let destination = proxy.destination.as_str();
            let made = match ProxyTarget::for_scheme(proxy.destination.scheme().as_str()) {
                ProxyTarget::Http => proxy_http(destination),
                ProxyTarget::Https => proxy_https(destination),
                ProxyTarget::All => proxy_all(destination),
            };
            let mut client_proxy = match made {
                Ok(p) => p,
                Err(e) => {
                    return Err(Error::ReqwestError(e));
                },
            };
            let plan = match proxy_plan(config) {
                Ok(Some(plan)) => plan,
                Ok(None) => {
                    return Ok(client_builder);
                },
                Err(e) => {
                    return Err(e);
                },
            };
            match plan.auth {
                ProxyAuth::Basic { username, password } => {
                    client_proxy = proxy_basic_auth(client_proxy, username.as_str(), password.as_str());
                },
                ProxyAuth::Custom(value) => {
                    client_proxy = proxy_custom_http_auth(client_proxy, value);
                },
                ProxyAuth::NoAuth => {},
            }
            Ok(client_builder_with_proxy(client_builder, client_proxy))
        },
    }
}

/// `client_builder_proxy_config` on any configuration whose proxy headers fit a header map:
/// where its proxy takes basic credentials that its URL cannot carry (there `reqwest`
/// panics), it gives `None` and builds nothing; elsewhere it gives what that gives.
pub fn checked_client_builder_proxy_config(client_builder: reqwest::ClientBuilder, config: &Config) -> (r: Option<
    Result<reqwest::ClientBuilder, Error>,
>)
    requires
        config.proxy matches Some(p) ==> (p.auth matches Some(a) ==> a.within_header_limit()),
    ensures
        r is None <==> !proxy_credentials_fit(*config),
        config.proxy is None ==> r == Some(Ok::<reqwest::ClientBuilder, Error>(client_builder)),
        config.proxy matches Some(p) ==> (r is Some ==> {
            &&& (r->Some_0 is Err && r->Some_0->Err_0 is ReqwestError <==> !proxy_url_accepted(p.destination@))
            &&& (r->Some_0 is Err && r->Some_0->Err_0 is InvalidHeaderValue <==> proxy_url_accepted(p.destination@)
                && (p.auth matches Some(Auth::Bearer(t)) && !is_header_value_text(bearer_text(t@))))
            &&& (r->Some_0 is Ok ==> builder_proxies(r->Some_0->Ok_0) == builder_proxies(client_builder).push(
                spec_configured_proxy(p),
            ))
        }),
{
    let fits = match &config.proxy {
        Some(proxy) => match &proxy.auth {
            Some(Auth::Basic(_)) => {
                let destination = proxy.destination.as_str();
                !url_host_present(destination) || url_can_take_credentials(destination)
            },
            _ => true,
        },
        None => true,
    };
    if fits {
        Some(client_builder_proxy_config(client_builder, config))
    } else {
        None
    }
}

/// The proxy of a configuration: none without one; else its URL, the target its scheme
/// selects, and its authentication. Basic credentials go as they are, a missing password
/// as an empty one; a bearer token goes as a `Bearer` header value, and fails where that
/// is no header value; headers go as the `Proxy-Authorization` header they compose, if
/// any.
pub fn proxy_plan(config: &Config) -> (r: Result<Option<ProxyPlan>, Error>)
    requires
        config.proxy matches Some(p) ==> (p.auth matches Some(a) ==> a.within_header_limit()),
    ensures
        config.proxy is None ==> r is Ok && r->Ok_0 is None,
        config.proxy matches Some(p) ==> {
            &&& r is Ok ==> (r->Ok_0 matches Some(plan) && plan.destination@ == p.destination@
                && plan.target == ProxyTarget::spec_for_scheme(url_scheme_of(p.destination@)))
            &&& (p.auth is None ==> r is Ok && r->Ok_0->Some_0.auth is NoAuth)
            &&& (p.auth matches Some(Auth::Basic(b)) ==> r is Ok && basic_auth_of(r->Ok_0->Some_0.auth, b))
            &&& (p.auth matches Some(Auth::Bearer(t)) ==> (r is Err <==> !is_header_value_text(bearer_text(t@))))
            &&& (p.auth matches Some(Auth::Bearer(t)) ==> (r is Ok ==> custom_auth_of(
                r->Ok_0->Some_0.auth,
                bearer_text(t@),
            )))
            &&& (p.auth matches Some(Auth::Header(h)) ==> r is Ok && !(r->Ok_0->Some_0.auth is Basic) && (
            r->Ok_0->Some_0.auth is Custom <==> composed_headers(h@).dom().contains("proxy-authorization"@)))
            &&& (p.auth matches Some(Auth::Header(h)) ==> (r is Ok && r->Ok_0->Some_0.auth is Custom ==> custom_auth_of(
                r->Ok_0->Some_0.auth,
                composed_headers(h@)["proxy-authorization"@][0],
            )))
        },
        r is Err ==> r->Err_0 is InvalidHeaderValue,
{
    match &config.proxy {
        None => Ok(None),
        Some(proxy) => {
            let scheme = proxy.destination.scheme();
            let target = ProxyTarget::for_scheme(scheme.as_str());
            let auth = match &proxy.auth {
                None => ProxyAuth::NoAuth,
                Some(Auth::Basic(basic)) => {
                    let password = match &basic.password {
                        Some(p) => p.clone(),
                        None => String::new(),
                    };
                    ProxyAuth::Basic { username: basic.username.clone(), password }
                },
                Some(Auth::Bearer(token)) => {
                    let text = bearer_value_text(token.as_str());
                    match header_value_from_str(text.as_str()) {
                        Ok(value) => ProxyAuth::Custom(value),
                        Err(e) => {
                            return Err(Error::InvalidHeaderValue(e));
                        },
                    }
                },
                Some(Auth::Header(pairs)) => {
                    let headers = compose_headers(pairs);
                    match header_map_proxy_authorization(&headers) {
                        Some(value) => ProxyAuth::Custom(value),
                        None => ProxyAuth::NoAuth,
                    }
                },
            };
            Ok(Some(ProxyPlan { target, destination: proxy.destination.clone(), auth }))
        },
    }
}

} // verus!
