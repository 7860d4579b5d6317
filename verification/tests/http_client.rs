use app_forge_kit::http_client::headers::compose_headers;
use app_forge_kit::http_client::provider::{
    bearer_value_text, checked_client_builder_proxy_config, client_builder_proxy_config, proxy_plan, ProxyAuth,
    ProxyTarget,
};
use app_forge_kit::http_client::url_path::{compose_request_url, join_url_path, Location, RequestUri};
use app_forge_kit::http_client::{Auth, AuthBasic, Config, Error, Provider, Proxy, RequestBuilderProvider};

fn pairs(items: &[(&str, &str)]) -> Vec<(String, String)> {
    items.iter().map(|(k, v)| (k.to_string(), v.to_string())).collect()
}

fn empty_config() -> Config {
    Config { destination: None, auth: None, proxy: None, headers: None }
}

#[test]
fn join_keeps_one_slash() {
    assert_eq!(join_url_path("/api/", "/users"), "/api/users");
    assert_eq!(join_url_path("/api", "users"), "/api/users");
    assert_eq!(join_url_path("/api/", "users"), "/api/users");
    assert_eq!(join_url_path("/api", "/users"), "/api/users");
    assert_eq!(join_url_path("/", "/"), "/");
    assert_eq!(join_url_path("", ""), "/");
    assert_eq!(join_url_path("/a//", "//b"), "/a///b");
    assert_eq!(join_url_path("/é/", "/ü"), "/é/ü");
}

#[test]
fn compose_headers_leaves_out_what_cannot_be_sent() {
    let p = pairs(&[
        ("X-Token", "abc"),
        ("bad name", "v"),
        ("x-ok", "line\nbreak"),
        ("x-tab", "a\tb"),
        ("", "empty name"),
        ("x-utf8", "héllo"),
        ("x-del", "\u{7f}"),
    ]);
    let m = compose_headers(&p);
    assert_eq!(m.len(), 3);
    assert_eq!(m.get("x-token").unwrap(), "abc");
    assert_eq!(m.get("x-tab").unwrap(), "a\tb");
    assert_eq!(m.get("x-utf8").unwrap().as_bytes(), "héllo".as_bytes());
    assert!(m.get("x-ok").is_none());
    assert!(m.get("x-del").is_none());
}

#[test]
fn compose_headers_keeps_valid_and_last_wins() {
    let p = pairs(&[("X-Token", "abc"), ("bad name", "v"), ("x-token", "def"), ("Accept", "text/plain")]);
    let m = compose_headers(&p);
    assert_eq!(m.len(), 2);
    assert_eq!(m.get("x-token").unwrap(), "def");
    assert_eq!(m.get("accept").unwrap(), "text/plain");
}

#[test]
fn request_url_with_destination() {
    let destination = Some(Location::parse("https://example.com/base/?old=1").unwrap());
    let uri = RequestUri::parse("/users/7?page=2").unwrap();
    let url = compose_request_url(&destination, &uri).unwrap();
    assert_eq!(url.as_str(), "https://example.com/base/users/7?page=2");

    let uri = RequestUri::parse("/plain").unwrap();
    let url = compose_request_url(&destination, &uri).unwrap();
    assert_eq!(url.as_str(), "https://example.com/base/plain");
}

#[test]
fn request_url_without_destination() {
    let uri = RequestUri::parse("http://host.test:8080/a/b?c=d").unwrap();
    let url = compose_request_url(&None, &uri).unwrap();
    assert_eq!(url.as_str(), "http://host.test:8080/a/b?c=d");

    let uri = RequestUri::parse("/relative").unwrap();
    match compose_request_url(&None, &uri) {
        Err(Error::UrlParseError(e)) => assert_eq!(e, url::ParseError::RelativeUrlWithoutBase),
        _ => panic!("a relative URI is no URL"),
    }
}

#[test]
fn proxy_targets_by_scheme() {
    assert_eq!(ProxyTarget::for_scheme("http"), ProxyTarget::Http);
    assert_eq!(ProxyTarget::for_scheme("https"), ProxyTarget::Https);
    assert_eq!(ProxyTarget::for_scheme("socks5"), ProxyTarget::All);
    assert_eq!(ProxyTarget::for_scheme("HTTP"), ProxyTarget::All);
}

#[test]
fn bearer_text_has_the_prefix() {
    assert_eq!(bearer_value_text("tok"), "Bearer tok");
    assert_eq!(bearer_value_text(""), "Bearer ");
}

fn with_proxy(url: &str, auth: Option<Auth>) -> Config {
    Config { proxy: Some(Proxy { destination: Location::parse(url).unwrap(), auth }), ..empty_config() }
}

#[test]
fn no_proxy_no_plan() {
    assert!(matches!(proxy_plan(&empty_config()), Ok(None)));
}

#[test]
fn proxy_plan_basic() {
    let c = with_proxy(
        "https://proxy.test:3128",
        Some(Auth::Basic(AuthBasic { username: "u".to_string(), password: None })),
    );
    let plan = proxy_plan(&c).unwrap().unwrap();
    assert_eq!(plan.target, ProxyTarget::Https);
    assert_eq!(plan.destination.as_str(), "https://proxy.test:3128");
    match plan.auth {
        ProxyAuth::Basic { username, password } => {
            assert_eq!(username, "u");
            assert_eq!(password, "");
        }
        _ => panic!("basic credentials"),
    }
}

#[test]
fn proxy_plan_bearer() {
    let c = with_proxy("http://proxy.test", Some(Auth::Bearer("t0k".to_string())));
    let plan = proxy_plan(&c).unwrap().unwrap();
    assert_eq!(plan.target, ProxyTarget::Http);
    match plan.auth {
        ProxyAuth::Custom(v) => assert_eq!(v, "Bearer t0k"),
        _ => panic!("a bearer header"),
    }
    let c = with_proxy("http://proxy.test", Some(Auth::Bearer("bad\ntoken".to_string())));
    assert!(matches!(proxy_plan(&c), Err(Error::InvalidHeaderValue(_))));
}

#[test]
fn proxy_plan_headers() {
    let c = with_proxy(
        "socks5://proxy.test",
        Some(Auth::Header(pairs(&[("Proxy-Authorization", "Basic abc"), ("x-other", "1")]))),
    );
    let plan = proxy_plan(&c).unwrap().unwrap();
    assert_eq!(plan.target, ProxyTarget::All);
    match plan.auth {
        ProxyAuth::Custom(v) => assert_eq!(v, "Basic abc"),
        _ => panic!("the proxy-authorization header"),
    }
    let c = with_proxy("socks5://proxy.test", Some(Auth::Header(pairs(&[("x-other", "1")]))));
    assert!(matches!(proxy_plan(&c).unwrap().unwrap().auth, ProxyAuth::NoAuth));
}

#[test]
fn requests_carry_auth_and_headers() {
    let config = Config {
        destination: Some(Location::parse("http://service.test/v1").unwrap()),
        auth: Some(Auth::Bearer("secret".to_string())),
        proxy: None,
        headers: Some(pairs(&[("X-Trace", "on")])),
    };
    let provider = Provider::with_client(reqwest::Client::new(), config);
    let uri = RequestUri::parse("/items?x=1").unwrap();
    let request = provider.get(&uri).unwrap().build().unwrap();
    assert_eq!(request.method(), http::Method::GET);
    assert_eq!(request.url().as_str(), "http://service.test/v1/items?x=1");
    assert_eq!(request.headers().get("authorization").unwrap(), "Bearer secret");
    assert_eq!(request.headers().get("x-trace").unwrap(), "on");

    let request = provider.post(&uri).unwrap().build().unwrap();
    assert_eq!(request.method(), http::Method::POST);
}

#[test]
fn requests_with_basic_auth() {
    let config = Config {
        destination: Some(Location::parse("http://service.test/").unwrap()),
        auth: Some(Auth::Basic(AuthBasic { username: "user".to_string(), password: Some("pw".to_string()) })),
        proxy: None,
        headers: None,
    };
    let provider = Provider::with_client(reqwest::Client::new(), config);
    let uri = RequestUri::parse("/").unwrap();
    let request = provider.delete(&uri).unwrap().build().unwrap();
    assert_eq!(request.method(), http::Method::DELETE);
    assert_eq!(request.url().as_str(), "http://service.test/");
    assert_eq!(request.headers().get("authorization").unwrap(), "Basic dXNlcjpwdw==");
}

#[test]
fn requests_without_destination_need_absolute_uris() {
    let provider = Provider::with_client(reqwest::Client::new(), empty_config());
    let relative = RequestUri::parse("/x").unwrap();
    assert!(matches!(provider.get(&relative), Err(Error::UrlParseError(_))));
    let absolute = RequestUri::parse("http://other.test/x").unwrap();
    let request = provider.head(&absolute).unwrap().build().unwrap();
    assert_eq!(request.url().as_str(), "http://other.test/x");
}

#[test]
fn locations_and_targets_parse() {
    assert!(Location::parse("https://example.com/a").is_ok());
    assert!(Location::parse("not a url").is_err());
    assert_eq!(Location::parse("socks5://p.test:1").unwrap().scheme(), "socks5");
    assert!(RequestUri::parse("/a/b?c").is_ok());
    assert!(RequestUri::parse("http://[::1").is_err());
    assert_eq!(Location::parse("http://x.test/p").unwrap().as_str(), "http://x.test/p");
}

#[test]
fn request_url_percent_encodes_the_joined_path() {
    let destination = Some(Location::parse("http://example.com/base").unwrap());
    let uri = RequestUri::parse("/a%20b").unwrap();
    let url = compose_request_url(&destination, &uri).unwrap();
    assert_eq!(url.as_str(), "http://example.com/base/a%20b");
}

#[test]
fn every_shorthand_uses_its_method() {
    let config = Config {
        destination: Some(Location::parse("http://service.test/").unwrap()),
        auth: None,
        proxy: None,
        headers: None,
    };
    let provider = Provider::with_client(reqwest::Client::new(), config);
    let uri = RequestUri::parse("/x").unwrap();
    let built = |r: Result<reqwest::RequestBuilder, Error>| r.unwrap().build().unwrap().method().clone();
    assert_eq!(built(provider.get(&uri)), http::Method::GET);
    assert_eq!(built(provider.post(&uri)), http::Method::POST);
    assert_eq!(built(provider.put(&uri)), http::Method::PUT);
    assert_eq!(built(provider.patch(&uri)), http::Method::PATCH);
    assert_eq!(built(provider.delete(&uri)), http::Method::DELETE);
    assert_eq!(built(provider.head(&uri)), http::Method::HEAD);
    assert_eq!(built(provider.options(&uri)), http::Method::OPTIONS);
    assert_eq!(built(provider.connect(&uri)), http::Method::CONNECT);
    assert_eq!(built(provider.trace(&uri)), http::Method::TRACE);
    assert_eq!(built(provider.request(http::Method::PATCH, &uri)), http::Method::PATCH);
}

#[test]
fn requests_carry_method_url_and_headers() {
    let config = Config {
        destination: Some(Location::parse("http://example.com/api").unwrap()),
        auth: Some(Auth::Bearer("tok".to_string())),
        proxy: None,
        headers: Some(pairs(&[("x-a", "1")])),
    };
    let provider = Provider::with_client(reqwest::Client::new(), config);
    let uri = RequestUri::parse("/v1?x=2").unwrap();
    let request = provider
        .request(http::Method::POST, &uri)
        .unwrap()
        .build()
        .unwrap();
    assert_eq!(request.method(), http::Method::POST);
    assert_eq!(request.url().as_str(), "http://example.com/api/v1?x=2");
    assert_eq!(request.headers()["authorization"], "Bearer tok");
    assert_eq!(request.headers()["x-a"], "1");
}

#[test]
fn basic_credentials_with_and_without_password() {
    let with = |password: Option<&str>| {
        let config = Config {
            destination: Some(Location::parse("http://h/").unwrap()),
            auth: Some(Auth::Basic(AuthBasic { username: "user".to_string(), password: password.map(String::from) })),
            proxy: None,
            headers: None,
        };
        let provider = Provider::with_client(reqwest::Client::new(), config);
        let request = provider.get(&RequestUri::parse("/").unwrap()).unwrap().build().unwrap();
        request.headers()["authorization"].clone()
    };
    assert_eq!(with(Some("pw")), "Basic dXNlcjpwdw==");
    assert_eq!(with(None), "Basic dXNlcjo=");
}

#[test]
fn configured_headers_replace_authentication_headers() {
    let config = Config {
        destination: Some(Location::parse("http://h/").unwrap()),
        auth: Some(Auth::Header(pairs(&[("authorization", "A")]))),
        proxy: None,
        headers: Some(pairs(&[("authorization", "B")])),
    };
    let provider = Provider::with_client(reqwest::Client::new(), config);
    let request = provider.get(&RequestUri::parse("/").unwrap()).unwrap().build().unwrap();
    let values: Vec<_> = request.headers().get_all("authorization").iter().collect();
    assert_eq!(values, vec!["B"]);
}

#[test]
fn unusable_bearer_token_fails_the_builder() {
    let config = Config {
        destination: Some(Location::parse("http://h/").unwrap()),
        auth: Some(Auth::Bearer("bad\ntoken".to_string())),
        proxy: None,
        headers: None,
    };
    let provider = Provider::with_client(reqwest::Client::new(), config);
    let builder = provider.get(&RequestUri::parse("/").unwrap()).unwrap();
    assert!(builder.build().is_err());
}

#[test]
fn cloned_provider_builds_the_same_requests() {
    let config = Config {
        destination: Some(Location::parse("http://service.test/base").unwrap()),
        auth: Some(Auth::Bearer("t".to_string())),
        proxy: None,
        headers: Some(pairs(&[("x-b", "2")])),
    };
    let provider = Provider::with_client(reqwest::Client::new(), config);
    let copy = provider.clone();
    let uri = RequestUri::parse("/p").unwrap();
    let a = provider.get(&uri).unwrap().build().unwrap();
    let b = copy.get(&uri).unwrap().build().unwrap();
    assert_eq!(a.url(), b.url());
    assert_eq!(b.headers()["authorization"], "Bearer t");
    assert_eq!(b.headers()["x-b"], "2");
}

#[test]
fn proxy_bearer_value_keeps_its_prefix() {
    let c = with_proxy("http://proxy.test", Some(Auth::Bearer("abc".to_string())));
    match proxy_plan(&c).unwrap().unwrap().auth {
        ProxyAuth::Custom(v) => assert_eq!(v.to_str().unwrap(), "Bearer abc"),
        _ => panic!("a bearer header"),
    }
}

#[test]
fn proxy_plan_ignores_request_header_lists() {
    let many: Vec<(String, String)> = (0..7000).map(|i| (format!("x-{i}"), "v".to_string())).collect();
    let c = Config { headers: Some(many), ..with_proxy("http://proxy.test", None) };
    let plan = proxy_plan(&c).unwrap().unwrap();
    assert!(matches!(plan.auth, ProxyAuth::NoAuth));
}

#[test]
fn client_builder_without_proxy_is_unchanged() {
    let builder = client_builder_proxy_config(reqwest::ClientBuilder::new(), &empty_config()).unwrap();
    assert!(builder.build().is_ok());
}

#[test]
fn client_builder_with_proxies() {
    let c = with_proxy(
        "http://proxy.test:3128",
        Some(Auth::Basic(AuthBasic { username: "u".to_string(), password: Some("p".to_string()) })),
    );
    let builder = client_builder_proxy_config(reqwest::ClientBuilder::new(), &c).unwrap();
    assert!(builder.build().is_ok());
    let c = with_proxy("https://proxy.test", Some(Auth::Bearer("t".to_string())));
    assert!(client_builder_proxy_config(reqwest::ClientBuilder::new(), &c).is_ok());
}

#[test]
fn proxy_url_errors_come_before_token_errors() {
    let c = with_proxy("data:text", Some(Auth::Bearer("bad\ntoken".to_string())));
    assert!(matches!(client_builder_proxy_config(reqwest::ClientBuilder::new(), &c), Err(Error::ReqwestError(_))));
    let c = with_proxy("http://proxy.test", Some(Auth::Bearer("bad\ntoken".to_string())));
    assert!(matches!(
        client_builder_proxy_config(reqwest::ClientBuilder::new(), &c),
        Err(Error::InvalidHeaderValue(_))
    ));
}

#[test]
fn credentials_on_a_file_proxy_are_refused() {
    let c = with_proxy(
        "file://host/path",
        Some(Auth::Basic(AuthBasic { username: "u".to_string(), password: None })),
    );
    assert!(checked_client_builder_proxy_config(reqwest::ClientBuilder::new(), &c).is_none());
    let c = with_proxy("file://host/path", None);
    assert!(checked_client_builder_proxy_config(reqwest::ClientBuilder::new(), &c).unwrap().is_ok());
    let c = with_proxy(
        "unix:/tmp/socket",
        Some(Auth::Basic(AuthBasic { username: "u".to_string(), password: None })),
    );
    assert!(checked_client_builder_proxy_config(reqwest::ClientBuilder::new(), &c).unwrap().is_ok());
}

#[test]
fn extension_methods_are_sent_as_given() {
    let config = Config { destination: Some(Location::parse("http://h/").unwrap()), ..empty_config() };
    let provider = Provider::with_client(reqwest::Client::new(), config);
    let purge = http::Method::from_bytes(b"PURGE").unwrap();
    let request = provider.request(purge, &RequestUri::parse("/c").unwrap()).unwrap().build().unwrap();
    assert_eq!(request.method().as_str(), "PURGE");
    assert_eq!(request.url().as_str(), "http://h/c");
}

#[test]
fn configured_proxy_is_added_to_the_builder() {
    let without = client_builder_proxy_config(reqwest::ClientBuilder::new(), &empty_config()).unwrap();
    assert!(!format!("{without:?}").contains("proxies"));
    let c = with_proxy("http://proxy.test:3128", None);
    let with = client_builder_proxy_config(reqwest::ClientBuilder::new(), &c).unwrap();
    assert!(format!("{with:?}").contains("proxies"));
}
