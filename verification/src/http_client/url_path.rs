use vstd::prelude::*;

use crate::http_client::error::Error;

verus! {

/// The text without its last character when that is a slash.
pub open spec fn without_trailing_slash(s: Seq<char>) -> Seq<char> {
    if s.len() > 0 && s.last() == '/' {
        s.drop_last()
    } else {
        s
    }
}

/// The text without its first character when that is a slash.
pub open spec fn without_leading_slash(s: Seq<char>) -> Seq<char> {
    if s.len() > 0 && s[0] == '/' {
        s.drop_first()
    } else {
        s
    }
}

/// The path of a request sent to a destination: the destination's path and the request's
/// path, joined by exactly the one slash that stood between them.
pub open spec fn joined_path(base: Seq<char>, path: Seq<char>) -> Seq<char> {
    without_trailing_slash(base) + seq!['/'] + without_leading_slash(path)
}

/// A slash more at the end of the destination's path, or at the start of the request's
/// path, changes nothing: the two parts always meet at one slash.
pub proof fn lemma_joined_path_single_slash(base: Seq<char>, path: Seq<char>)
    requires
        !(base.len() > 0 && base.last() == '/'),
        !(path.len() > 0 && path[0] == '/'),
    ensures
        joined_path(base.push('/'), path) == joined_path(base, path),
        joined_path(base, seq!['/'] + path) == joined_path(base, path),
        joined_path(base.push('/'), seq!['/'] + path) == joined_path(base, path),
        joined_path(base, path) == base + seq!['/'] + path,
{
    assert(base.push('/').drop_last() =~= base);
    assert((seq!['/'] + path).drop_first() =~= path);
}

/// Joins the path of a destination and the path of a request.
pub fn join_url_path(base: &str, path: &str) -> (r: String)
    ensures
        r@ == joined_path(base@, path@),
{
    let base_len = base.unicode_len();
    let base_part = if base_len > 0 && base.get_char(base_len - 1) == '/' {
        base.substring_char(0, base_len - 1)
    } else {
        base
    };
    let path_len = path.unicode_len();
    let path_part = if path_len > 0 && path.get_char(0) == '/' {
        path.substring_char(1, path_len)
    } else {
        path
    };
    proof {
        reveal_strlit("/");
        assert(base@.len() > 0 ==> base@.last() == base@[base@.len() - 1]);
        assert(base@.len() > 0 ==> base@.drop_last() =~= base@.subrange(0, base@.len() - 1));
        assert(path@.len() > 0 ==> path@.drop_first() =~= path@.subrange(1, path@.len() as int));
    }
    let mut joined = String::from_str(base_part);
    joined.append("/");
    joined.append(path_part);
    joined
}

/// Whether `Url::parse` accepts a text. The WHATWG URL grammar that decides it is not
/// written out.
pub uninterp spec fn url_parses(text: Seq<char>) -> bool;

/// `Url::path` of the URL a text parses to.
pub uninterp spec fn url_path_of(text: Seq<char>) -> Seq<char>;

/// `Url::scheme` of the URL a text parses to.
pub uninterp spec fn url_scheme_of(text: Seq<char>) -> Seq<char>;

/// The text of the URL a text parses to, after `Url::set_path` with a path.
pub uninterp spec fn url_with_path(text: Seq<char>, path: Seq<char>) -> Seq<char>;

/// The text of the URL a text parses to, after `Url::set_query` with a query or none.
pub uninterp spec fn url_with_query(text: Seq<char>, query: Option<Seq<char>>) -> Seq<char>;

/// Whether `Uri::from_str` accepts a text.
pub uninterp spec fn uri_parses(text: Seq<char>) -> bool;

/// `Uri::path` of the URI a text parses to.
pub uninterp spec fn uri_path_of(text: Seq<char>) -> Seq<char>;

/// `Uri::query` of the URI a text parses to.
pub uninterp spec fn uri_query_of(text: Seq<char>) -> Option<Seq<char>>;

/// The text that `Display` writes of the URI a text parses to.
pub uninterp spec fn uri_display_of(text: Seq<char>) -> Seq<char>;

/// `Url::parse`: it succeeds exactly on the texts it accepts, which are named and not
/// written out.
#[verifier::external_body]
fn url_parse(text: &str) -> (r: Result<(), url::ParseError>)
    ensures
        r is Ok <==> url_parses(text@),
{
    url::Url::parse(text).map(|_| ())
}

/// `Url::path` of the URL the text parses to (the `requires` says it parses).
#[verifier::external_body]
fn url_path(text: &str) -> (r: String)
    requires
        url_parses(text@),
    ensures
        r@ == url_path_of(text@),
{
    url::Url::parse(text).unwrap().path().to_string()
}

/// `Url::scheme` of the URL the text parses to (the `requires` says it parses).
#[verifier::external_body]
fn url_scheme(text: &str) -> (r: String)
    requires
        url_parses(text@),
    ensures
        r@ == url_scheme_of(text@),
{
    url::Url::parse(text).unwrap().scheme().to_string()
}

/// `Url::set_path` on the URL the text parses to, written back as text; the text of a `Url`
/// is one that `Url::parse` accepts.
#[verifier::external_body]
fn url_set_path(text: &str, path: &str) -> (r: String)
    requires
        url_parses(text@),
    ensures
        r@ == url_with_path(text@, path@),
        url_parses(r@),
{
    let mut url = url::Url::parse(text).unwrap();
    url.set_path(path);
    url.as_str().to_string()
}

/// `Url::set_query` on the URL the text parses to, written back as text; the text of a `Url`
/// is one that `Url::parse` accepts.
#[verifier::external_body]
fn url_set_query(text: &str, query: Option<&str>) -> (r: String)
    requires
        url_parses(text@),
    ensures
        r@ == url_with_query(text@, if query is Some { Some(query->Some_0@) } else { None }),
        url_parses(r@),
{
    let mut url = url::Url::parse(text).unwrap();
    url.set_query(query);
    url.as_str().to_string()
}

/// `Uri::from_str`: it succeeds exactly on the texts it accepts, which are named and not
/// written out.
#[verifier::external_body]
fn uri_parse(text: &str) -> (r: Result<(), http::uri::InvalidUri>)
    ensures
        r is Ok <==> uri_parses(text@),
{
    <http::Uri as std::str::FromStr>::from_str(text).map(|_| ())
}

/// `Uri::path` of the URI the text parses to (the `requires` says it parses).
#[verifier::external_body]
fn uri_path(text: &str) -> (r: String)
    requires
        uri_parses(text@),
    ensures
        r@ == uri_path_of(text@),
{
    <http::Uri as std::str::FromStr>::from_str(text).unwrap().path().to_string()
}

/// `Uri::query` of the URI the text parses to (the `requires` says it parses).
#[verifier::external_body]
fn uri_query(text: &str) -> (r: Option<String>)
    requires
        uri_parses(text@),
    ensures
        r is Some <==> uri_query_of(text@) is Some,
        r is Some ==> r->Some_0@ == uri_query_of(text@)->Some_0,
{
    <http::Uri as std::str::FromStr>::from_str(text).unwrap().query().map(|q| q.to_string())
}

/// `Uri`'s `Display` of the URI the text parses to (the `requires` says it parses).
#[verifier::external_body]
fn uri_display(text: &str) -> (r: String)
    requires
        uri_parses(text@),
    ensures
        r@ == uri_display_of(text@),
{
    <http::Uri as std::str::FromStr>::from_str(text).unwrap().to_string()
}

/// A URL, kept as a text that `Url::parse` accepts.
#[derive(Debug)]
pub struct Location {
    text: String,
}

impl View for Location {
    type V = Seq<char>;

    closed spec fn view(&self) -> Seq<char> {
        self.text@
    }
}

impl Location {
    #[verifier::type_invariant]
    spec fn parses(self) -> bool {
        url_parses(self.text@)
    }

    /// The URL of a text, where it is one.
    pub fn parse(text: &str) -> (r: Result<Location, url::ParseError>)
        ensures
            r is Ok <==> url_parses(text@),
            r is Ok ==> r->Ok_0@ == text@,
    {
        match url_parse(text) {
            Ok(()) => Ok(Location { text: String::from_str(text) }),
            Err(e) => Err(e),
        }
    }

    pub fn as_str(&self) -> (s: &str)
        ensures
            s@ == self@,
            url_parses(s@),
    {
        proof {
            use_type_invariant(self);
        }
        self.text.as_str()
    }

    /// The scheme of the URL.
    pub fn scheme(&self) -> (s: String)
        ensures
            s@ == url_scheme_of(self@),
    {
        url_scheme(self.as_str())
    }
}

impl Clone for Location {
    fn clone(&self) -> (l: Location)
        ensures
            l@ == self@,
    {
        proof {
            use_type_invariant(self);
        }
        Location { text: self.text.clone() }
    }
}

/// The target of a request, kept as a text that `Uri::from_str` accepts: a path with a query,
/// or a whole URL.
#[derive(Debug)]
pub struct RequestUri {
    text: String,
}

impl View for RequestUri {
    type V = Seq<char>;

    closed spec fn view(&self) -> Seq<char> {
        self.text@
    }
}

impl Clone for RequestUri {
    fn clone(&self) -> (u: RequestUri)
        ensures
            u@ == self@,
    {
        proof {
            use_type_invariant(self);
        }
        RequestUri { text: self.text.clone() }
    }
}

impl RequestUri {
    #[verifier::type_invariant]
    spec fn parses(self) -> bool {
        uri_parses(self.text@)
    }

    /// The target of a text, where it is one.
    pub fn parse(text: &str) -> (r: Result<RequestUri, http::uri::InvalidUri>)
        ensures
            r is Ok <==> uri_parses(text@),
            r is Ok ==> r->Ok_0@ == text@,
    {
        match uri_parse(text) {
            Ok(()) => Ok(RequestUri { text: String::from_str(text) }),
            Err(e) => Err(e),
        }
    }

    pub fn as_str(&self) -> (s: &str)
        ensures
            s@ == self@,
            uri_parses(s@),
    {
        proof {
            use_type_invariant(self);
        }
        self.text.as_str()
    }
}

/// The text of the URL a request for `uri` goes to with a destination: the destination with
/// its path joined to the request's (see `joined_path`), and the request's query in place
/// of its own.
pub open spec fn spec_destination_url(destination: Seq<char>, uri: Seq<char>) -> Seq<char> {
    url_with_query(
        url_with_path(destination, joined_path(url_path_of(destination), uri_path_of(uri))),
        uri_query_of(uri),
    )
}

/// What composing the URL of a request for a target gives. With a destination, the URL
/// `spec_destination_url` says; without one, the target written out, which fails, as a URL
/// that cannot be read, exactly where that is no URL.
pub open spec fn url_composition(destination: Option<Location>, uri: Seq<char>, r: Result<Location, Error>) -> bool {
    &&& destination is Some ==> r is Ok && r->Ok_0@ == spec_destination_url(destination->Some_0@, uri)
    &&& destination is None ==> (r is Ok <==> url_parses(uri_display_of(uri)))
    &&& destination is None && r is Ok ==> r->Ok_0@ == uri_display_of(uri)
    &&& r is Err ==> r->Err_0 is UrlParseError
}

/// The URL a request goes to: see `url_composition`.
pub fn compose_request_url(destination: &Option<Location>, uri: &RequestUri) -> (r: Result<Location, Error>)
    ensures
        url_composition(*destination, uri@, r),
{
    let target = uri.as_str();
    match destination {
        Some(destination) => {
            let base = destination.as_str();
            let path = join_url_path(url_path(base).as_str(), uri_path(target).as_str());
            let with_path = url_set_path(base, path.as_str());
            let query = uri_query(target);
            let query_text = match &query {
                Some(q) => Some(q.as_str()),
                None => None,
            };
            let text = url_set_query(with_path.as_str(), query_text);
            Ok(Location { text })
        },
        None => {
            let text = uri_display(target);
            match Location::parse(text.as_str()) {
                Ok(url) => Ok(url),
                Err(e) => Err(Error::UrlParseError(e)),
            }
        },
    }
}

} // verus!
