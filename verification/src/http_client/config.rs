use vstd::prelude::*;

use crate::http_client::headers::MAX_COMPOSED_HEADERS;
use crate::http_client::url_path::Location;
use crate::text::{clone_option_text, clone_pairs, option_text, same_pairs};

verus! {

/// A user name, with a password or none.
#[derive(Clone, Debug)]
pub struct AuthBasic {
    pub username: String,
    pub password: Option<String>,
}

/// How requests authenticate. `Header` lists header names with their values, in the order
/// the configuration gave them.
#[derive(Clone, Debug)]
pub enum Auth {
    Basic(AuthBasic),
    Bearer(String),
    Header(Vec<(String, String)>),
}

/// A proxy to send requests through, and how to authenticate to it.
#[derive(Clone, Debug)]
pub struct Proxy {
    pub destination: Location,
    pub auth: Option<Auth>,
}

/// The configuration of a client.
#[derive(Clone, Debug)]
pub struct Config {
    pub destination: Option<Location>,
    pub auth: Option<Auth>,
    pub proxy: Option<Proxy>,
    pub headers: Option<Vec<(String, String)>>,
}

impl Auth {
    /// The two authenticate the same way, with the same texts.
    pub open spec fn same_as(self, other: Auth) -> bool {
        match (self, other) {
            (Auth::Basic(a), Auth::Basic(b)) => a.username@ == b.username@ && option_text(a.password) == option_text(
                b.password,
            ),
            (Auth::Bearer(a), Auth::Bearer(b)) => a@ == b@,
            (Auth::Header(a), Auth::Header(b)) => same_pairs(a@, b@),
            _ => false,
        }
    }

    /// A copy of the authentication.
    pub fn copy(&self) -> (a: Auth)
        ensures
            a.same_as(*self),
            auth_header_count(Some(a)) == auth_header_count(Some(*self)),
    {
        match self {
            Auth::Basic(b) => Auth::Basic(
                AuthBasic { username: b.username.clone(), password: clone_option_text(&b.password) },
            ),
            Auth::Bearer(t) => Auth::Bearer(t.clone()),
            Auth::Header(h) => Auth::Header(clone_pairs(h)),
        }
    }

    /// Headers given for authentication are no more than a header map is made of.
    pub open spec fn within_header_limit(self) -> bool {
        self matches Auth::Header(h) ==> h@.len() <= MAX_COMPOSED_HEADERS
    }
}

/// How many header names authentication can put on a request: one for credentials or a
/// token, one for each header given.
pub open spec fn auth_header_count(auth: Option<Auth>) -> nat {
    match auth {
        Some(Auth::Header(h)) => h@.len(),
        Some(_) => 1,
        None => 0,
    }
}

/// How many headers are configured.
pub open spec fn header_count(headers: Option<Vec<(String, String)>>) -> nat {
    match headers {
        Some(h) => h@.len(),
        None => 0,
    }
}

impl Config {
    /// A request built with this configuration holds no more header names than a header map
    /// takes: the one its URL's credentials may give, those of the authentication and the
    /// configured ones; and the proxy's headers are no more than that either.
    pub open spec fn within_header_limit(self) -> bool {
        &&& 1 + auth_header_count(self.auth) + header_count(self.headers) <= MAX_COMPOSED_HEADERS
        &&& (self.proxy matches Some(p) ==> (p.auth matches Some(a) ==> a.within_header_limit()))
    }
}

} // verus!
