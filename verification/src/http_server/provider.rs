use vstd::prelude::*;

use crate::http_server::config::Config;
use crate::listen::{listen_or, SocketAddress};
use crate::service::shutdown::{empty_shutdown_slot, ShutdownSlot};

verus! {

#[verifier::external_type_specification]
#[verifier::external_body]
#[verifier::reject_recursive_types(S)]
pub struct ExRouter<S>(axum::Router<S>);

/// The port the server listens on when the configuration names no address.
pub const DEFAULT_LISTEN_PORT: u16 = 8080;

/// Whether a router has a route, as `Router::has_routes` says.
pub uninterp spec fn router_has_routes(r: axum::Router<()>) -> bool;

/// `Router::new`: a router with no route. The rest of the router is not modelled.
#[verifier::external_body]
fn router_new() -> (r: axum::Router<()>)
    ensures
        !router_has_routes(r),
{
    axum::Router::new()
}

/// `<Router as Clone>::clone`, which clones the `Arc` of its routes: the same router.
#[verifier::external_body]
fn router_clone(r: &axum::Router<()>) -> (c: axum::Router<()>)
    ensures
        c == *r,
{
    r.clone()
}

/// An HTTP server: its configuration, its routes, and the slot of the sender that stops it.
pub struct Provider {
    done: ShutdownSlot,
    config: Option<Config>,
    router: axum::Router<()>,
}

impl Provider {
    pub closed spec fn spec_config(self) -> Option<Config> {
        self.config
    }

    pub closed spec fn spec_done(self) -> ShutdownSlot {
        self.done
    }

    pub closed spec fn spec_router(self) -> axum::Router<()> {
        self.router
    }

    /// The configured address, else `127.0.0.1:8080`.
    pub open spec fn spec_listen_address(self) -> SocketAddress {
        match self.spec_config() {
            Some(c) => match c.listen {
                Some(a) => a,
                None => SocketAddress::spec_loopback(DEFAULT_LISTEN_PORT),
            },
            None => SocketAddress::spec_loopback(DEFAULT_LISTEN_PORT),
        }
    }

    /// A server with no configuration and no route, holding no stop sender yet.
    pub fn new() -> (p: Provider)
        ensures
            p.spec_config() is None,
            !router_has_routes(p.spec_router()),
    {
        Provider { done: empty_shutdown_slot(), config: None, router: router_new() }
    }

    pub fn with_config(self, config: Config) -> (p: Provider)
        ensures
            p.spec_config() == Some(config),
            p.spec_router() == self.spec_router(),
            p.spec_done() == self.spec_done(),
    {
        Provider { config: Some(config), ..self }
    }

    pub fn with_router(self, router: axum::Router<()>) -> (p: Provider)
        ensures
            p.spec_config() == self.spec_config(),
            p.spec_router() == router,
            p.spec_done() == self.spec_done(),
    {
        Provider { router, ..self }
    }

    /// The address to listen on: that of the configuration, else `127.0.0.1:8080`.
    pub fn listen_address(&self) -> (a: SocketAddress)
        ensures
            a == self.spec_listen_address(),
    {
        let config = match &self.config {
            Some(c) => *c,
            None => Config::default(),
        };
        listen_or(config.listen, SocketAddress::loopback(DEFAULT_LISTEN_PORT))
    }

    /// The slot of the sender that stops the server.
    pub fn done(&self) -> (d: &ShutdownSlot)
        ensures
            *d == self.spec_done(),
    {
        &self.done
    }

    /// A copy of the routes, to serve.
    pub fn router(&self) -> (r: axum::Router<()>)
        ensures
            r == self.spec_router(),
    {
        router_clone(&self.router)
    }
}

} // verus!
