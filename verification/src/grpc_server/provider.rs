use vstd::prelude::*;

use crate::grpc_server::config::Config;
use crate::listen::{listen_or, SocketAddress};
use crate::service::shutdown::{empty_shutdown_slot, ShutdownSlot};

verus! {

#[verifier::external_type_specification]
#[verifier::external_body]
pub struct ExRoutes(tonic::service::Routes);

#[verifier::external_type_specification]
#[verifier::external_body]
pub struct ExRoutesBuilder(tonic::service::RoutesBuilder);

/// The port the server listens on when the configuration names no address.
pub const DEFAULT_LISTEN_PORT: u16 = 50051;

/// The room the list of reflected file descriptor sets starts with.
pub const DEFAULT_REFLECTION_FDS_CAPACITY: usize = 8;

/// Whether a builder of routes has had a service added.
pub uninterp spec fn routes_builder_has_services(b: tonic::service::RoutesBuilder) -> bool;

/// Whether routes have a route, as `has_routes` of their axum router says.
pub uninterp spec fn routes_have_services(r: tonic::service::Routes) -> bool;

/// `Routes::builder`: a builder with no service. The rest of it is not modelled.
#[verifier::external_body]
fn routes_builder() -> (b: tonic::service::RoutesBuilder)
    ensures
        !routes_builder_has_services(b),
{
    tonic::service::Routes::builder()
}

/// `RoutesBuilder::routes`: the routes of the services added, or the empty routes (only a
/// fallback) where none was. The rest of them is not modelled.
#[verifier::external_body]
fn routes_of(builder: tonic::service::RoutesBuilder) -> (r: tonic::service::Routes)
    ensures
        routes_have_services(r) == routes_builder_has_services(builder),
{
    builder.routes()
}

/// `<Routes as Clone>::clone`, which `derive` writes as the clone of its axum router, a
/// clone of the `Arc` of its routes: the same routes.
#[verifier::external_body]
fn routes_clone(r: &tonic::service::Routes) -> (c: tonic::service::Routes)
    ensures
        c == *r,
{
    r.clone()
}

/// A gRPC server: its configuration, its routes, the encoded file descriptor sets its
/// reflection service describes, and the slot of the sender that stops it.
pub struct Provider<'a> {
    done: ShutdownSlot,
    config: Config,
    routes: tonic::service::Routes,
    reflection_fds: Vec<&'a [u8]>,
}

impl<'a> Provider<'a> {
    pub closed spec fn spec_config(self) -> Config {
        self.config
    }

    pub closed spec fn spec_done(self) -> ShutdownSlot {
        self.done
    }

    pub closed spec fn spec_routes(self) -> tonic::service::Routes {
        self.routes
    }

    pub closed spec fn spec_reflection_fds(self) -> Seq<&'a [u8]> {
        self.reflection_fds@
    }

    /// A server with the default configuration, no route and no file descriptor set, holding
    /// no stop sender yet.
    pub fn new() -> (p: Provider<'a>)
        ensures
            p.spec_config().listen is None,
            p.spec_reflection_fds().len() == 0,
            !routes_have_services(p.spec_routes()),
    {
        Provider {
            done: empty_shutdown_slot(),
            config: Config::default(),
            routes: routes_of(routes_builder()),
            reflection_fds: Vec::with_capacity(DEFAULT_REFLECTION_FDS_CAPACITY),
        }
    }

    pub fn with_config(self, config: Config) -> (p: Provider<'a>)
        ensures
            p.spec_config() == config,
            p.spec_routes() == self.spec_routes(),
            p.spec_done() == self.spec_done(),
            p.spec_reflection_fds() == self.spec_reflection_fds(),
    {
        Provider { config, ..self }
    }

    pub fn with_routes(self, routes: tonic::service::Routes) -> (p: Provider<'a>)
        ensures
            p.spec_config() == self.spec_config(),
            p.spec_routes() == routes,
            p.spec_done() == self.spec_done(),
            p.spec_reflection_fds() == self.spec_reflection_fds(),
    {
        Provider { routes, ..self }
    }

    /// Adds an encoded file descriptor set after those already there.
    pub fn with_reflection_fds(self, fds: &'a [u8]) -> (p: Provider<'a>)
        ensures
            p.spec_config() == self.spec_config(),
            p.spec_routes() == self.spec_routes(),
            p.spec_done() == self.spec_done(),
            p.spec_reflection_fds() == self.spec_reflection_fds().push(fds),
    {
        let mut provider = self;
        provider.reflection_fds.push(fds);
        provider
    }

    /// The configured address, else `127.0.0.1:50051`.
    pub open spec fn spec_listen_address(self) -> SocketAddress {
        match self.spec_config().listen {
            Some(a) => a,
            None => SocketAddress::spec_loopback(DEFAULT_LISTEN_PORT),
        }
    }

    pub fn listen_address(&self) -> (a: SocketAddress)
        ensures
            a == self.spec_listen_address(),
    {
        listen_or(self.config.listen, SocketAddress::loopback(DEFAULT_LISTEN_PORT))
    }

    /// The slot of the sender that stops the server.
    pub fn done(&self) -> (d: &ShutdownSlot)
        ensures
            *d == self.spec_done(),
    {
        &self.done
    }

    /// A copy of the routes, to serve.
    pub fn routes(&self) -> (r: tonic::service::Routes)
        ensures
            r == self.spec_routes(),
    {
        routes_clone(&self.routes)
    }

    /// The file descriptor sets to reflect, in the order they were added.
    pub fn reflection_fds(&self) -> (f: &Vec<&'a [u8]>)
        ensures
            f@ == self.spec_reflection_fds(),
    {
        &self.reflection_fds
    }
}

} // verus!
