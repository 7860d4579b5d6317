use vstd::prelude::*;

use crate::listen::SocketAddress;

verus! {

/// The configuration of a server: the address to listen on, if not the default one.
#[derive(Clone, Copy, Debug)]
pub struct Config {
    pub listen: Option<SocketAddress>,
}

impl Default for Config {
    fn default() -> (c: Config)
        ensures
            c.listen is None,
    {
        Config { listen: None }
    }
}

} // verus!
