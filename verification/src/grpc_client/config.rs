use vstd::prelude::*;

use crate::http_client::url_path::Location;
use crate::text::{clone_pairs, same_pairs};

verus! {

/// Where a channel connects, and the metadata its requests carry, named texts in the order
/// the configuration gave them.
#[derive(Clone, Debug)]
pub struct Config {
    pub destination: Location,
    pub metadata: Option<Vec<(String, String)>>,
}

impl Config {
    /// The two configurations connect to the same destination with the same metadata.
    pub open spec fn same_as(self, other: Config) -> bool {
        &&& self.destination@ == other.destination@
        &&& self.metadata is Some <==> other.metadata is Some
        &&& self.metadata is Some ==> same_pairs(self.metadata->Some_0@, other.metadata->Some_0@)
    }

    /// A copy of the configuration.
    pub fn copy(&self) -> (c: Config)
        ensures
            c.same_as(*self),
    {
        let metadata = match &self.metadata {
            Some(pairs) => Some(clone_pairs(pairs)),
            None => None,
        };
        Config { destination: self.destination.clone(), metadata }
    }
}

} // verus!
