use vstd::prelude::*;

use crate::grpc_client::config::Config;

verus! {

/// Provides channels to the configured destination. Connecting awaits, and is left to the
/// runtime; the provider keeps the configuration it connects with.
pub struct Provider {
    pub config: Config,
}

impl Provider {
    pub fn new(config: &Config) -> (p: Provider)
        ensures
            p.config.same_as(*config),
    {
        Provider { config: config.copy() }
    }
}

/// Turns configurations into channel providers.
pub trait ChannelProviderFromConfig {
    type ChannelProvider;

    fn channel_provider_from_config(self) -> Self::ChannelProvider;
}

impl ChannelProviderFromConfig for Config {
    type ChannelProvider = Provider;

    fn channel_provider_from_config(self) -> (p: Provider)
        ensures
            p.config.same_as(self),
    {
        Provider::new(&self)
    }
}

impl ChannelProviderFromConfig for Vec<(String, Config)> {
    type ChannelProvider = Vec<(String, Provider)>;

    fn channel_provider_from_config(self) -> (providers: Vec<(String, Provider)>)
        ensures
            providers@.len() == self@.len(),
            forall|i: int| 0 <= i < self@.len() ==> (#[trigger] providers@[i]).0 == self@[i].0
                && providers@[i].1.config.same_as(self@[i].1),
    {
        let mut providers: Vec<(String, Provider)> = Vec::with_capacity(self.len());
        let mut configs = self;
        let ghost given = configs@;
        let n = configs.len();
        let mut i: usize = 0;
        while i < n
            invariant
                n == given.len(),
                i <= n,
                given == self@,
                configs@ == given.subrange(i as int, n as int),
                providers@.len() == i,
                forall|j: int| 0 <= j < i ==> (#[trigger] providers@[j]).0 == given[j].0
                    && providers@[j].1.config.same_as(given[j].1),
            decreases n - i,
        {
            let (name, config) = configs.remove(0);
            let provider = config.channel_provider_from_config();
            providers.push((name, provider));
            i = i + 1;
        }
        providers
    }
}

} // verus!
