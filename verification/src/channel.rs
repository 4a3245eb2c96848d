//! The two services that make up the channel to a connector.
use vstd::prelude::*;

verus! {

/// A service of the transport, and how many ports may use it at once.
#[derive(Debug)]
pub struct Service {
    pub name: String,
    pub max_publishers: usize,
    pub max_subscribers: usize,
}

/// The service on which the connector publishes and bots listen.
pub fn to_bot(connector: &str) -> (r: Service)
    ensures
        r.name@ == connector@ + "/ToBot"@,
        r.max_publishers == 1,
        r.max_subscribers == 1000,
{
    Service {
        name: connector.to_string().concat("/ToBot"),
        max_publishers: 1,
        max_subscribers: 1000,
    }
}

/// The service on which bots publish and the connector listens.
pub fn from_bot(connector: &str) -> (r: Service)
    ensures
        r.name@ == connector@ + "/FromBot"@,
        r.max_publishers == 1000,
        r.max_subscribers == 1,
{
    Service {
        name: connector.to_string().concat("/FromBot"),
        max_publishers: 1000,
        max_subscribers: 1,
    }
}

} // verus!
