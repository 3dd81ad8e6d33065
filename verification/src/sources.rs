//! The sources to connect to: each monitor of each server is one.

use vstd::prelude::*;

verus! {

/// A server and the monitors whose events it carries.
#[derive(Clone, Debug, PartialEq, Eq)]
pub struct AmqpServerConfig {
    pub amqp_server_address: String,
    pub monitor_names: Vec<String>,
}

/// One source of events: a monitor, and the server to reach it by.
#[derive(Clone, Debug, PartialEq, Eq)]
pub struct SourceDescriptor {
    pub amqp_server_address: String,
    pub monitor_name: String,
}

/// A source as a mathematical value.
pub struct SpecSource {
    pub amqp_server_address: Seq<char>,
    pub monitor_name: Seq<char>,
}

impl View for SourceDescriptor {
    type V = SpecSource;

    open spec fn view(&self) -> SpecSource {
        SpecSource {
            amqp_server_address: self.amqp_server_address@,
            monitor_name: self.monitor_name@,
        }
    }
}

/// A kind of events of one monitor that can be subscribed to.
#[derive(Clone, Debug, PartialEq, Eq)]
pub enum RoutingKeyInformation {
    BitswapMessages { monitor_name: String },
    ConnectionEvents { monitor_name: String },
}

/// The sources of one server, in the order of its monitors.
pub open spec fn sources_of_server(server: AmqpServerConfig) -> Seq<SpecSource> {
    Seq::new(
        server.monitor_names@.len(),
        |i: int|
            SpecSource {
                amqp_server_address: server.amqp_server_address@,
                monitor_name: server.monitor_names@[i]@,
            },
    )
}

/// The sources of all servers: those of the first server, then those of
/// the second, and so on. A monitor that two servers name is two sources.
pub open spec fn sources_of(servers: Seq<AmqpServerConfig>) -> Seq<SpecSource>
    decreases servers.len(),
{
    if servers.len() == 0 {
        Seq::empty()
    } else {
        sources_of(servers.drop_last()) + sources_of_server(servers.last())
    }
}

/// The views of a list of sources.
pub open spec fn views_of(sources: Seq<SourceDescriptor>) -> Seq<SpecSource> {
    Seq::new(sources.len(), |i: int| sources[i]@)
}

/// Lists the sources that a configuration names, one for each monitor of
/// each server.
pub fn source_descriptors(servers: &Vec<AmqpServerConfig>) -> (sources: Vec<SourceDescriptor>)
    ensures
        views_of(sources@) == sources_of(servers@),
{
    let mut sources: Vec<SourceDescriptor> = Vec::new();
    let mut s: usize = 0;
    proof {
        assert(servers@.take(0) =~= Seq::<AmqpServerConfig>::empty());
        assert(views_of(sources@) =~= sources_of(servers@.take(0)));
    }
    while s < servers.len()
        invariant
            s <= servers.len(),
            views_of(sources@) == sources_of(servers@.take(s as int)),
        decreases servers.len() - s,
    {
        let server = &servers[s];
        let ghost done = sources@;
        let mut m: usize = 0;
        while m < server.monitor_names.len()
            invariant
                m <= server.monitor_names.len(),
                views_of(sources@) == views_of(done) + sources_of_server(*server).take(m as int),
            decreases server.monitor_names.len() - m,
        {
            let source = SourceDescriptor {
                amqp_server_address: server.amqp_server_address.clone(),
                monitor_name: server.monitor_names[m].clone(),
            };
            proof {
                let of_server = sources_of_server(*server);
                assert(source@ == of_server[m as int]);
                assert(of_server.take(m + 1) =~= of_server.take(m as int).push(source@));
                assert(views_of(sources@.push(source)) =~= views_of(sources@).push(source@));
            }
            sources.push(source);
            m += 1;
        }
        proof {
            let next = servers@.take(s + 1);
            assert(next.drop_last() =~= servers@.take(s as int));
            assert(next.last() == *server);
            assert(sources_of_server(*server).take(m as int) =~= sources_of_server(*server));
        }
        s += 1;
    }
    proof {
        assert(servers@.take(s as int) =~= servers@);
    }
    sources
}

/// The two kinds of events that are subscribed to for a monitor: its
/// Bitswap messages and its connection events.
pub fn routing_keys(monitor_name: &str) -> (keys: Vec<RoutingKeyInformation>)
    ensures
        keys@.len() == 2,
        keys@[0] matches RoutingKeyInformation::BitswapMessages { monitor_name: name }
            && name@ == monitor_name@,
        keys@[1] matches RoutingKeyInformation::ConnectionEvents { monitor_name: name }
            && name@ == monitor_name@,
{
    let mut keys: Vec<RoutingKeyInformation> = Vec::new();
    keys.push(RoutingKeyInformation::BitswapMessages { monitor_name: monitor_name.to_owned() });
    keys.push(RoutingKeyInformation::ConnectionEvents { monitor_name: monitor_name.to_owned() });
    keys
}

} // verus!
