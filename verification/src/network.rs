//! The network settings of the pico, and the DHCP server that it offers the host.
use vstd::prelude::*;
use crate::outbound::Endpoint;

verus! {

/// The pico's address, the port it listens on, and where its reports go.
#[derive(Debug, PartialEq, Eq, Clone, Copy)]
pub struct NetworkSettings {
    pub address: [u8; 4],
    pub port: u16,
    pub destination: Endpoint,
}

impl NetworkSettings {
    /// The pico at 192.168.7.1, listening on port 1234, reporting to 192.168.64.47:12345.
    pub fn new() -> (settings: NetworkSettings)
        ensures
            settings.address@ == seq![192u8, 168, 7, 1],
            settings.port == 1234,
            settings.destination.address@ == seq![192u8, 168, 64, 47],
            settings.destination.port == 12345,
    {
        NetworkSettings {
            address: [192, 168, 7, 1],
            port: 1234,
            destination: Endpoint { address: [192, 168, 64, 47], port: 12345 },
        }
    }
}

/// The gateway that the pico's static configuration names: the next address after its own.
pub fn gateway(address: [u8; 4]) -> (gateway: [u8; 4])
    requires
        address@[3] < 255,
    ensures
        gateway@ == address@.update(3, (address@[3] + 1) as u8),
{
    let gateway = [address[0], address[1], address[2], address[3] + 1];
    assert(gateway@ =~= address@.update(3, (address@[3] + 1) as u8));
    gateway
}

/// A static IPv4 configuration: address, netmask and gateway.
#[derive(Debug, PartialEq, Eq, Clone, Copy)]
pub struct StaticConfig {
    pub address: [u8; 4],
    pub netmask: [u8; 4],
    pub gateway: Option<[u8; 4]>,
}

/// What the DHCP server offers.
#[derive(Debug, PartialEq, Eq)]
pub struct DhcpPlan {
    pub server_ip: [u8; 4],
    pub subnet_mask: [u8; 4],
    pub router: [u8; 4],
    pub dns_servers: Vec<[u8; 4]>,
    pub pool_start: [u8; 4],
    pub pool_end: [u8; 4],
    pub lease_time_s: u32,
}

/// How long a lease lasts, in seconds: two hours.
pub const LEASE_TIME_S: u32 = 7200;

/// The DHCP offer of a pico with the given configuration, or with 0.0.0.0/24 and gateway
/// 0.0.0.0 when it has none: the pico serves, routes through its gateway, names three public
/// DNS servers, and leases the addresses .100 to .200 of its own /24 network for two hours.
pub fn add_dhcp_server(config: Option<StaticConfig>) -> (plan: DhcpPlan)
    ensures
        ({
            let config = match config {
                Some(config) => config,
                None => StaticConfig {
                    address: [0, 0, 0, 0],
                    netmask: [255, 255, 255, 0],
                    gateway: Some([0, 0, 0, 0]),
                },
            };
            let a = config.address@;
            &&& plan.server_ip == config.address
            &&& plan.subnet_mask == config.netmask
            &&& plan.router == match config.gateway {
                Some(router) => router,
                None => [0u8, 0, 0, 0],
            }
            &&& plan.dns_servers@ == seq![[1u8, 1, 1, 1], [1u8, 0, 0, 1], [8u8, 8, 8, 8]]
            &&& plan.pool_start@ == seq![a[0], a[1], a[2], 100u8]
            &&& plan.pool_end@ == seq![a[0], a[1], a[2], 200u8]
            &&& plan.lease_time_s == LEASE_TIME_S
        }),
{
    let default_ip: [u8; 4] = [0, 0, 0, 0];
    let config = match config {
        Some(config) => config,
        None => StaticConfig {
            address: default_ip,
            netmask: [255, 255, 255, 0],
            gateway: Some(default_ip),
        },
    };
    let router = match config.gateway {
        Some(router) => router,
        None => default_ip,
    };
    let a = config.address[0];
    let b = config.address[1];
    let c = config.address[2];
    let mut dns_servers: Vec<[u8; 4]> = Vec::new();
    dns_servers.push([1, 1, 1, 1]);
    dns_servers.push([1, 0, 0, 1]);
    dns_servers.push([8, 8, 8, 8]);
    let pool_start = [a, b, c, 100];
    let pool_end = [a, b, c, 200];
    assert(pool_start@ =~= seq![a, b, c, 100u8]);
    assert(pool_end@ =~= seq![a, b, c, 200u8]);
    DhcpPlan {
        server_ip: config.address,
        subnet_mask: config.netmask,
        router,
        dns_servers,
        pool_start,
        pool_end,
        lease_time_s: LEASE_TIME_S,
    }
}

} // verus!
