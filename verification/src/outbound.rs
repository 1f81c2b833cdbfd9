//! The outbound task: it sends the reports of the pico to the host that subscribed last.
use vstd::prelude::*;
use crate::messages::{Content, Diagnostics, Info};

verus! {

/// An IPv4 endpoint: address and port.
#[derive(Debug, PartialEq, Eq, Clone, Copy)]
pub struct Endpoint {
    pub address: [u8; 4],
    pub port: u16,
}

/// What the outbound task receives.
#[derive(Debug)]
pub enum Message {
    /// A report to send.
    Info { info: Info },
    /// A host that subscribes to the reports.
    Endpoint { endpoint: Endpoint },
}

/// A report of the given content and timing.
pub fn send(content: Content, diagnostics: Diagnostics) -> (info: Info)
    ensures
        info == (Info { content, diagnostics }),
{
    Info { content, diagnostics }
}

/// The state of the outbound task: the host that subscribed last, if any.
pub struct Outbound {
    pub remote_endpoint: Option<Endpoint>,
}

impl Outbound {
    /// No host has subscribed yet.
    pub fn new() -> (outbound: Outbound)
        ensures
            outbound.remote_endpoint is None,
    {
        Outbound { remote_endpoint: None }
    }

    /// Handles a message: a report goes to the subscribed host, if there is one, and is
    /// dropped otherwise; a subscription replaces the previous one.
    pub fn handle(&mut self, message: Message) -> (packet: Option<(Info, Endpoint)>)
        ensures
            match message {
                Message::Info { info } => {
                    &&& final(self).remote_endpoint == old(self).remote_endpoint
                    &&& packet == match old(self).remote_endpoint {
                        Some(endpoint) => Some((info, endpoint)),
                        None => None,
                    }
                },
                Message::Endpoint { endpoint } => {
                    &&& final(self).remote_endpoint == Some(endpoint)
                    &&& packet is None
                },
            },
    {
        match message {
            Message::Info { info } => match self.remote_endpoint {
                Some(endpoint) => Some((info, endpoint)),
                None => None,
            },
            Message::Endpoint { endpoint } => {
                self.remote_endpoint = Some(endpoint);
                None
            },
        }
    }
}

} // verus!
