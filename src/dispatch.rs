use vstd::prelude::*;
use crate::address::{IpAddress, SocketAddress};
use crate::deadline::Moment;
use crate::payload::UdpPayloadArgument;
use crate::session::{Probe, Session, Stage};
use crate::udp::{dns_query, DNS_PORT};

verus! {

/// The kind of probe asked for.
#[derive(Clone, Copy, Debug, PartialEq, Eq, Structural)]
pub enum Kind {
    Dns,
    Icmp,
    Tcp,
    Udp,
}

/// Why a request for a probe is refused before any I/O.
#[derive(Clone, Copy, Debug, PartialEq, Eq, Structural)]
pub enum Rejection {
    /// An ICMP probe was given a port.
    IcmpPort,
    /// An ICMP probe was given a payload.
    IcmpPayload,
    /// A TCP probe was given no port.
    TcpNeedsPort,
    /// A TCP probe was given a payload.
    TcpPayload,
    /// A UDP probe was given no port.
    UdpNeedsPort,
}

/// The rejection, if any, of a request of `kind` with or without a port and a payload.
/// A DNS probe takes any port (53 by default) and ignores a payload.
pub open spec fn rejection(kind: Kind, has_port: bool, has_payload: bool) -> Option<Rejection> {
    match kind {
        Kind::Icmp => if has_port {
            Some(Rejection::IcmpPort)
        } else if has_payload {
            Some(Rejection::IcmpPayload)
        } else {
            None
        },
        Kind::Tcp => if !has_port {
            Some(Rejection::TcpNeedsPort)
        } else if has_payload {
            Some(Rejection::TcpPayload)
        } else {
            None
        },
        Kind::Udp => if !has_port {
            Some(Rejection::UdpNeedsPort)
        } else {
            None
        },
        Kind::Dns => None,
    }
}

/// Whether `probe` is what a valid request of `kind` for `target` asks for.
pub open spec fn probe_for(
    probe: Probe,
    kind: Kind,
    target: IpAddress,
    port: Option<u16>,
    payload: Option<UdpPayloadArgument>,
) -> bool {
    match kind {
        Kind::Icmp => probe == (Probe::Icmp { address: target }),
        Kind::Tcp => probe == (Probe::Tcp { address: SocketAddress { ip: target, port: port.unwrap() } }),
        Kind::Udp => probe matches Probe::Udp { address, payload: p } && address == (SocketAddress {
            ip: target,
            port: port.unwrap(),
        }) && p@ == (if payload is Some {
            payload.unwrap().0@
        } else {
            seq![0u8]
        }),
        Kind::Dns => probe matches Probe::Udp { address, payload: p } && address == (SocketAddress {
            ip: target,
            port: if port is Some {
                port.unwrap()
            } else {
                DNS_PORT
            },
        }) && p@ == dns_query(),
    }
}

/// Checks a request for a probe and builds its session: refused exactly as
/// `rejection` says, else the session of the probe asked for, not yet started.
/// A UDP probe without a payload sends one zero byte.
pub fn prepare(
    kind: Kind,
    target: IpAddress,
    port: Option<u16>,
    payload: Option<UdpPayloadArgument>,
    deadline: Option<Moment>,
) -> (r: Result<Session, Rejection>)
    requires
        payload matches Some(p) ==> p.0@.len() > 0,
    ensures
        r is Err <==> rejection(kind, port is Some, payload is Some) is Some,
        r matches Err(e) ==> rejection(kind, port is Some, payload is Some) == Some(e),
        r matches Ok(s) ==> s.stage == Stage::Idle && s.deadline == deadline && probe_for(
            s.probe,
            kind,
            target,
            port,
            payload,
        ),
{
    match kind {
        Kind::Icmp => {
            if port.is_some() {
                Err(Rejection::IcmpPort)
            } else if payload.is_some() {
                Err(Rejection::IcmpPayload)
            } else {
                Ok(crate::icmp::echo(target, deadline))
            }
        },
        Kind::Tcp => match port {
            None => Err(Rejection::TcpNeedsPort),
            Some(port) => {
                if payload.is_some() {
                    Err(Rejection::TcpPayload)
                } else {
                    Ok(crate::tcp::connect(SocketAddress { ip: target, port }, deadline))
                }
            },
        },
        Kind::Udp => match port {
            None => Err(Rejection::UdpNeedsPort),
            Some(port) => {
                let address = SocketAddress { ip: target, port };
                match payload {
                    Some(p) => Ok(crate::udp::echo(address, p.0.as_slice(), deadline)),
                    None => {
                        let one_zero: Vec<u8> = vec![0u8];
                        assert(one_zero@ =~= seq![0u8]);
                        Ok(crate::udp::echo(address, one_zero.as_slice(), deadline))
                    },
                }
            },
        },
        Kind::Dns => {
            let port = match port {
                Some(p) => p,
                None => DNS_PORT,
            };
            Ok(crate::udp::dns(SocketAddress { ip: target, port }, deadline))
        },
    }
}

} // verus!
