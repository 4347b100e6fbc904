//! Round-trip reachability probes (ICMP echo, TCP connect, UDP echo, DNS query)
//! expressed as verified session machines, plus the deadline arithmetic they share.
pub mod address;
pub mod deadline;
pub mod dispatch;
pub mod error;
pub mod icmp;
pub mod laws;
pub mod outcome;
pub mod payload;
pub mod session;
pub mod tcp;
pub mod udp;

pub use address::{Family, IpAddress, SocketAddress};
pub use deadline::{deadline_to_timeout, Moment, Span};
pub use dispatch::{prepare, Kind, Rejection};
pub use error::is_timeout;
pub use outcome::{Failure, Outcome};
pub use payload::UdpPayloadArgument;
pub use session::{Action, Event, Probe, Session, Stage};
