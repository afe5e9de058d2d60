//! Address management for a captive-portal access point: a DHCP lease table
//! with its Discover/Request state machine, and a DNS responder that turns any
//! standard query into an answer pointing at one fixed address.

pub mod clock;
pub mod dhcp_codec;
pub mod dhcp_server;
pub mod dns_packet;
pub mod lease_laws;
pub mod wire;
