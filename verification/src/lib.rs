//! Canonical, strongly typed definitions for network protocol numeric codes
//! and a small in-memory structure correlating IPv4 addresses with link-layer
//! (MAC) addresses.
pub mod addresses;
pub mod assoc;
pub mod ethernet;
pub mod hex;
pub mod hexdump;
pub mod icmp;
pub mod ipv4;
pub mod layer3;
pub mod layer4;
pub mod seqtools;
pub mod tcp;
