//! Layered classification of captured network frames.
//!
//! A raw Ethernet frame is classified into a network layer, a transport
//! layer and an application-layer guess; each layer projects itself to a
//! table of readable fields. A classified frame becomes a record that
//! keeps the frame's bytes, so that records can be filtered again later
//! from the records alone.
//!
//! The library opens no device and reads no frame. What the capture
//! device delivers is handed in as bytes, and what a capture session is to
//! do is handed back as plain values.

pub mod bytes;
pub mod codec;
pub mod custom_packet;
pub mod error;
pub mod ethernet;
pub mod icmpv6;
pub mod ipv4;
pub mod ipv6;
pub mod layers;
pub mod packet_info;
pub mod record;
pub mod replay;
pub mod session;
pub mod table;
pub mod tcp;
pub mod text;
pub mod timestamp;
pub mod udp;
