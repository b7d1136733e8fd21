//! Verified core of a battery-powered environmental-sensor beacon platform.
//!
//! A sensor node periodically samples temperature, humidity and ambient
//! light, packs the readings into a compact tag/value payload and broadcasts
//! it as a burst of non-connectable radio advertisement frames.  A gateway
//! captures the frames, decodes the payload, filters to an allowlist of
//! device addresses, removes duplicate retransmissions and hands validated
//! measurements to a telemetry sink.
//!
//! This crate holds the verified logic of both sides: the wire-format codec,
//! the measurement scheduler and the beacon burst controller of the node,
//! and the frame decoder and deduplication cache of the gateway.  Hardware
//! access, radio capture and network I/O live outside the library.

pub mod burst;
pub mod codec;
pub mod config;
pub mod dedup;
pub mod gateway;
pub mod measurement;
pub mod scheduler;
pub mod types;
