//! The gateway's parsed configuration.
//!
//! Reading and deserializing the configuration file is an outside
//! collaborator's job; these types are its parsed form.

use vstd::prelude::*;

verus! {

/// The gateway configuration: the devices to listen for and the telemetry
/// sink to submit to.
#[derive(Debug)]
pub struct Config {
    pub devices: Vec<Device>,
    pub influxdb: InfluxDb,
}

/// One known device: a twelve-digit hexadecimal address, a display name and
/// an optional location label.
#[derive(Debug)]
pub struct Device {
    pub name: String,
    pub hex_addr: String,
    pub location: Option<String>,
}

/// How to reach the telemetry sink.
#[derive(Debug, Clone)]
pub struct InfluxDb {
    pub connection_string: String,
    pub user: String,
    pub pass: String,
    pub db: String,
}

} // verus!
