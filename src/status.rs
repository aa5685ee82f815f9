//! The values handed back to the caller of each operation.
use vstd::prelude::*;

verus! {

/// Whether a serial session is open, and on which port.
pub struct ConnectionStatus {
    pub connected: bool,
    pub port_name: Option<String>,
}

/// Whether a bridge session is open, and to which `host:port`.
pub struct PiBridgeConnectionStatus {
    pub connected: bool,
    pub target: Option<String>,
}

/// A completed SSH dispatch.
pub struct MecanumDispatchStatus {
    pub target: String,
    pub command: String,
    pub duration_ms: u32,
    pub serial_path: String,
}

/// A completed bridge dispatch.
pub struct PiBridgeDispatchStatus {
    pub target: String,
    pub command: String,
    pub duration_ms: u32,
}

/// A serial port offered by the system, with a label for its kind.
pub struct SerialPortEntry {
    pub port_name: String,
    pub port_type: String,
}

} // verus!
