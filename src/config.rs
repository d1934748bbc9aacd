//! Fixed identifiers, endpoint addresses, sizes and timing of the link.
use vstd::prelude::*;

verus! {

/// Vendor identifier that the host looks for and the device announces.
pub const VENDOR_ID: u16 = 0xC0DE;

/// Product identifier that the host looks for and the device announces.
pub const PRODUCT_ID: u16 = 0xCAFE;

/// Manufacturer string of the device.
pub const MANUFACTURER: &'static str = "PMRust";

/// Product string of the device.
pub const PRODUCT: &'static str = "USB Bulk Example";

/// Serial number string of the device.
pub const SERIAL_NUMBER: &'static str = "0xcafe_c0de";

/// Current that the bus-powered device draws, in milliamperes.
pub const MAX_POWER_MA: u16 = 100;

/// Largest packet on the control endpoint.
pub const CONTROL_MAX_PACKET_SIZE: u8 = 64;

/// Class, subclass and protocol of the vendor-specific interface.
pub const INTERFACE_CLASS: u8 = 0xFF;
pub const INTERFACE_SUBCLASS: u8 = 0;
pub const INTERFACE_PROTOCOL: u8 = 0;

/// Interface GUID that lets a generic bulk driver bind without an INF file.
pub const DEVICE_INTERFACE_GUID: &'static str = "{AFB9A6FB-30BA-44BC-9232-806CFC875321}";

/// Interface that the host claims on the device.
pub const INTERFACE_NUMBER: u8 = 0;

/// Address of the bulk OUT endpoint (host to device).
pub const ENDPOINT_OUT: u8 = 0x01;

/// Address of the bulk IN endpoint (device to host).
pub const ENDPOINT_IN: u8 = 0x81;

/// Largest packet on either bulk endpoint of the device.
pub const MAX_PACKET_SIZE: usize = 64;

/// Capacity of the inbound buffer that the host keeps submitted.
pub const IN_BUFFER_SIZE: usize = 4096;

/// Pause of the device between receiving a packet and echoing it.
pub const ECHO_DELAY_SECS: u64 = 1;

/// Bound on each wait of the host for a transfer to complete.
pub const TRANSFER_TIMEOUT_MS: u64 = 1000;

/// Pause of the host between two scans that found no device.
pub const DISCOVERY_INTERVAL_MS: u64 = 1000;

/// Number of request/response cycles in one host session.
pub const SESSION_CYCLES: u64 = 100000;

} // verus!
