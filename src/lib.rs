//! Decision logic of a USB bulk echo link: the device-side echo task, the
//! host-side connection manager and the host-side transfer pump, each as a
//! verified state machine that an I/O driver steps with events.
pub mod config;
pub mod device;
pub mod host;
pub mod payload;
pub mod pump;
