//! Vibration-driven laundry monitor: the decisions of the firmware, verified.
pub mod appliance;
pub mod notify;
pub mod time;
pub mod utils;
pub mod wifi_adapter;
