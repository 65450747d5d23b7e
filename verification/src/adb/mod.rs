pub mod client;
pub mod device;
pub mod manager;
pub mod telephony;

pub use client::AdbClient;
pub use device::{DeviceInfo, DeviceStatus};
pub use telephony::AdbCallStateProvider;
