pub mod windows;

pub use windows::NotificationManager;
