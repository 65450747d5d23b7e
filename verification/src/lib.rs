//! Verified core of a phone-call monitor that watches an Android device over
//! ADB: parsing of telephony diagnostics and device listings, the call state
//! machine, and the decisions of the monitoring loop.
pub mod adb;
pub mod app;
pub mod call;
pub mod config;
pub mod error;
pub mod notifications;
pub mod text;
pub mod ui;
