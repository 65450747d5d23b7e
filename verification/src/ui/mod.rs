pub mod tray;
pub mod window;
