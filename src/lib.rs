pub mod greeting;
pub mod tray;
pub mod window;
