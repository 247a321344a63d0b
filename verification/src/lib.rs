pub mod bridge;
pub mod sysex;
pub mod text;
pub mod tray;
