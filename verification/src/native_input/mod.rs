pub mod linux;
pub mod macos;
pub mod windows;
