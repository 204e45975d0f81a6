pub mod bytes;
pub mod codec;
pub mod constants;
pub mod error;
pub mod fixed_str;
pub mod laws;
pub mod model;

pub use self::error::ProtocolError;
