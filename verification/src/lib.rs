//! Verified core of the AirSlate desktop server: the binary wire protocol
//! spoken with the tablet, session bookkeeping, shortcut bindings and the
//! decisions of the stylus input pipeline.

pub mod desktop;
pub mod error;
pub mod handshake;
pub mod ingest;
pub mod input_pipeline;
pub mod native_input;
pub mod protocol;
pub mod session;
pub mod shortcut;
pub mod text;
pub mod workspace;
