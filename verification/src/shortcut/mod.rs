pub mod domain;
pub mod editing;
pub mod keys;
pub mod laws;
pub mod preset;
pub mod profile;
pub mod radial_menu;
pub mod engine;
pub mod engine_laws;
