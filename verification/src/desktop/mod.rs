pub mod dto;
pub mod commands;
pub mod local_ip;
