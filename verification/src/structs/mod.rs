//! The library's records of what the server reports.

pub mod clan;
pub mod entity;
pub mod server_info;
pub mod team;
