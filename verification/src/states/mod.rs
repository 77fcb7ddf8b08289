//! The records that the program keeps.

pub mod config;
pub mod subscription;
