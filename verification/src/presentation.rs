//! The shapes in which requests reach the service and answers leave it.

pub mod dto;
pub mod handlers;
