//! What the library promises of its operations, in terms of what goes in and what comes out.

pub mod calls;
pub mod commands;
pub mod models;
pub mod parts;
pub mod replies;
pub mod values;
