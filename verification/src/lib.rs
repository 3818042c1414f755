//! A rate limiter that keeps one counter per limited entity, in memory, in Redis or in both.
//!
//! The library decides; it performs no I/O of its own. An operation that needs Redis hands
//! its caller a command, and goes on with the reply.

pub mod builder;
pub mod commands;
pub mod entity;
pub mod errors;
pub mod laws;
pub mod limiter;
pub mod memory;
pub mod memory_check;
pub mod middleware;
pub mod model;
pub mod storage;
pub mod text;
pub mod time;
