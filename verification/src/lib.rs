//! Verified core of the task-board tools: argument handling, request
//! planning, rate-limit gating and response interpretation.

pub mod config;
pub mod http;
pub mod json;
pub mod result;
pub mod security;
pub mod text;
pub mod tools;
