//! A small gateway between a chat front end and a local text-generation
//! daemon: it turns a chat request into a generation request, and the
//! daemon's line-oriented reply into one flattened answer.

pub mod aggregate;
pub mod bridge;
pub mod chars;
pub mod fragment;
pub mod gateway;
pub mod json;
pub mod lines;
