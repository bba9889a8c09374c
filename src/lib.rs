//! Coordination core of an interactive data shell: the command model, the
//! engine requests that commands turn into, the rendering of replies, and the
//! dispatch actor that runs one command at a time against a shared engine.

pub mod actor;
pub mod command;
pub mod conn;
pub mod engine;
pub mod query;
pub mod request;
pub mod submit;
