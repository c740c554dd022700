//! Objective-C messaging for a guest program that runs under emulation.
pub mod abi;
pub mod args;
pub mod dispatch;
pub mod env;
pub mod initialize;
pub mod laws;
pub mod mem;
pub mod messages;
pub mod ns_url_request;
pub mod objc;
pub mod signature;
pub mod text;
