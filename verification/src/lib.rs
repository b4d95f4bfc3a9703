//! Connecting to a Redis store with a bounded number of attempts and a fixed
//! pause between them.

pub mod client;
pub mod connector;
pub mod error;
pub mod policy;
pub mod run;
pub mod settings;
