//! Connection planning for checks against Microsoft SQL Server, and the
//! status line that reports what the checks found.
//!
//! The library decides; it performs no network operation. A caller drives an
//! [`attempt::Attempt`] by carrying out the action it asks for and reporting
//! back what happened.

pub mod checker;
pub mod output;
pub mod platform;
pub mod types;
pub mod text;
pub mod error;
pub mod driver;
pub mod config;
pub mod client;
pub mod attempt;
