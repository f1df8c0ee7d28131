//! Core of a terminal client for an online coding judge: screen navigation,
//! the problem browser, the run/submit job protocol and the extraction of a
//! submittable snippet from a local solution file.

pub mod text;
pub mod extract;
pub mod types;
pub mod keys;
pub mod browser;
pub mod detail;
pub mod setup;
pub mod config;
pub mod judge;
pub mod lists;
pub mod session;
pub mod scaffold;
