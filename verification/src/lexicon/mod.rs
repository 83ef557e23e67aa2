//! The record shapes of the protocol's lexicons.

pub mod app;
pub mod com;
