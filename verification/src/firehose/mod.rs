//! The record shapes that the network-wide change feed carries.

pub mod models;
