pub mod actor;
pub mod embed;
pub mod feed;
pub mod graph;
pub mod notification;
pub mod tags;
