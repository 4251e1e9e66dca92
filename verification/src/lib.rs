//! Updating the image tag of a deployed application and asking its
//! continuous-delivery controller to synchronise it.
//!
//! The crate holds the decisions of that operation: how a fetched application
//! document is changed, which requests go to the controller, how its answers
//! are read, and in which order the steps run. Sending the requests is left
//! to the caller.

pub mod json;
pub mod error;
pub mod app;
pub mod api;
pub mod controller;
