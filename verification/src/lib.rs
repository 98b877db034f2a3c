//! Core of a system-tray front-end for an external network client.
//!
//! The library holds the verified logic: turning a fetched snapshot of the
//! client's state into a deterministic hierarchical menu model, encoding and
//! decoding menu-item identifiers, resolving user actions against a fresh
//! snapshot, and the publish/refresh state machine. Process invocation, JSON
//! decoding and the platform tray surface live outside the library and hand
//! it plain values.

pub mod builder;
pub mod dispatch;
pub mod ids;
pub mod menu;
pub mod model;
pub mod refresh;
pub mod strings;
pub mod text;
