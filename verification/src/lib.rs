//! Turns GitLab webhook payloads into one-line chat notifications and fans
//! them out to the channels of a live IRC session.
//!
//! The event taxonomy is closed: a payload is routed by its `object_kind`
//! discriminant to one of a fixed set of typed records, each rendered as a
//! single bounded line of text.

pub mod dispatch;
pub mod event;
pub mod irc;
pub mod json;
pub mod render;
pub mod session;
pub mod text;
pub mod web;
