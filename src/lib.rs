//! Core of a chat bot that turns a time request into a timestamp badge:
//! option extraction, timezone resolution, format selection, badge
//! rendering, and the per-interaction dispatch state machine.

pub mod error;
pub mod format;
pub mod text;
pub mod options;
pub mod timezone;
pub mod compile;
pub mod dispatch;
