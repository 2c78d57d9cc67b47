//! A shared clipboard for a local network: a bounded store of snippets,
//! the cleanup of uploaded files tied to it, and the signal that tells
//! subscribers of a change.

pub mod addresses;
pub mod binding;
pub mod clipboard;
pub mod notifier;
pub mod qr;
pub mod snippet;
pub mod store;
pub mod text;
pub mod uploads;
