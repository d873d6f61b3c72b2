//! The verified logic of a menu-bar monitor for YourGPT credit and quota usage.
use vstd::prelude::*;

pub mod text;
pub mod json;
pub mod models;
pub mod api;
pub mod alerts;
pub mod notifications;
pub mod keychain;
pub mod state;
pub mod tray;
pub mod poller;
