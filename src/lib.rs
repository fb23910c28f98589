//! Polling engine for a home-automation gateway: challenge-response login,
//! settings registry with per-key merge, and the backend dispatcher.
pub mod auth;
pub mod backend;
pub mod device;
pub mod number;
pub mod poll;
pub mod settings;
pub mod xml;
