//! Launches a browser through a local man-in-the-middle proxy that serves a
//! production path prefix from a local development server.
pub mod text;
pub mod http;
pub mod error;
pub mod proxy_handler;
pub mod config;
pub mod cli;
pub mod pac;
pub mod ca;
pub mod platform;
pub mod trust;
pub mod browser;
