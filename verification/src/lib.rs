//! Core logic of an authenticated HTTP reverse-tunnel gateway.
//!
//! Developers connect over SSH and ask for remote port forwarding; every
//! forward becomes a tunnel that is published under a subdomain of a
//! configured apex. This crate holds the rules of that gateway as verified
//! code on plain values: the tunnel registry, the session control plane, the
//! access decisions of the HTTP path and the layout of the terminal table.
//! Sockets, channels and terminals are driven by the program around it.
pub mod auth;
pub mod input;
pub mod names;
pub mod registry;
pub mod renderer;
pub mod session;
pub mod stats;
pub mod text;
pub mod tunnel;
pub mod units;
pub mod web;
