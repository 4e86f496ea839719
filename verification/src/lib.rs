//! Socket tuning rules for the tunnel configuration client.
//!
//! The client reaches its server before the tunnel's path MTU is known, so it
//! caps the TCP segment size of that one connection at what the smallest IPv4
//! MTU can carry. This crate holds the arithmetic and the decisions of that
//! tuning step; opening and connecting the socket is left to the caller.

pub mod decimal;
pub mod lifecycle;
pub mod meta;
pub mod segment;
pub mod tuning;
