//! Verified core of a client for the Kalshi prediction-market exchange:
//! request signing, response classification, the real-time message protocol
//! and order-book reconciliation.

pub mod assoc;
pub mod auth;
pub mod event;
pub mod exchange;
pub mod http;
pub mod json;
pub mod kalshi_error;
pub mod series;
pub mod text;
pub mod websockets;
