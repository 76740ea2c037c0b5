//! Request-handling logic of a Telegram-backed cloud drive: the decisions its
//! HTTP handlers take, stated over plain values and proved with Verus.

pub mod text;
pub mod utils;
pub mod models;
pub mod auth;
pub mod listing;
pub mod fs;
pub mod preview;
pub mod transfer;
pub mod viewer;
