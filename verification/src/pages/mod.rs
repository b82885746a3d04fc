//! What each page shows and how it reacts, as plain values.

pub mod app;
pub mod landing;
pub mod wallet_connect;
