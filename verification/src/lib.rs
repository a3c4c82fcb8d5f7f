//! A verified view-model for a small single-page storefront.
//!
//! The library owns the page's state: the product catalog fetched from a
//! remote service, an in-memory shopping cart, and the load phase that
//! decides which of three views is shown. All state changes go through a
//! message-driven reducer, and the rendered page is re-derived from the
//! state on every change. The network call itself and the binding to a
//! rendering framework live outside the library; they hand in plain
//! messages and take the rendered page description back.

pub mod cart;
pub mod home;
pub mod laws;
pub mod types;
