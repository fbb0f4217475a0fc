//! A hook-slot runtime: components keep typed, positionally addressed state
//! across scheduling ticks without managing storage themselves.
pub mod ref_store;
pub mod component;
pub mod hook;
pub mod state;
pub mod container;
pub mod app;
pub mod laws;
