//! Core of a BLE heart-rate monitor shell: filtering and extraction of
//! heart-rate samples from advertisement events, and a single-slot store
//! holding the latest reading as text.

pub mod event;
pub mod extract;
pub mod greeting;
pub mod store;
pub mod text;
