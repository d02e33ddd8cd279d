//! A holder of one text value, the address of a server, with the two
//! operations that read it and replace it.
//!
//! The store is an owned value: whoever dispatches calls keeps one instance
//! and hands it to [`AddressStore::fetch_server_ip`] and
//! [`AddressStore::submit_ip`]. A caller that shares it between threads puts
//! it behind a lock of its own; exclusive access for the length of one call is
//! what `&self` and `&mut self` already ask for.

pub mod model;
pub mod notice;
pub mod store;

pub use notice::submission_notice;
pub use store::AddressStore;
