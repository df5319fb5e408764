//! A navigation-and-transport core for an embedded content player:
//! URL resolution with an optional HTTP-to-HTTPS upgrade, fetch dispatch
//! with a uniform success/error contract, a FIFO task queue for deferred
//! work, and a non-blocking socket transport with zero-byte framing.

pub mod fetch;
pub mod navigator;
pub mod scan;
pub mod scheduler;
pub mod socket;
pub mod urls;
