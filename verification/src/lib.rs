//! Client-side logic for a container engine's HTTP API, spoken over a Unix
//! domain socket: request planning, response capture, status interpretation
//! and the JSON shapes of container and image records.
//!
//! The crate performs no I/O itself. A [`docker::Client`] carries out one
//! exchange with the daemon; everything around that exchange is computed, and
//! verified, here:
//!
//! - [`docker::transport`] says what an exchange sends and turns the header
//!   lines and body bytes that come back into a [`docker::Response`];
//! - [`docker`] holds a response against the status code an operation
//!   expects and names the errors;
//! - [`json`] and [`codec`] read records out of JSON text and write them;
//! - [`containers`] and [`images`] are the records and their operations.

pub mod codec;
pub mod containers;
pub mod docker;
pub mod images;
pub mod json;

pub use containers::Container;
pub use images::Image;
