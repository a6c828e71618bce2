//! An append-only registry of canvases: opaque pixel payloads with text
//! metadata, stored under sequential identifiers together with their creator
//! and creation time, and listed by creator.
//!
//! [`registry::DataLoom`] is the registry itself. [`model`] says what a
//! registry is as a mathematical value and what holds of it, and
//! [`uint256`] and [`address`] hold the two kinds of value that pass through
//! it: 256-bit numbers and caller identities.

pub mod address;
pub mod counter;
pub mod model;
pub mod registry;
pub mod uint256;

pub use address::Address;
pub use counter::Counter;
pub use registry::DataLoom;
pub use uint256::Uint256;
