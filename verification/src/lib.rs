//! Access to GPIO controllers through the kernel's character-device line
//! protocol, with the protocol-facing data structures verified.
//!
//! The crate models the three pieces that must be correct under the
//! protocol's strict layout and bound constraints: a bounded, sorted,
//! duplicate-free set of line offsets; a bit-packed masked value carrying
//! up to one boolean per line; and a direction-tagged option builder that
//! lowers a configuration into the protocol's flag bitfield.  Around them
//! stand the fixed-layout request/response structures and their encode and
//! decode routines.

pub mod chip;
pub mod errors;
pub mod fixed_str;
pub mod line;
#[allow(non_camel_case_types)]
pub mod uapi;

pub use errors::Error;
