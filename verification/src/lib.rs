//! Recursive MessagePack encoding of snapshots of host-runtime object graphs.
//!
//! A host object is handed to this library as a [`object::PyObject`]: the facts
//! about its type that classification reads, its scalar content, and the child
//! objects reachable through iteration, mapping entries and attributes. The
//! library decides which wire representation applies, recurses into the
//! children under a depth ceiling, and frames containers, world entities and
//! exceptions as extension values.
//!
//! - [`opt`]: the option flags.
//! - [`typeref`]: the registry of recognised type handles, and the kinds of
//!   world entities.
//! - [`object`]: the snapshot of an object.
//! - [`wire`]: the byte layout of every wire value, and the writers.
//! - [`serialize`]: classification, the encoders, and what is proved of them.
//! - [`error`]: the errors.
//!
//! Every encoder states two things of its result. It is the value of
//! [`serialize::encoding::encoding`] whenever the fallback handler returns
//! for each object one substitute only; and whatever the handler does, it is
//! an outcome in the sense of [`serialize::outcome::is_encoding`].

pub mod error;
pub mod object;
pub mod opt;
pub mod serialize;
pub mod typeref;
pub mod wire;
