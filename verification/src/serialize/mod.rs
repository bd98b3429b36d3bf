//! Classification and recursive encoding.
//!
//! - [`serializer`]: classification, the dispatcher and the entry point.
//! - [`leaf`], [`list`], [`dict`], [`tuple`], [`lise`], [`default`], [`ext`]:
//!   the encoders.
//! - [`encoding`]: what the encoders write, as a function of the object.
//! - [`outcome`]: which outcomes are possible whatever the fallback handler
//!   does.
//! - [`agreement`], [`laws`]: what holds of every encoding.

pub mod agreement;
pub mod default;
pub mod dict;
pub mod encoding;
pub mod ext;
pub mod laws;
pub mod leaf;
pub mod lise;
pub mod list;
pub mod outcome;
pub mod serializer;
pub mod tuple;
