//! Shape implementations for standard-library types.
mod array;
pub(crate) mod bound;
mod container;
mod foreign;
mod jiff02;
pub(crate) mod net;
pub(crate) mod os_string;
mod primitive;
pub(crate) mod range;
pub(crate) mod result;
pub(crate) mod time;
mod tuple;
pub(crate) mod variant;
mod wrapper;
