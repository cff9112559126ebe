//! The errors of the cache.
use vstd::prelude::*;

verus! {

/// Various errors that may be encountered while using the cache.
#[derive(Clone, Debug, PartialEq)]
pub enum Error {
    /// The storage backend failed, with its message.
    Redis(String),
    /// A key of a collection is no decimal ID.
    ParseInt,
    /// A value could not be read or written as JSON, with the parser's message.
    Json(String),
}

} // verus!
