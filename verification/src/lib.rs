//! Reference resolution for an in-memory API-description document.
//!
//! A document owns an optional component container with one named map per
//! entity category. A reference node is either an inline value or a pointer
//! string of the form `#/components/<category>/<name>`; resolution follows
//! such pointers, transitively, until an inline value is found or a step
//! fails.

pub mod category;
pub mod document;
pub mod laws;
pub mod named_map;
pub mod resolve;
pub mod text;

use vstd::prelude::*;

verus! {

/// Maximum number of map lookups a single resolution may perform while
/// following a chain of pointers. A bounded budget makes resolution total:
/// a cyclic chain of references fails cleanly instead of recursing forever.
pub const MAX_HOPS: u32 = 32;

} // verus!
