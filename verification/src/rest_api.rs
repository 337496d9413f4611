//! Per-resource operations: thin functions that encode a typed record and
//! set up the request pipeline for the resource's fixed path.

use vstd::prelude::*;

pub mod flows;
pub mod message;

verus! {

/// A numeric resource identifier.
#[derive(Debug)]
pub struct Id(u64);

} // verus!
