//! Types for the `externalData` flow step.

use vstd::prelude::*;

verus! {

/// HTTP request method of the external-data call; wire values `GET`,
/// `POST`, `PUT`, `PATCH` and `DELETE`.
#[derive(Clone, Copy)]
pub enum RequestMethod {
    Get,
    Post,
    Put,
    Patch,
    Delete,
}

} // verus!
