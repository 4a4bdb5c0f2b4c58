//! What is kept beside an uploaded file.

use vstd::prelude::*;

verus! {

/// When a file was uploaded and when it expires, in seconds.
#[derive(Clone, Copy, Debug, PartialEq, Eq, Structural)]
pub struct Metadata {
    pub date: i64,
    pub expires: i64,
}

} // verus!
