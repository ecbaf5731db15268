//! Errors of page table operations.

use vstd::prelude::*;

verus! {

/// Why a page table operation was refused.
#[derive(Clone, Copy, Debug, PartialEq, Eq, Structural)]
pub enum PtError {
    /// An argument does not describe anything the operation can work on.
    InvalidParameter,
}

} // verus!
