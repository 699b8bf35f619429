//! Enumerations of the domain.

use vstd::prelude::*;

verus! {

/// The state of a job posting.
#[allow(non_camel_case_types)]
#[derive(Clone, Copy, PartialEq, Eq, Structural, Debug)]
pub enum JobStatus {
    OPEN,
    PENDING,
    COMPLETED,
    CANCELLED,
}

} // verus!
