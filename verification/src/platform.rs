//! The systems that the application runs on.

use vstd::prelude::*;

verus! {

/// The system that the application runs on.
#[derive(Debug, Clone, Copy, PartialEq, Eq, Structural)]
pub enum Platform {
    MacOs,
    Windows,
}

} // verus!
