//! The operating systems that the library tells apart.
use vstd::prelude::*;

verus! {

/// The operating system that the process runs on.
#[derive(Clone, Copy, Debug, PartialEq, Eq, Structural)]
pub enum Platform {
    Linux,
    MacOs,
    /// Another Unix, such as a BSD.
    Other,
}

} // verus!
