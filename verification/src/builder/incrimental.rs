//! Incremental build phases.

use vstd::prelude::*;

verus! {

/// Steps of an incremental build, ordered by how much work has been done
/// loading a source. Under certain conditions steps can be skipped, but a
/// source only ever advances: it never regresses to an earlier step.
#[derive(Debug, Clone, PartialEq)]
pub enum Incrimental {
    /// Check if a build has been cached.
    CheckCached,
    /// Has loaded metadata.
    Metadata {},
    /// Source code has been loaded and needs parsing.
    RawText(String),
}

/// The position of a phase in the build's forward order.
pub open spec fn phase_rank(p: Incrimental) -> int {
    match p {
        Incrimental::CheckCached => 0,
        Incrimental::Metadata {  } => 1,
        Incrimental::RawText(_) => 2,
    }
}

impl Incrimental {
    /// The position of this phase in the build's forward order.
    pub fn rank(&self) -> (r: u8)
        ensures
            r as int == phase_rank(*self),
    {
        match self {
            Incrimental::CheckCached => 0,
            Incrimental::Metadata {  } => 1,
            Incrimental::RawText(_) => 2,
        }
    }
}

} // verus!
