//! The ceiling on the linear memory that a contract module may import.

use vstd::prelude::*;
use crate::error::BuildError;

verus! {

/// The largest number of pages that a contract may ask for.
pub const MAX_MEMORY_PAGES: u32 = 16;

/// The page limits of a linear memory: the pages it starts with and, if it
/// declares one, the number it may grow to.
#[derive(Clone, Copy, Debug, PartialEq, Eq, Structural)]
pub struct MemoryLimits {
    pub initial: u32,
    pub maximum: Option<u32>,
}

/// What the ceiling makes of the first imported memory of a module: its absence
/// and a declared maximum above the ceiling are errors, a missing maximum
/// becomes the ceiling, and everything else stays.
pub open spec fn capped_limits(found: Option<MemoryLimits>, ceiling: u32) -> Result<
    MemoryLimits,
    BuildError,
> {
    match found {
        None => Err(BuildError::MemoryImportNotFound),
        Some(limits) => match limits.maximum {
            Some(requested) => if requested > ceiling {
                Err(BuildError::MemoryCeilingExceeded { requested, allowed: ceiling })
            } else {
                Ok(limits)
            },
            None => Ok(MemoryLimits { initial: limits.initial, maximum: Some(ceiling) }),
        },
    }
}

/// Applies the ceiling to the limits of the first imported memory, `None`
/// standing for a module that imports no memory.
pub fn cap_memory_limits(found: Option<MemoryLimits>, ceiling: u32) -> (res: Result<
    MemoryLimits,
    BuildError,
>)
    ensures
        res == capped_limits(found, ceiling),
{
    match found {
        None => Err(BuildError::MemoryImportNotFound),
        Some(limits) => match limits.maximum {
            Some(requested) => {
                if requested > ceiling {
                    Err(BuildError::MemoryCeilingExceeded { requested, allowed: ceiling })
                } else {
                    Ok(limits)
                }
            },
            None => Ok(MemoryLimits { initial: limits.initial, maximum: Some(ceiling) }),
        },
    }
}

} // verus!
