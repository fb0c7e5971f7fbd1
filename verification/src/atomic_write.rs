//! Atomic file writes: the decisions.
//!
//! Data is written to a sibling file first, which is then renamed over the target,
//! so that a crash never leaves a partial file there. The rename may be refused for
//! a moment, where another program holds the file; then the whole is tried again.
use crate::text::joined;
use vstd::prelude::*;
use vstd::string::StrSliceExecFns;

verus! {

/// The sibling that is written before it takes the place of `path`.
pub fn tmp_path(path: &str) -> (r: String)
    ensures
        r@ == path@ + ".tmp"@,
{
    joined(path, ".tmp")
}

/// Whether the directory of the target is to be created first: it has a name, and
/// there is none yet.
pub fn creates_parent(parent: &str, exists: bool) -> (r: bool)
    ensures
        r == (parent@.len() > 0 && !exists),
{
    parent.unicode_len() > 0 && !exists
}

/// What follows a rename.
#[derive(Clone, Copy, Debug, PartialEq, Eq, Structural)]
pub enum AfterRename {
    /// The target holds the data.
    Done,
    /// Wait, remove the sibling, and start over with the next attempt.
    Retry { pause_ms: u64, attempt: u32 },
    /// Remove the sibling and report the failure.
    GiveUp,
}

/// Number of the last attempt, from zero.
pub const LAST_ATTEMPT: u32 = 3;

/// What follows the rename of an attempt.
pub open spec fn next_step(attempt: u32, renamed: bool) -> AfterRename {
    if renamed {
        AfterRename::Done
    } else if attempt < LAST_ATTEMPT {
        AfterRename::Retry {
            pause_ms: (10 * (attempt + 1)) as u64,
            attempt: (attempt + 1) as u32,
        }
    } else {
        AfterRename::GiveUp
    }
}

/// What follows the rename of an attempt.
pub fn after_rename(attempt: u32, renamed: bool) -> (r: AfterRename)
    ensures
        r == next_step(attempt, renamed),
{
    if renamed {
        AfterRename::Done
    } else if attempt < LAST_ATTEMPT {
        AfterRename::Retry { pause_ms: 10 * (attempt as u64 + 1), attempt: attempt + 1 }
    } else {
        AfterRename::GiveUp
    }
}

/// The number of renames from an attempt on, if all are refused.
pub open spec fn renames_from(attempt: u32) -> nat
    decreases LAST_ATTEMPT - attempt,
{
    match next_step(attempt, false) {
        AfterRename::Retry { pause_ms, attempt: next } => if next > attempt {
            1 + renames_from(next)
        } else {
            1
        },
        _ => 1,
    }
}

/// Law: a write whose rename is always refused gives up once its last attempt has
/// been made, four renames in all.
pub proof fn law_write_gives_up(attempt: u32)
    requires
        attempt <= LAST_ATTEMPT,
    ensures
        renames_from(attempt) == LAST_ATTEMPT - attempt + 1,
    decreases LAST_ATTEMPT - attempt,
{
    if attempt < LAST_ATTEMPT {
        law_write_gives_up((attempt + 1) as u32);
    }
}

} // verus!
