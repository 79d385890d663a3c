//! The sparse overlay: a field that a patch sets replaces the field below it, and a field
//! that it leaves out keeps what is there.

use vstd::prelude::*;

verus! {

/// `base` with `patch` laid over it.
pub open spec fn overlay<T>(base: T, patch: Option<T>) -> T {
    match patch {
        Some(x) => x,
        None => base,
    }
}

/// A field that may be empty, with `patch` laid over it.
pub open spec fn overlay_opt<T>(base: Option<T>, patch: Option<T>) -> Option<T> {
    match patch {
        Some(x) => Some(x),
        None => base,
    }
}

/// Lays `patch` over `base`.
pub fn merge<T: Copy>(base: T, patch: Option<T>) -> (r: T)
    ensures
        r == overlay(base, patch),
{
    match patch {
        Some(x) => x,
        None => base,
    }
}

/// Lays `patch` over a field that may be empty.
pub fn merge_opt<T: Copy>(base: Option<T>, patch: Option<T>) -> (r: Option<T>)
    ensures
        r == overlay_opt(base, patch),
{
    match patch {
        Some(x) => Some(x),
        None => base,
    }
}

/// Laying nothing over a value leaves the value.
pub proof fn lemma_overlay_none<T>(base: T)
    ensures
        overlay(base, None) == base,
{
}

/// What a patch sets is what comes out, whatever lay below.
pub proof fn lemma_overlay_some<T>(base: T, x: T)
    ensures
        overlay(base, Some(x)) == x,
{
}

/// Laying the same patch over the result again changes nothing.
pub proof fn lemma_overlay_idempotent<T>(base: T, patch: Option<T>)
    ensures
        overlay(overlay(base, patch), patch) == overlay(base, patch),
{
}

} // verus!
