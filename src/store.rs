use vstd::prelude::*;

verus! {

/// Ends a write transaction on a persisted store. `current` holds the value
/// that the change produced and `snapshot` the value before it; `written`
/// says whether the new value reached the disk. If it did, the new value
/// stays; if not, memory goes back to the snapshot, which is what the disk
/// still holds.
pub fn settle<T>(current: &mut T, snapshot: T, written: bool)
    ensures
        written ==> *final(current) == *old(current),
        !written ==> *final(current) == snapshot,
{
    if !written {
        *current = snapshot;
    }
}

} // verus!
