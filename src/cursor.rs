use vstd::prelude::*;

verus! {

/// The position a bounded cursor reaches after one move.
pub open spec fn stepped(pos: nat, offset: nat, forward: bool, max: nat) -> nat {
    let moved: int = if forward {
        (pos + offset) as int
    } else if pos >= offset {
        (pos - offset) as int
    } else {
        0
    };
    if moved > max {
        max
    } else {
        moved as nat
    }
}

/// Moves a selection by `offset` places, forward or backward, and keeps it in `[0, max]`.
/// A list with nothing selected stays so.
pub fn offset_state(initial_state: Option<usize>, offset: usize, direction: bool, max: usize) -> (r:
    Option<usize>)
    ensures
        initial_state is None ==> r is None,
        initial_state matches Some(p) ==> r == Some(
            stepped(p as nat, offset as nat, direction, max as nat) as usize,
        ),
{
    match initial_state {
        None => None,
        Some(p) => {
            let moved: usize = if direction {
                p.saturating_add(offset)
            } else {
                p.saturating_sub(offset)
            };
            Some(if moved > max { max } else { moved })
        },
    }
}

} // verus!
