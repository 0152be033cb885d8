use vstd::prelude::*;

verus! {

/// Horizontal steering from the controls: -1 (left), 0, or +1 (right);
/// pressing both directions cancels out.
pub open spec fn spec_steering(left: bool, right: bool) -> int {
    (if right { 1int } else { 0int }) - (if left { 1int } else { 0int })
}

/// Steering of the player's ship from the left and right controls (keys
/// or touch buttons): -1 to move left, +1 to move right, 0 to stay.
pub fn steering(left: bool, right: bool) -> (direction: i8)
    ensures
        direction == spec_steering(left, right),
        -1 <= direction <= 1,
{
    let mut direction: i8 = 0;
    if left {
        direction = direction - 1;
    }
    if right {
        direction = direction + 1;
    }
    direction
}

} // verus!
