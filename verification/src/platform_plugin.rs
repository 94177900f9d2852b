use vstd::prelude::*;

verus! {

/// The horizontal direction that the arrow keys give the platform:
/// `-1` for left alone, `1` for right alone, `0` for neither or both.
pub open spec fn spec_steering(left_pressed: bool, right_pressed: bool) -> int {
    (if right_pressed { 1int } else { 0int }) - (if left_pressed { 1int } else { 0int })
}

/// Reads the two arrow keys into the platform's direction of travel.
pub fn steering(left_pressed: bool, right_pressed: bool) -> (dir: i8)
    ensures
        dir == spec_steering(left_pressed, right_pressed),
{
    let mut speed: i8 = 0;
    if left_pressed {
        speed = speed - 1;
    }
    if right_pressed {
        speed = speed + 1;
    }
    speed
}

/// The direction is one of `-1`, `0`, `1`; the two keys cancel each other,
/// and swapping them reverses the direction.
pub proof fn lemma_steering_symmetric(left_pressed: bool, right_pressed: bool)
    ensures
        -1 <= spec_steering(left_pressed, right_pressed) <= 1,
        spec_steering(right_pressed, left_pressed) == -spec_steering(left_pressed, right_pressed),
        spec_steering(true, true) == 0,
        spec_steering(false, false) == 0,
{
}

} // verus!
