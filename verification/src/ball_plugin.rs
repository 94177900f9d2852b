use vstd::prelude::*;

verus! {

/// The block that a collision of the ball removes: the first collider if it
/// is a block, else the second one if that is a block, else nothing.
pub open spec fn spec_block_hit<E>(
    collider1: E,
    collider1_is_block: bool,
    collider2: E,
    collider2_is_block: bool,
) -> Option<E> {
    if collider1_is_block {
        Some(collider1)
    } else if collider2_is_block {
        Some(collider2)
    } else {
        None
    }
}

/// Decides which of the two colliders of a ball's collision is despawned.
/// At most one entity goes, and the first collider is checked first.
pub fn block_hit_by_ball<E: Copy>(
    collider1: E,
    collider1_is_block: bool,
    collider2: E,
    collider2_is_block: bool,
) -> (hit: Option<E>)
    ensures
        hit == spec_block_hit(collider1, collider1_is_block, collider2, collider2_is_block),
{
    if collider1_is_block {
        Some(collider1)
    } else if collider2_is_block {
        Some(collider2)
    } else {
        None
    }
}

/// A collision of the ball removes only a block that took part in it, and it
/// removes one whenever a block took part.
pub proof fn lemma_ball_removes_only_a_colliding_block<E>(
    collider1: E,
    collider1_is_block: bool,
    collider2: E,
    collider2_is_block: bool,
)
    ensures
        ({
            let hit = spec_block_hit(collider1, collider1_is_block, collider2, collider2_is_block);
            &&& hit is Some <==> (collider1_is_block || collider2_is_block)
            &&& hit matches Some(e) ==> ((e == collider1 && collider1_is_block) || (e
                == collider2 && collider2_is_block))
        }),
{
}

/// When both colliders are blocks, only the first one is removed.
pub proof fn lemma_first_block_wins<E>(collider1: E, collider2: E)
    ensures
        spec_block_hit(collider1, true, collider2, true) == Some(collider1),
{
}

} // verus!
