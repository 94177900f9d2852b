use vstd::prelude::*;

verus! {

/// What a power-up's collision does: the power-up itself is despawned, and
/// each ball listed in `new_balls` gets a twin spawned where it stands.
pub struct PowerupOutcome<E, B> {
    pub despawn: E,
    pub new_balls: Vec<B>,
}

/// The balls that a power-up collision duplicates: every ball when the
/// power-up hit the platform, none otherwise.
pub open spec fn spec_balls_to_duplicate<B>(hit_platform: bool, balls: Seq<B>) -> Seq<B> {
    if hit_platform {
        balls
    } else {
        Seq::empty()
    }
}

/// Decides what a collision of the power-up `powerup` with another collider
/// does, given whether that other collider is the platform and the balls in
/// play (in the order they are visited).
pub fn powerup_collision<E, B>(powerup: E, other_is_platform: bool, balls: Vec<B>) -> (outcome:
    PowerupOutcome<E, B>)
    ensures
        outcome.despawn == powerup,
        outcome.new_balls@ == spec_balls_to_duplicate(other_is_platform, balls@),
{
    if other_is_platform {
        PowerupOutcome { despawn: powerup, new_balls: balls }
    } else {
        PowerupOutcome { despawn: powerup, new_balls: Vec::new() }
    }
}

/// Catching a power-up with the platform doubles the number of balls in play,
/// one twin per ball; any other collision leaves it unchanged.
pub proof fn lemma_powerup_doubles_balls<B>(hit_platform: bool, balls: Seq<B>)
    ensures
        balls.len() + spec_balls_to_duplicate(hit_platform, balls).len() == if hit_platform {
            2 * balls.len()
        } else {
            balls.len()
        },
        forall|i: int|
            0 <= i < spec_balls_to_duplicate(hit_platform, balls).len() ==> #[trigger] spec_balls_to_duplicate(
                hit_platform,
                balls,
            )[i] == balls[i],
{
}

} // verus!
