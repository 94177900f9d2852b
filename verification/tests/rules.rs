use breakout::ball_plugin::block_hit_by_ball;
use breakout::block_plugin::{rows_to_fill, DEFAULT_ROWS_OF_BLOCKS};
use breakout::collider_plugin::ColliderTypes;
use breakout::octagon::{octagon_indices, OCTAGON_SIDES, OCTAGON_VERTEX_COUNT};
use breakout::platform_plugin::steering;
use breakout::powerup_plugin::powerup_collision;

#[test]
fn ball_removes_first_collider_when_it_is_a_block() {
    assert_eq!(block_hit_by_ball(1u64, true, 2u64, false), Some(1));
}

#[test]
fn ball_removes_second_collider_when_only_it_is_a_block() {
    assert_eq!(block_hit_by_ball(1u64, false, 2u64, true), Some(2));
}

#[test]
fn ball_removes_only_the_first_of_two_blocks() {
    assert_eq!(block_hit_by_ball(10u64, true, 20u64, true), Some(10));
}

#[test]
fn ball_removes_nothing_without_a_block() {
    assert_eq!(block_hit_by_ball(10u64, false, 20u64, false), None);
}

#[test]
fn steering_follows_the_keys() {
    assert_eq!(steering(false, false), 0);
    assert_eq!(steering(true, false), -1);
    assert_eq!(steering(false, true), 1);
    assert_eq!(steering(true, true), 0);
}

#[test]
fn steering_is_mirrored_when_keys_swap() {
    for left in [false, true] {
        for right in [false, true] {
            assert_eq!(steering(right, left), -steering(left, right));
        }
    }
}

#[test]
fn fresh_board_gets_all_rows() {
    assert_eq!(rows_to_fill(false), vec![0, 1, 2, 3, 4]);
    assert_eq!(rows_to_fill(false).len(), DEFAULT_ROWS_OF_BLOCKS as usize);
}

#[test]
fn board_with_blocks_gets_no_rows() {
    assert!(rows_to_fill(true).is_empty());
}

#[test]
fn octagon_index_buffer() {
    assert_eq!(
        octagon_indices(),
        vec![
            0, 1, 2, 0, 2, 3, 0, 3, 4, 0, 4, 5, 0, 5, 6, 0, 6, 7, 0, 7, 8, 0, 8, 1
        ]
    );
}

#[test]
fn octagon_indices_stay_in_the_vertex_buffer() {
    let indices = octagon_indices();
    assert_eq!(indices.len() as u32, 3 * OCTAGON_SIDES);
    assert!(indices.iter().all(|&i| i < OCTAGON_VERTEX_COUNT));
}

#[test]
fn octagon_corners_lie_on_two_triangles() {
    let indices = octagon_indices();
    for corner in 1..=8u32 {
        let triangles = indices
            .chunks(3)
            .filter(|t| t.contains(&corner))
            .count();
        assert_eq!(triangles, 2);
    }
}

#[test]
fn octagon_fan_is_closed() {
    let indices = octagon_indices();
    for k in 0..8usize {
        assert_eq!(indices[3 * k + 2], indices[3 * ((k + 1) % 8) + 1]);
    }
}

#[test]
fn powerup_on_platform_duplicates_every_ball() {
    let balls = vec![(1.5f32, -2.0f32), (0.0, 3.25)];
    let outcome = powerup_collision(7u64, true, balls.clone());
    assert_eq!(outcome.despawn, 7);
    assert_eq!(outcome.new_balls, balls);
}

#[test]
fn powerup_elsewhere_only_disappears() {
    let outcome = powerup_collision(7u64, false, vec![1u64, 2, 3]);
    assert_eq!(outcome.despawn, 7);
    assert!(outcome.new_balls.is_empty());
}

#[test]
fn powerup_doubles_ball_count() {
    let balls = vec![4u64, 5, 6];
    let before = balls.len();
    let outcome = powerup_collision(9u64, true, balls);
    assert_eq!(before + outcome.new_balls.len(), 2 * before);
}

#[test]
fn collider_types_compare() {
    let kind = ColliderTypes::Circle;
    let copy = kind;
    assert_eq!(kind, copy);
    assert_ne!(ColliderTypes::Square, ColliderTypes::Rectangle);
}
