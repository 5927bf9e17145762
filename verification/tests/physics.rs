use flappy_dragon::obstacle::Obstacle;
use flappy_dragon::player::Player;
use flappy_dragon::FLAP_VELOCITY;
use flappy_dragon::GRAVITY_INCREMENT;
use flappy_dragon::MAX_FALL_VELOCITY;

#[test]
fn gravity_increments_until_cap() {
    let mut p = Player::new(5, 25);
    let mut expected: i32 = 0;
    for _ in 0..30 {
        p.gravity_and_move();
        if expected < MAX_FALL_VELOCITY {
            expected += GRAVITY_INCREMENT;
        }
        assert_eq!(p.velocity, expected);
        assert!(p.velocity <= MAX_FALL_VELOCITY);
    }
    assert_eq!(p.velocity, MAX_FALL_VELOCITY);
}

#[test]
fn gravity_moves_one_cell_forward_each_step() {
    let mut p = Player::new(5, 25);
    for step in 1..=10 {
        p.gravity_and_move();
        assert_eq!(p.x, 5 + step);
    }
}

#[test]
fn fall_distance_is_truncated_velocity() {
    let mut p = Player::new(5, 25);
    // Velocity runs 2, 4, 6, 8 — all under one cell per step.
    for _ in 0..4 {
        p.gravity_and_move();
        assert_eq!(p.y, 25);
    }
    // Velocity reaches 10: exactly one cell per step from here on.
    p.gravity_and_move();
    assert_eq!(p.velocity, 10);
    assert_eq!(p.y, 26);
}

#[test]
fn flap_resets_velocity_from_any_speed() {
    let mut p = Player::new(5, 25);
    p.flap();
    assert_eq!(p.velocity, FLAP_VELOCITY);
    for _ in 0..25 {
        p.gravity_and_move();
    }
    assert_eq!(p.velocity, MAX_FALL_VELOCITY);
    p.flap();
    assert_eq!(p.velocity, FLAP_VELOCITY);
    // Not additive: a second flap lands on the same value.
    p.flap();
    assert_eq!(p.velocity, FLAP_VELOCITY);
}

#[test]
fn y_is_clamped_at_the_top() {
    let mut p = Player::new(5, 0);
    p.flap();
    p.gravity_and_move();
    // Rising at the ceiling: clamped to 0, never negative.
    assert_eq!(p.y, 0);
    assert_eq!(p.velocity, FLAP_VELOCITY + GRAVITY_INCREMENT);
}

#[test]
fn rising_player_moves_up_by_truncated_cells() {
    let mut p = Player::new(5, 25);
    p.flap();
    p.gravity_and_move();
    // Velocity -18 is one whole cell upward, truncated toward zero.
    assert_eq!(p.velocity, -18);
    assert_eq!(p.y, 24);
}

#[test]
fn hit_requires_exact_column_match() {
    let o = Obstacle { x: 10, gap_y: 25, size: 10 };
    // Tolerance is half a sprite width: the matching column is x - 4.
    assert!(o.hit_obstacle(&Player { x: 6, y: 19, velocity: 0 }));
    assert!(!o.hit_obstacle(&Player { x: 5, y: 19, velocity: 0 }));
    assert!(!o.hit_obstacle(&Player { x: 7, y: 19, velocity: 0 }));
    assert!(!o.hit_obstacle(&Player { x: 10, y: 19, velocity: 0 }));
}

#[test]
fn hit_requires_leaving_the_gap() {
    let o = Obstacle { x: 10, gap_y: 25, size: 10 };
    // The gap spans rows 20..=30; its edges are safe.
    assert!(o.hit_obstacle(&Player { x: 6, y: 19, velocity: 0 }));
    assert!(!o.hit_obstacle(&Player { x: 6, y: 20, velocity: 0 }));
    assert!(!o.hit_obstacle(&Player { x: 6, y: 25, velocity: 0 }));
    assert!(!o.hit_obstacle(&Player { x: 6, y: 30, velocity: 0 }));
    assert!(o.hit_obstacle(&Player { x: 6, y: 31, velocity: 0 }));
}

#[test]
fn obstacle_size_shrinks_with_score_and_floors() {
    // Scores are in hundredths of a point: one cell per whole point.
    assert_eq!(Obstacle::new(85, 25, 0).size, 30);
    assert_eq!(Obstacle::new(85, 25, 99).size, 30);
    assert_eq!(Obstacle::new(85, 25, 700).size, 23);
    assert_eq!(Obstacle::new(85, 25, 2500).size, 5);
    assert_eq!(Obstacle::new(85, 25, 2600).size, 5);
    assert_eq!(Obstacle::new(85, 25, 1_000_000).size, 5);
}

#[test]
fn obstacle_gap_is_drawn_inside_the_window() {
    let mut seen = [false; 10];
    for _ in 0..200 {
        let o = Obstacle::new(85, 25, 0);
        assert!(20 <= o.gap_y && o.gap_y < 30);
        assert_eq!(o.x, 85);
        seen[(o.gap_y - 20) as usize] = true;
    }
    // A fixed value handed back unchanged would light one slot only.
    let distinct: usize = seen.iter().filter(|s| **s).count();
    assert!(distinct >= 2);
}
