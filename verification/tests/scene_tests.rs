use first_person::scene::{
    ball_at, spawn_camera, spawn_map, Ball, Entity, Hsl, Position, BALL_COUNT, BALL_DEPTH,
    BALL_RADIUS, BALL_SPACING, FULL_SATURATION, HUE_TURN, MID_LIGHTNESS, ROW_START,
};

fn balls_of(entities: &[Entity]) -> Vec<Ball> {
    let mut balls = Vec::new();
    for entity in entities {
        if let Entity::Ball(ball) = entity {
            balls.push(*ball);
        }
    }
    balls
}

#[test]
fn constants_have_their_values() {
    assert_eq!(BALL_COUNT, 16);
    assert_eq!(ROW_START, -8);
    assert_eq!(BALL_SPACING, 2);
    assert_eq!(BALL_DEPTH, -50);
    assert_eq!(BALL_RADIUS, 1);
    assert_eq!(HUE_TURN, 360_000);
    assert_eq!(FULL_SATURATION, 1_000);
    assert_eq!(MID_LIGHTNESS, 500);
}

#[test]
fn camera_is_a_camera() {
    assert_eq!(spawn_camera(), Entity::Camera);
}

#[test]
fn map_is_the_light_then_sixteen_balls() {
    let map = spawn_map();
    assert_eq!(map.len(), 17);
    assert_eq!(map[0], Entity::DirectionalLight);
    for entity in &map[1..] {
        assert!(matches!(entity, Entity::Ball(_)));
    }
    assert_eq!(balls_of(&map).len(), 16);
}

#[test]
fn scene_has_one_camera_and_one_light() {
    let mut scene = vec![spawn_camera()];
    scene.extend(spawn_map());
    let cameras = scene.iter().filter(|e| **e == Entity::Camera).count();
    let lights = scene.iter().filter(|e| **e == Entity::DirectionalLight).count();
    let balls = scene.iter().filter(|e| matches!(e, Entity::Ball(_))).count();
    assert_eq!(cameras, 1);
    assert_eq!(lights, 1);
    assert_eq!(balls, 16);
    assert_eq!(scene.len(), 18);
}

#[test]
fn map_is_the_same_every_time() {
    assert_eq!(spawn_map(), spawn_map());
}

#[test]
fn balls_stand_at_their_places() {
    let xs: Vec<i32> = balls_of(&spawn_map()).iter().map(|b| b.position.x).collect();
    assert_eq!(xs, vec![-16, -14, -12, -10, -8, -6, -4, -2, 0, 2, 4, 6, 8, 10, 12, 14]);
}

#[test]
fn balls_run_left_to_right() {
    let balls = balls_of(&spawn_map());
    for pair in balls.windows(2) {
        assert!(pair[0].position.x < pair[1].position.x);
        assert_eq!(pair[1].position.x - pair[0].position.x, 2);
    }
}

#[test]
fn balls_share_height_and_depth() {
    for ball in balls_of(&spawn_map()) {
        assert_eq!(ball.position.y, 0);
        assert_eq!(ball.position.z, -50);
    }
}

#[test]
fn hues_go_round_the_wheel() {
    let hues: Vec<u32> = balls_of(&spawn_map()).iter().map(|b| b.color.hue).collect();
    assert_eq!(
        hues,
        vec![
            0, 22_500, 45_000, 67_500, 90_000, 112_500, 135_000, 157_500, 180_000, 202_500,
            225_000, 247_500, 270_000, 292_500, 315_000, 337_500
        ]
    );
}

#[test]
fn hues_are_evenly_spaced_and_distinct() {
    let balls = balls_of(&spawn_map());
    for pair in balls.windows(2) {
        assert_eq!(pair[1].color.hue - pair[0].color.hue, 360_000 / 16);
    }
    assert_eq!(balls[0].color.hue, 0);
    assert_eq!(balls[15].color.hue + 360_000 / 16, 360_000);
    for i in 0..balls.len() {
        assert!(balls[i].color.hue < 360_000);
        for j in 0..i {
            assert_ne!(balls[i].color.hue, balls[j].color.hue);
        }
    }
}

#[test]
fn balls_are_fully_saturated_at_middle_lightness() {
    for ball in balls_of(&spawn_map()) {
        assert_eq!(ball.color.saturation, 1_000);
        assert_eq!(ball.color.lightness, 500);
    }
}

#[test]
fn first_and_last_ball_in_full() {
    let map = spawn_map();
    assert_eq!(
        map[1],
        Entity::Ball(Ball {
            position: Position { x: -16, y: 0, z: -50 },
            color: Hsl { hue: 0, saturation: 1_000, lightness: 500 },
        })
    );
    assert_eq!(
        map[16],
        Entity::Ball(Ball {
            position: Position { x: 14, y: 0, z: -50 },
            color: Hsl { hue: 337_500, saturation: 1_000, lightness: 500 },
        })
    );
}

#[test]
fn ball_at_agrees_with_the_map() {
    let map = spawn_map();
    for h in 0..16u32 {
        assert_eq!(map[h as usize + 1], Entity::Ball(ball_at(h)));
    }
}

#[test]
fn ball_at_gives_the_formulas() {
    let ball = ball_at(3);
    assert_eq!(ball.position, Position { x: -10, y: 0, z: -50 });
    assert_eq!(ball.color, Hsl { hue: 67_500, saturation: 1_000, lightness: 500 });
    assert_eq!(ball_at(8).position.x, 0);
    assert_eq!(ball_at(8).color.hue, 180_000);
}

#[test]
fn integers_stand_for_the_floating_values() {
    for h in 0..16u32 {
        let ball = ball_at(h);
        let hue_degrees = (h as f32 / 16.) * 360.;
        let x = (-8. + h as f32) * 2.;
        assert_eq!(ball.color.hue as f32 / 1000., hue_degrees);
        assert_eq!(ball.position.x as f32, x);
        assert_eq!(ball.position.z as f32, -50.0);
        assert_eq!(ball.color.saturation as f32 / 1000., 1.);
        assert_eq!(ball.color.lightness as f32 / 1000., 0.5);
        assert_eq!(BALL_RADIUS as f32, 1.);
    }
}
