//! The static scene: one camera, one light and a row of coloured balls.

use vstd::prelude::*;

verus! {

/// How many balls stand in the row.
pub const BALL_COUNT: u32 = 16;

/// The place of the first ball, counted in ball places from the camera's
/// axis: below zero is to the left.
pub const ROW_START: i32 = -8;

/// World units between the centres of neighbouring balls.
pub const BALL_SPACING: i32 = 2;

/// The row's distance in front of the camera, which looks down negative z.
pub const BALL_DEPTH: i32 = -50;

/// Radius of the one sphere that every ball is drawn as, in world units.
pub const BALL_RADIUS: u32 = 1;

/// A full turn of the colour wheel, in thousandths of a degree.
pub const HUE_TURN: u32 = 360_000;

/// Full saturation, in thousandths.
pub const FULL_SATURATION: u32 = 1_000;

/// Middle lightness, in thousandths.
pub const MID_LIGHTNESS: u32 = 500;

/// A point in world units.
#[derive(Clone, Copy, Debug, PartialEq, Eq, Structural)]
pub struct Position {
    pub x: i32,
    pub y: i32,
    pub z: i32,
}

/// A colour by hue, saturation and lightness.
#[derive(Clone, Copy, Debug, PartialEq, Eq, Structural)]
pub struct Hsl {
    /// Thousandths of a degree, below `HUE_TURN`.
    pub hue: u32,
    /// Thousandths, at most `FULL_SATURATION`.
    pub saturation: u32,
    /// Thousandths, at most 1000.
    pub lightness: u32,
}

/// One ball of the row: where its centre is and what colour it has. All
/// balls are spheres of radius `BALL_RADIUS`.
#[derive(Clone, Copy, Debug, PartialEq, Eq, Structural)]
pub struct Ball {
    pub position: Position,
    pub color: Hsl,
}

/// Something the scene holds.
#[derive(Clone, Copy, Debug, PartialEq, Eq, Structural)]
pub enum Entity {
    /// The player's camera.
    Camera,
    /// The light that makes the scene visible.
    DirectionalLight,
    /// A ball of the row.
    Ball(Ball),
}

/// The x coordinate of ball `h`.
pub open spec fn ball_x(h: int) -> int {
    (ROW_START + h) * BALL_SPACING
}

/// The hue of ball `h`: the wheel is shared out evenly among the balls.
pub open spec fn ball_hue(h: int) -> int {
    h * HUE_TURN / (BALL_COUNT as int)
}

/// Ball `h` of the row, counted from 0.
pub open spec fn ball(h: int) -> Ball {
    Ball {
        position: Position { x: ball_x(h) as i32, y: 0, z: BALL_DEPTH },
        color: Hsl {
            hue: ball_hue(h) as u32,
            saturation: FULL_SATURATION,
            lightness: MID_LIGHTNESS,
        },
    }
}

/// What the map holds: the light, then the balls from left to right.
pub open spec fn map_entities() -> Seq<Entity> {
    seq![Entity::DirectionalLight] + Seq::new(BALL_COUNT as nat, |h: int| Entity::Ball(ball(h)))
}

/// The whole scene: the camera, then the map.
pub open spec fn scene_entities() -> Seq<Entity> {
    seq![Entity::Camera] + map_entities()
}

/// The camera entity: the one the player looks through.
pub fn spawn_camera() -> (entity: Entity)
    ensures
        entity == Entity::Camera,
{
    Entity::Camera
}

/// Ball `h` of the row.
pub fn ball_at(h: u32) -> (b: Ball)
    requires
        h < BALL_COUNT,
    ensures
        b == ball(h as int),
        b.position.x == (ROW_START + h) * BALL_SPACING,
        b.color.hue == h * HUE_TURN / (BALL_COUNT as int),
{
    let place: i32 = ROW_START + h as i32;
    Ball {
        position: Position { x: place * BALL_SPACING, y: 0, z: BALL_DEPTH },
        color: Hsl {
            hue: h * HUE_TURN / BALL_COUNT,
            saturation: FULL_SATURATION,
            lightness: MID_LIGHTNESS,
        },
    }
}

/// The entities of the map, in the order in which they are to be spawned: the
/// directional light, then the balls from left to right.
pub fn spawn_map() -> (entities: Vec<Entity>)
    ensures
        entities@ == map_entities(),
{
    let mut entities: Vec<Entity> = Vec::new();
    entities.push(Entity::DirectionalLight);
    let mut h: u32 = 0;
    while h < BALL_COUNT
        invariant
            h <= BALL_COUNT,
            entities@.len() == h + 1,
            entities@[0] == Entity::DirectionalLight,
            forall|k: int| 0 <= k < h ==> entities@[k + 1] == Entity::Ball(ball(k)),
        decreases BALL_COUNT - h,
    {
        entities.push(Entity::Ball(ball_at(h)));
        h += 1;
    }
    assert(entities@ =~= map_entities());
    entities
}

/// The row runs from left to right: of two balls, the later one has the
/// larger x, and neighbours are `BALL_SPACING` apart.
pub proof fn balls_run_left_to_right(i: int, j: int)
    requires
        0 <= i < j < BALL_COUNT,
    ensures
        ball(i).position.x < ball(j).position.x,
        ball(j).position.x - ball(i).position.x == (j - i) * BALL_SPACING,
{
}

/// The hues share the colour wheel evenly: the first ball has hue zero, each
/// further ball lies the same step behind the one before it, and one more
/// step after the last ball would close the turn.
pub proof fn hues_are_evenly_spaced(h: int)
    requires
        0 <= h < BALL_COUNT,
    ensures
        ball(h).color.hue == h * (HUE_TURN / BALL_COUNT),
        ball(h).color.hue < HUE_TURN,
        BALL_COUNT * (HUE_TURN / BALL_COUNT) == HUE_TURN,
{
    assert(ball_hue(h) == h * 22_500);
}

/// No two balls have the same hue.
pub proof fn hues_are_distinct(i: int, j: int)
    requires
        0 <= i < BALL_COUNT,
        0 <= j < BALL_COUNT,
        i != j,
    ensures
        ball(i).color.hue != ball(j).color.hue,
{
    hues_are_evenly_spaced(i);
    hues_are_evenly_spaced(j);
}

/// The scene holds exactly one camera, exactly one directional light and
/// exactly `BALL_COUNT` balls: the camera comes first, the light second, and
/// every entity after them is a ball of the row, in the row's order.
pub proof fn scene_census()
    ensures
        scene_entities().len() == BALL_COUNT + 2,
        forall|i: int|
            0 <= i < scene_entities().len() ==> (#[trigger] scene_entities()[i] is Camera <==> i
                == 0),
        forall|i: int|
            0 <= i < scene_entities().len() ==> (#[trigger] scene_entities()[i]
                is DirectionalLight <==> i == 1),
        forall|i: int|
            2 <= i < scene_entities().len() ==> #[trigger] scene_entities()[i] == Entity::Ball(
                ball(i - 2),
            ),
{
}

} // verus!
