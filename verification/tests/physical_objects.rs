use space_game::direction::Direction;
use space_game::fixed::ONE;
use space_game::game_object::draw_shape::{
    DrawShape, ShapeType, BLUE, DEFAULT_CIRCLE_THICKNESS, DEFAULT_LINE_THICKNESS,
    DEFAULT_POLYGON_THICKNESS, WHITE,
};
use space_game::game_object::health_status::HealthStatus;
use space_game::game_object::GameObject;
use space_game::trig::{HALF_PI, PI};
use space_game::vector::Vec2;

fn moving(velocity: Vec2, friction_constant: i64, friction_multiplier: i64) -> GameObject {
    let mut object = GameObject::default();
    object.velocity = velocity;
    object.friction_constant = friction_constant;
    object.friction_multiplier = friction_multiplier;
    object
}

fn circle(x: i64, y: i64, radius: i64) -> GameObject {
    let mut object = GameObject::default();
    object.position = Vec2::new(x, y);
    object.radius = radius;
    object
}

#[test]
fn kill_if_alive_kills_only_the_living() {
    assert_eq!(HealthStatus::kill_if_alive(HealthStatus::Alive), HealthStatus::Dead);
    assert_eq!(HealthStatus::kill_if_alive(HealthStatus::Dead), HealthStatus::Dead);
    assert_eq!(HealthStatus::kill_if_alive(HealthStatus::Invulnerable), HealthStatus::Invulnerable);
}

#[test]
fn default_shapes() {
    let circle = DrawShape::new_circle();
    assert_eq!(circle.shape_type, ShapeType::Circle);
    assert_eq!(circle.radius_scale, ONE);
    assert_eq!(circle.color, WHITE);
    assert_eq!(circle.thickness, DEFAULT_CIRCLE_THICKNESS);
    let polygon = DrawShape::new_polygon(5);
    assert_eq!(polygon.shape_type, ShapeType::Polygon(5));
    assert_eq!(polygon.color, WHITE);
    assert_eq!(polygon.thickness, DEFAULT_POLYGON_THICKNESS);
    let line = DrawShape::new_line();
    assert_eq!(line.shape_type, ShapeType::Line);
    assert_eq!(line.thickness, DEFAULT_LINE_THICKNESS);
    assert_eq!(DEFAULT_LINE_THICKNESS, 1_500_000);
}

#[test]
fn coloured_shapes() {
    assert_eq!(DrawShape::new_circle_color(BLUE).color, BLUE);
    assert_eq!(DrawShape::new_polygon_color(3, BLUE).shape_type, ShapeType::Polygon(3));
    assert_eq!(DrawShape::new_polygon_color(3, BLUE).color, BLUE);
    assert_eq!(DrawShape::new_line_color(BLUE).color, BLUE);
    assert_eq!(DrawShape::new_line_color(BLUE).radius_scale, ONE);
}

#[test]
fn the_default_object_rests_at_the_origin() {
    let object = GameObject::default();
    assert_eq!(object.position, Vec2::new(0, 0));
    assert_eq!(object.velocity, Vec2::new(0, 0));
    assert_eq!(object.radius, ONE);
    assert_eq!(object.friction_constant, 0);
    assert_eq!(object.friction_multiplier, ONE);
    assert_eq!(object.direction.get(), 0);
    assert!(object.draw_shapes.is_empty());
    assert_eq!(object.health_status, HealthStatus::Alive);
}

#[test]
fn without_friction_an_object_keeps_its_velocity() {
    let mut object = moving(Vec2::new(3 * ONE, -4 * ONE), 0, ONE);
    object.update(2 * ONE);
    assert_eq!(object.velocity, Vec2::new(3 * ONE, -4 * ONE));
    assert_eq!(object.position, Vec2::new(6 * ONE, -8 * ONE));
}

#[test]
fn linear_drag_takes_speed_off_along_the_motion() {
    let mut object = moving(Vec2::new(100 * ONE, 0), 10 * ONE, ONE);
    object.update(ONE);
    assert_eq!(object.velocity, Vec2::new(90 * ONE, 0));
    assert_eq!(object.position, Vec2::new(95 * ONE, 0));
}

#[test]
fn linear_drag_stops_an_object_exactly() {
    let mut object = moving(Vec2::new(-3 * ONE, 4 * ONE), 10 * ONE, ONE);
    object.position = Vec2::new(5 * ONE, 5 * ONE);
    object.update(ONE);
    assert_eq!(object.velocity, Vec2::new(0, 0));
    assert_eq!(object.position, Vec2::new(3_500_000, 7 * ONE));
    object.update(ONE);
    assert_eq!(object.velocity, Vec2::new(0, 0));
    assert_eq!(object.position, Vec2::new(3_500_000, 7 * ONE));
}

#[test]
fn linear_drag_stops_an_object_when_it_equals_the_speed() {
    let mut object = moving(Vec2::new(3 * ONE, 4 * ONE), 5 * ONE, ONE);
    object.update(ONE);
    assert_eq!(object.velocity, Vec2::new(0, 0));
}

#[test]
fn linear_drag_never_reverses_the_motion() {
    let mut object = moving(Vec2::new(-30 * ONE, 40 * ONE), 7 * ONE, ONE);
    let mut speed = object.velocity.length();
    for _ in 0..200 {
        object.update(100_000);
        assert!(object.velocity.x <= 0);
        assert!(object.velocity.y >= 0);
        let now = object.velocity.length();
        assert!(now <= speed);
        if now > 0 {
            assert!((speed - now - 700_000).abs() <= 2, "lost {}", speed - now);
        }
        speed = now;
    }
    assert_eq!(object.velocity, Vec2::new(0, 0));
}

#[test]
fn exponential_drag_halves_the_velocity() {
    let mut object = moving(Vec2::new(100 * ONE, 0), 0, 500_000);
    object.update(ONE);
    assert_eq!(object.velocity, Vec2::new(50 * ONE, 0));
    assert_eq!(object.position, Vec2::new(75 * ONE, 0));
}

#[test]
fn exponential_drag_keeps_the_direction() {
    let mut object = moving(Vec2::new(-30 * ONE, -40 * ONE), 0, 500_000);
    object.update(500_000);
    assert_eq!(object.velocity, Vec2::new(-21_213_210, -28_284_280));
    assert_eq!(object.position, Vec2::new(-12_803_302, -17_071_070));
    let mut speed = object.velocity.length();
    for _ in 0..50 {
        object.update(16_000);
        assert!(object.velocity.x <= 0 && object.velocity.y <= 0);
        let heading = (object.velocity.y as f64).atan2(object.velocity.x as f64);
        assert!((heading - (-40.0f64).atan2(-30.0)).abs() < 1e-5, "heading {}", heading);
        let now = object.velocity.length();
        assert!(now < speed);
        speed = now;
    }
}

#[test]
fn both_drags_over_one_frame() {
    let mut object = moving(Vec2::new(30 * ONE, 40 * ONE), 15 * ONE, 220_000);
    object.update(16_000);
    assert_eq!(object.velocity, Vec2::new(29_137_950, 38_850_600));
    assert_eq!(object.position, Vec2::new(473_103, 630_804));
}

#[test]
fn the_position_moves_at_the_mean_velocity() {
    let mut object = moving(Vec2::new(100 * ONE, 0), 10 * ONE, ONE);
    object.update(2 * ONE);
    assert_eq!(object.velocity, Vec2::new(80 * ONE, 0));
    assert_eq!(object.position, Vec2::new(180 * ONE, 0));
}

#[test]
fn a_step_of_no_time_changes_nothing() {
    let mut object = moving(Vec2::new(30 * ONE, 40 * ONE), 15 * ONE, 220_000);
    object.update(0);
    assert_eq!(object.velocity, Vec2::new(30 * ONE, 40 * ONE));
    assert_eq!(object.position, Vec2::new(0, 0));
}

#[test]
fn update_keeps_what_it_does_not_move() {
    let mut object = moving(Vec2::new(30 * ONE, 40 * ONE), 15 * ONE, 220_000);
    object.radius = 7 * ONE;
    object.direction = Direction::new(HALF_PI);
    object.draw_shapes.push(DrawShape::new_circle());
    object.health_status = HealthStatus::Invulnerable;
    object.update(16_000);
    assert_eq!(object.radius, 7 * ONE);
    assert_eq!(object.direction.get(), HALF_PI);
    assert_eq!(object.draw_shapes.len(), 1);
    assert_eq!(object.health_status, HealthStatus::Invulnerable);
    assert_eq!(object.friction_constant, 15 * ONE);
    assert_eq!(object.friction_multiplier, 220_000);
}

#[test]
fn circles_overlap_up_to_touching() {
    let a = circle(0, 0, 3 * ONE);
    let touching = circle(3 * ONE, 4 * ONE, 2 * ONE);
    let apart = circle(3 * ONE, 4 * ONE + 1, 2 * ONE);
    assert!(GameObject::is_overlapping(&a, &touching));
    assert!(!GameObject::is_overlapping(&a, &apart));
    assert!(GameObject::is_overlapping(&a, &a));
}

#[test]
fn overlap_is_mutual() {
    let objects = [
        circle(0, 0, 3 * ONE),
        circle(3 * ONE, 4 * ONE, 2 * ONE),
        circle(3 * ONE, 4 * ONE + 1, 2 * ONE),
        circle(-10 * ONE, 0, 6 * ONE),
        circle(-10 * ONE, 5 * ONE, 0),
        circle(i64::MIN, i64::MAX, i64::MAX),
    ];
    for a in &objects {
        for b in &objects {
            assert_eq!(GameObject::is_overlapping(a, b), GameObject::is_overlapping(b, a));
        }
    }
}

#[test]
fn circles_of_negative_reach_never_overlap() {
    let a = circle(0, 0, -ONE);
    let b = circle(0, 0, 0);
    assert!(!GameObject::is_overlapping(&a, &b));
}

#[test]
fn a_collision_kills_both() {
    let mut a = circle(0, 0, 3 * ONE);
    let mut b = circle(4 * ONE, 0, 2 * ONE);
    GameObject::kill_if_overlapping(&mut a, &mut b);
    assert_eq!(a.health_status, HealthStatus::Dead);
    assert_eq!(b.health_status, HealthStatus::Dead);
    GameObject::kill_if_overlapping(&mut a, &mut b);
    assert_eq!(a.health_status, HealthStatus::Dead);
    assert_eq!(b.health_status, HealthStatus::Dead);
    assert_eq!(a.position, Vec2::new(0, 0));
    assert_eq!(b.position, Vec2::new(4 * ONE, 0));
}

#[test]
fn no_collision_where_the_circles_are_apart() {
    let mut a = circle(0, 0, 3 * ONE);
    let mut b = circle(6 * ONE, 0, 2 * ONE);
    GameObject::kill_if_overlapping(&mut a, &mut b);
    assert_eq!(a.health_status, HealthStatus::Alive);
    assert_eq!(b.health_status, HealthStatus::Alive);
}

#[test]
fn a_collision_spares_the_invulnerable() {
    let mut a = circle(0, 0, 3 * ONE);
    let mut b = circle(ONE, 0, 2 * ONE);
    a.health_status = HealthStatus::Invulnerable;
    GameObject::kill_if_overlapping(&mut a, &mut b);
    assert_eq!(a.health_status, HealthStatus::Invulnerable);
    assert_eq!(b.health_status, HealthStatus::Dead);
}

#[test]
fn placing_sets_position_and_heading() {
    let mut object = GameObject::default();
    object.place(Vec2::new(100 * ONE, 0), 50 * ONE, HALF_PI);
    assert_eq!(object.position, Vec2::new(100 * ONE + 50, 50 * ONE));
    assert_eq!(object.direction.get(), HALF_PI);
    object.place(Vec2::new(0, 0), 50 * ONE, PI / 4);
    assert_eq!(object.position, Vec2::new(35_355_350, 35_355_300));
    object.place(Vec2::new(0, 0), 10 * ONE, -PI);
    assert_eq!(object.direction.get(), PI);
    assert_eq!(object.position, Vec2::new(-10 * ONE, 0));
}
