use bevoids::boid::{integration, Integration, Proximity};
use bevoids::border::{Axis, Push};
use bevoids::config::Orientation;
use bevoids::neighbours::{neighbours, FlockMember, Sighting};
use bevoids::scalar::{Scalar, Vector};
use bevoids::{
    Boid, BoidBorder, BoidCollisionGroup, BoidSpace, BoidSpeed, BoidTurningStrength,
    BoidViewConfig, BoidsConfig,
};
use bevy::math::Vec3;

fn scalar(number: f32) -> Scalar {
    Scalar::from_bits(number.to_bits())
}

fn number(scalar: Scalar) -> f32 {
    f32::from_bits(scalar.to_bits())
}

fn vector(vector: Vec3) -> Vector {
    Vector::new(scalar(vector.x), scalar(vector.y), scalar(vector.z))
}

fn vec3(vector: Vector) -> Vec3 {
    Vec3::new(number(vector.x), number(vector.y), number(vector.z))
}

struct Flyer {
    member: FlockMember,
    position: Vec3,
    boid: Boid,
    border: Option<BoidBorder>,
}

fn flyer(id: u64, position: Vec3, separation: f32, border: Option<BoidBorder>) -> Flyer {
    Flyer {
        member: FlockMember { id, group: None },
        position,
        boid: Boid::new(
            BoidSpeed::new(scalar(400.0), scalar(1000.0)),
            BoidTurningStrength::new(scalar(0.0), scalar(separation), scalar(0.0), scalar(200.0)),
            BoidViewConfig::new(240, scalar(60.0), scalar(120.0)),
        ),
        border,
    }
}

fn ramp(point: f32, start: f32, end: f32) -> f32 {
    (point - start) / (end - start).clamp(0.0, f32::MAX)
}

fn avoidance(border: &BoidBorder, position: Vec3, strength: f32) -> Vec3 {
    let mut movement = Vec3::ZERO;
    for wall in border.walls() {
        let (point, margin) = (number(wall.point), number(wall.margin));
        let (coordinate, pushed) = match wall.face.axis() {
            Axis::X => (position.x, &mut movement.x),
            Axis::Y => (position.y, &mut movement.y),
            Axis::Z => (position.z, &mut movement.z),
        };
        match wall.face.push() {
            Push::Positive => {
                let edge = point + margin;
                if wall.face.entered(scalar(coordinate), scalar(edge)) {
                    *pushed += strength * (1.0 - ramp(coordinate, point, edge));
                }
            }
            Push::Negative => {
                let edge = point - margin;
                if wall.face.entered(scalar(coordinate), scalar(edge)) {
                    *pushed -= strength * ramp(coordinate, edge, point);
                }
            }
        }
    }
    movement
}

fn separation(flock: &[Flyer], at: usize) -> Vec3 {
    let subject = &flock[at];
    let sightings: Vec<Sighting> = flock
        .iter()
        .map(|other| Sighting {
            member: other.member,
            distance: scalar(subject.position.distance(other.position)),
        })
        .collect();
    let mut pushed = Vec3::ZERO;
    for neighbour in neighbours(&subject.member, &subject.boid.view_config, &sightings) {
        if neighbour.proximity == Proximity::Protected {
            let away = (flock[neighbour.index].position - subject.position).normalize();
            let strength = number(subject.boid.view_config.protected_range)
                - number(sightings[neighbour.index].distance);
            pushed -= away * strength;
        }
    }
    pushed
}

fn step(flock: &mut Vec<Flyer>, elapsed: f32) {
    let before: Vec<(Vec3, Vec3, FlockMember)> = flock
        .iter()
        .map(|flyer| (flyer.position, vec3(flyer.boid.velocity()), flyer.member))
        .collect();
    for flyer in flock.iter_mut() {
        let strength = flyer.boid.turning_strength;
        let sightings: Vec<Sighting> = before
            .iter()
            .map(|(position, _, member)| Sighting {
                member: *member,
                distance: scalar(flyer.position.distance(*position)),
            })
            .collect();
        let found = neighbours(&flyer.member, &flyer.boid.view_config, &sightings);
        let velocity = vec3(flyer.boid.velocity());
        let mut movement = Vec3::ZERO;
        let mut pushed = Vec3::ZERO;
        let mut average_velocity = Vec3::ZERO;
        let mut average_position = Vec3::ZERO;
        for neighbour in &found {
            let (position, their_velocity, _) = before[neighbour.index];
            if neighbour.proximity == Proximity::Protected {
                let away = (position - flyer.position).normalize();
                pushed -= away
                    * (number(flyer.boid.view_config.protected_range)
                        - number(sightings[neighbour.index].distance));
            }
            average_velocity += their_velocity;
            average_position += position;
        }
        if !found.is_empty() {
            average_velocity /= found.len() as f32;
            average_position /= found.len() as f32;
            movement += (average_velocity - velocity) * number(strength.alignment);
            movement += (average_position - flyer.position) * number(strength.coherence);
        }
        movement += pushed * number(strength.separation);
        if let Some(border) = &flyer.border {
            movement += avoidance(border, flyer.position, number(strength.border));
        }
        let candidate = velocity + movement;
        let (min, max) = (number(flyer.boid.speed.min()), number(flyer.boid.speed.max()));
        let renewed = match integration(scalar(candidate.length_squared())) {
            Integration::Clamped => candidate.clamp_length(min, max),
            Integration::Fallback => Vec3::X * min,
        };
        flyer.boid.velocity = vector(renewed);
        flyer.position += renewed * elapsed;
    }
}

#[test]
fn two_close_boids_part_at_their_least_speed() {
    let mut flock = vec![
        flyer(1, Vec3::new(0.0, 0.0, 0.0), 0.4, None),
        flyer(2, Vec3::new(10.0, 0.0, 0.0), 0.4, None),
    ];
    step(&mut flock, 0.5);
    let first = vec3(flock[0].boid.velocity());
    let second = vec3(flock[1].boid.velocity());
    assert_eq!(first, Vec3::new(-400.0, 0.0, 0.0));
    assert_eq!(second, Vec3::new(400.0, 0.0, 0.0));
    assert_eq!(first.length(), 400.0);
    assert_eq!(second.length(), 400.0);
    assert_eq!(flock[0].position, Vec3::new(-200.0, 0.0, 0.0));
    assert_eq!(flock[1].position, Vec3::new(210.0, 0.0, 0.0));
}

#[test]
fn two_close_boids_turn_as_their_space_asks() {
    let mut flock = vec![
        flyer(1, Vec3::new(0.0, 0.0, 0.0), 0.4, None),
        flyer(2, Vec3::new(10.0, 0.0, 0.0), 0.4, None),
    ];
    let plane = BoidsConfig { space: BoidSpace::TwoDimensional, debug: false };
    let space = BoidsConfig { space: BoidSpace::ThreeDimensional, debug: false };
    for flyer in &flock {
        assert_eq!(plane.orientation(flyer.boid.velocity()), Orientation::Unchanged);
    }
    step(&mut flock, 0.5);
    for flyer in &flock {
        assert_eq!(plane.orientation(flyer.boid.velocity()), Orientation::UpAlongVelocity);
        assert_eq!(space.orientation(flyer.boid.velocity()), Orientation::ForwardAlongVelocity);
    }
}

#[test]
fn separation_pushes_two_boids_apart_by_the_same_amount() {
    let flock = vec![
        flyer(1, Vec3::new(0.0, 0.0, 0.0), 0.4, None),
        flyer(2, Vec3::new(10.0, 0.0, 0.0), 0.4, None),
    ];
    assert_eq!(separation(&flock, 0), Vec3::new(-50.0, 0.0, 0.0));
    assert_eq!(separation(&flock, 1), Vec3::new(50.0, 0.0, 0.0));
    let askew = vec![
        flyer(1, Vec3::new(3.0, -4.0, 12.0), 0.4, None),
        flyer(2, Vec3::new(-6.0, 8.5, 7.25), 0.4, None),
    ];
    assert_eq!(separation(&askew, 0), -separation(&askew, 1));
}

#[test]
fn boids_in_separate_groups_do_not_push_each_other() {
    let mut flock = vec![
        flyer(1, Vec3::new(0.0, 0.0, 0.0), 0.4, None),
        flyer(2, Vec3::new(10.0, 0.0, 0.0), 0.4, None),
    ];
    flock[0].member.group = BoidCollisionGroup::group(1);
    flock[1].member.group = BoidCollisionGroup::group(2);
    assert_eq!(separation(&flock, 0), Vec3::ZERO);
    assert_eq!(separation(&flock, 1), Vec3::ZERO);
    step(&mut flock, 1.0);
    assert_eq!(vec3(flock[0].boid.velocity()), Vec3::new(400.0, 0.0, 0.0));
    assert_eq!(vec3(flock[1].boid.velocity()), Vec3::new(400.0, 0.0, 0.0));
}

#[test]
fn boids_at_one_place_do_not_push_each_other() {
    let mut flock = vec![
        flyer(1, Vec3::new(5.0, 5.0, 0.0), 0.4, None),
        flyer(2, Vec3::new(5.0, 5.0, 0.0), 0.4, None),
    ];
    assert_eq!(separation(&flock, 0), Vec3::ZERO);
    step(&mut flock, 1.0);
    for flyer in &flock {
        assert_eq!(vec3(flyer.boid.velocity()), Vec3::new(400.0, 0.0, 0.0));
        assert_eq!(flyer.position, Vec3::new(405.0, 5.0, 0.0));
    }
}

#[test]
fn a_boid_alone_moves_along_x_at_its_least_speed() {
    let mut flock = vec![flyer(1, Vec3::new(1.0, 2.0, 3.0), 0.4, None)];
    step(&mut flock, 0.25);
    assert_eq!(vec3(flock[0].boid.velocity()), Vec3::new(400.0, 0.0, 0.0));
    assert_eq!(flock[0].position, Vec3::new(101.0, 2.0, 3.0));
}

#[test]
fn the_speed_stays_within_its_limits_step_after_step() {
    let mut flock = vec![
        flyer(1, Vec3::new(0.0, 0.0, 0.0), 0.4, None),
        flyer(2, Vec3::new(10.0, 3.0, 0.0), 0.4, None),
        flyer(3, Vec3::new(-20.0, 15.0, 4.0), 0.4, None),
    ];
    for _ in 0..20 {
        step(&mut flock, 0.01);
        for flyer in &flock {
            let speed = vec3(flyer.boid.velocity()).length();
            assert!((400.0 * 0.9999..=1000.0 * 1.0001).contains(&speed), "{speed}");
        }
    }
}

#[test]
fn the_left_wall_pushes_with_full_strength_at_the_wall() {
    let border = BoidBorder {
        top: None,
        bottom: None,
        left: Some((scalar(-1200.0), scalar(400.0))),
        right: None,
        front: None,
        back: None,
    };
    let pushed = avoidance(&border, Vec3::new(-1200.0, 0.0, 0.0), 200.0);
    assert_eq!(pushed, Vec3::new(200.0, 0.0, 0.0));
}

#[test]
fn each_wall_pushes_not_at_all_at_the_edge_of_its_margin_and_fully_at_the_wall() {
    let border = BoidBorder {
        top: Some((scalar(650.0), scalar(400.0))),
        bottom: Some((scalar(-650.0), scalar(400.0))),
        left: Some((scalar(-1200.0), scalar(400.0))),
        right: Some((scalar(1200.0), scalar(400.0))),
        front: Some((scalar(-2000.0), scalar(400.0))),
        back: Some((scalar(2000.0), scalar(400.0))),
    };
    assert_eq!(avoidance(&border, Vec3::new(-800.0, 250.0, -1600.0), 200.0), Vec3::ZERO);
    assert_eq!(avoidance(&border, Vec3::new(800.0, -250.0, 1600.0), 200.0), Vec3::ZERO);
    assert_eq!(avoidance(&border, Vec3::ZERO, 200.0), Vec3::ZERO);
    assert_eq!(
        avoidance(&border, Vec3::new(-1200.0, -650.0, -2000.0), 200.0),
        Vec3::new(200.0, 200.0, 200.0)
    );
    assert_eq!(
        avoidance(&border, Vec3::new(1200.0, 650.0, 2000.0), 200.0),
        Vec3::new(-200.0, -200.0, -200.0)
    );
    assert_eq!(
        avoidance(&border, Vec3::new(-1000.0, 450.0, 0.0), 200.0),
        Vec3::new(100.0, -100.0, 0.0)
    );
}

#[test]
fn a_wall_behind_the_boid_pushes_harder_than_at_the_wall() {
    let border = BoidBorder {
        top: None,
        bottom: None,
        left: Some((scalar(-1200.0), scalar(400.0))),
        right: Some((scalar(1200.0), scalar(400.0))),
        front: None,
        back: None,
    };
    assert_eq!(avoidance(&border, Vec3::new(-1600.0, 0.0, 0.0), 200.0), Vec3::new(400.0, 0.0, 0.0));
    assert_eq!(avoidance(&border, Vec3::new(1400.0, 0.0, 0.0), 200.0), Vec3::new(-300.0, 0.0, 0.0));
}

#[test]
fn a_boid_at_the_left_wall_turns_back_into_the_border() {
    let border = BoidBorder {
        top: None,
        bottom: None,
        left: Some((scalar(-1200.0), scalar(400.0))),
        right: None,
        front: None,
        back: None,
    };
    let mut flock = vec![flyer(1, Vec3::new(-1200.0, 0.0, 0.0), 0.4, Some(border))];
    flock[0].boid.velocity = vector(Vec3::new(-450.0, 0.0, 0.0));
    step(&mut flock, 1.0);
    assert_eq!(vec3(flock[0].boid.velocity()), Vec3::new(-400.0, 0.0, 0.0));
    step(&mut flock, 1.0);
    step(&mut flock, 1.0);
    assert!(vec3(flock[0].boid.velocity()).x > 0.0);
}

#[test]
fn the_order_in_which_boids_are_moved_does_not_matter() {
    let places = [
        Vec3::new(0.0, 0.0, 0.0),
        Vec3::new(16.0, 0.0, 0.0),
        Vec3::new(0.0, 32.0, 0.0),
        Vec3::new(0.0, 0.0, -64.0),
    ];
    let orders: [[usize; 4]; 4] = [[0, 1, 2, 3], [3, 2, 1, 0], [1, 3, 0, 2], [2, 0, 3, 1]];
    let mut outcomes: Vec<Vec<(Vec3, Vec3)>> = Vec::new();
    for order in orders {
        let mut flock: Vec<Flyer> =
            order.iter().map(|&at| flyer(at as u64, places[at], 0.5, None)).collect();
        for flyer in flock.iter_mut() {
            flyer.boid.turning_strength.alignment = scalar(0.25);
            flyer.boid.turning_strength.coherence = scalar(0.125);
        }
        step(&mut flock, 0.5);
        step(&mut flock, 0.5);
        let mut outcome = vec![(Vec3::ZERO, Vec3::ZERO); 4];
        for flyer in &flock {
            outcome[flyer.member.id as usize] = (flyer.position, vec3(flyer.boid.velocity()));
        }
        outcomes.push(outcome);
    }
    assert_ne!(outcomes[0][0].1, outcomes[0][1].1);
    for outcome in &outcomes {
        for (found, expected) in outcome.iter().zip(&outcomes[0]) {
            assert!(found.0.abs_diff_eq(expected.0, 1.0e-3), "{found:?} {expected:?}");
            assert!(found.1.abs_diff_eq(expected.1, 1.0e-3), "{found:?} {expected:?}");
        }
    }
}
