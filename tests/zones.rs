use gc_viewer::input_sequence::ControllerAction;
use gc_viewer::zones::{
    deadzone, down_smash, everything, get_some_zones, left_smash, right_smash, track_zones,
    up_smash, CStick, Plane, PlaneWithZones, SquareZone, Test1, Test2, Zone, ZoneColor, ZoneTrait,
};

#[test]
fn square_zone_bounds_are_inclusive() {
    let z = deadzone();
    assert!(z.in_zone((23, -23)));
    assert!(!z.in_zone((24, 0)));
    assert!(everything().in_zone((-128, 127)));
    assert!(right_smash().in_zone((64, 0)));
    assert!(!right_smash().in_zone((63, 0)));
    assert!(left_smash().in_zone((-64, 5)));
    assert!(up_smash().in_zone((0, 53)));
    assert!(down_smash().in_zone((0, -53)));
    assert_eq!(Zone::SquareZone(up_smash()).get_name(), "up smash");
}

#[test]
fn watched_zones() {
    let zones = get_some_zones();
    let names: Vec<&str> = zones.iter().map(|z| z.get_name()).collect();
    assert_eq!(names, vec!["deadzone", "f smash right", "f smash left", "up smash", "down smash"]);
}

#[test]
fn first_listed_zone_colours_a_point() {
    let plane = PlaneWithZones::default_plane();
    assert_eq!(plane.get_zone((0, 0)).name, "deadzone");
    assert_eq!(plane.get_zone((70, 60)).name, "f smash");
    assert_eq!(plane.get_zone((0, 60)).name, "up smash");
    assert_eq!(plane.get_zone((0, -60)).name, "d smash");
    let other = plane.get_zone((30, 30));
    assert_eq!(other.name, "idk lol");
    assert_eq!(other.bg_color, (0x70, 0x70, 0x70));
    assert_eq!(other.fg_color, (0xff, 0xff, 0xff));
    assert_eq!(plane.get_name(), "zones");
}

#[test]
fn custom_plane() {
    let mut plane = PlaneWithZones::new();
    assert_eq!(plane.get_zone((0, 0)).name, "idk lol");
    let color = ZoneColor { name: "box".to_string(), bg_color: (1, 2, 3), fg_color: (4, 5, 6) };
    plane.add_zone(Zone::SquareZone(SquareZone::new(-5, 5, -5, 5, "box")), color.clone());
    assert_eq!(plane.get_zone((5, 5)), color);
}

#[test]
fn attack_regions() {
    let p = Test2 {};
    assert_eq!(p.get_zone((80, 80)).name, "out of bounds");
    assert_eq!(p.get_zone((0, 0)).name, "deadzone");
    assert_eq!(p.get_zone((64, 0)).name, "f smash");
    assert_eq!(p.get_zone((-70, 10)).name, "f smash");
    assert_eq!(p.get_zone((30, 53)).name, "up smash");
    assert_eq!(p.get_zone((30, -53)).name, "d smash");
    assert_eq!(p.get_zone((40, 10)).name, "f tilt");
    assert_eq!(p.get_zone((10, 40)).name, "up tilt");
    assert_eq!(p.get_zone((-10, -40)).name, "d tilt");
    assert_eq!(p.get_zone((40, 40)).name, "idk lol");
    assert_eq!(p.get_name(), "test2");
}

#[test]
fn simple_planes() {
    assert_eq!(Test1 {}.get_zone((22, -22)).name, "deadzone");
    assert_eq!(Test1 {}.get_zone((-128, 0)).name, "live");
    assert_eq!(Test1 {}.get_name(), "test1");
    let c = CStick {};
    assert_eq!(c.get_zone((100, 0)).name, "out of bounds");
    assert_eq!(c.get_zone((100, 0)).fg_color, (0x50, 0, 0));
    assert_eq!(c.get_zone((0, 0)).name, "deadzone");
    assert_eq!(c.get_zone((0, 50)).name, "yellow");
    assert_eq!(c.get_name(), "c stick");
}

#[test]
fn zone_crossings_become_actions() {
    let mut zones: Vec<(Zone, bool)> = get_some_zones().into_iter().map(|z| (z, false)).collect();
    let first = track_zones(&mut zones, (0, 0));
    assert_eq!(first, vec![ControllerAction::Enter(Zone::SquareZone(deadzone()))]);
    assert!(zones[0].1);
    let second = track_zones(&mut zones, (70, 60));
    assert_eq!(
        second,
        vec![
            ControllerAction::Leave(Zone::SquareZone(deadzone())),
            ControllerAction::Enter(Zone::SquareZone(right_smash())),
            ControllerAction::Enter(Zone::SquareZone(up_smash())),
        ]
    );
    assert!(track_zones(&mut zones, (70, 60)).is_empty());
}
