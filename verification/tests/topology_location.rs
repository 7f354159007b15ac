use geo_relate::location::{Location, Position};
use geo_relate::topology_location::{location_to_str, TopologyLocation};

const SOME_LOCATIONS: [Option<Location>; 4] = [
    None,
    Some(Location::Interior),
    Some(Location::Boundary),
    Some(Location::Exterior),
];

#[test]
fn new_on_is_line_like() {
    let t = TopologyLocation::new_on(Some(Location::Boundary));
    assert!(t.is_line());
    assert!(!t.is_area());
    assert_eq!(t.get(Position::On), Some(Location::Boundary));
    assert_eq!(t, TopologyLocation::Line { on: Some(Location::Boundary) });
}

#[test]
fn new_on_left_right_is_area_like() {
    let t = TopologyLocation::new_on_left_right(
        Some(Location::Boundary),
        Some(Location::Interior),
        Some(Location::Exterior),
    );
    assert!(t.is_area());
    assert!(!t.is_line());
    assert_eq!(t.get(Position::On), Some(Location::Boundary));
    assert_eq!(t.get(Position::Left), Some(Location::Interior));
    assert_eq!(t.get(Position::Right), Some(Location::Exterior));
}

#[test]
fn a_side_of_a_line_is_absent() {
    let t = TopologyLocation::new_on(Some(Location::Interior));
    assert_eq!(t.get(Position::Left), None);
    assert_eq!(t.get(Position::Right), None);
}

#[test]
fn flip_swaps_left_and_right_and_keeps_on() {
    for left in SOME_LOCATIONS {
        for right in SOME_LOCATIONS {
            let before =
                TopologyLocation::new_on_left_right(Some(Location::Interior), left, right);
            let mut t = before;
            t.flip();
            assert_eq!(t.get(Position::On), Some(Location::Interior));
            assert_eq!(t.get(Position::Left), right);
            assert_eq!(t.get(Position::Right), left);
            assert!(t.is_area());
            t.flip();
            assert_eq!(t, before);
        }
    }
}

#[test]
fn flip_leaves_a_line_alone() {
    let mut t = TopologyLocation::new_on(Some(Location::Exterior));
    t.flip();
    assert_eq!(t, TopologyLocation::new_on(Some(Location::Exterior)));
}

#[test]
fn is_empty_needs_every_slot_absent() {
    assert!(TopologyLocation::new_on(None).is_empty());
    assert!(!TopologyLocation::new_on(Some(Location::Exterior)).is_empty());
    assert!(TopologyLocation::new_on_left_right(None, None, None).is_empty());
    assert!(!TopologyLocation::new_on_left_right(None, None, Some(Location::Interior)).is_empty());
    assert!(!TopologyLocation::new_on_left_right(None, Some(Location::Interior), None).is_empty());
    assert!(!TopologyLocation::new_on_left_right(Some(Location::Interior), None, None).is_empty());
}

#[test]
fn is_any_empty_needs_one_slot_absent() {
    assert!(TopologyLocation::new_on(None).is_any_empty());
    assert!(!TopologyLocation::new_on(Some(Location::Exterior)).is_any_empty());
    assert!(TopologyLocation::new_on_left_right(None, None, None).is_any_empty());
    assert!(TopologyLocation::new_on_left_right(
        Some(Location::Boundary),
        Some(Location::Interior),
        None
    )
    .is_any_empty());
    assert!(TopologyLocation::new_on_left_right(
        Some(Location::Boundary),
        None,
        Some(Location::Interior)
    )
    .is_any_empty());
    assert!(!TopologyLocation::new_on_left_right(
        Some(Location::Boundary),
        Some(Location::Interior),
        Some(Location::Exterior)
    )
    .is_any_empty());
}

#[test]
fn set_all_locations_overwrites_every_slot() {
    let mut line = TopologyLocation::new_on(Some(Location::Boundary));
    line.set_all_locations(Location::Exterior);
    assert_eq!(line, TopologyLocation::new_on(Some(Location::Exterior)));

    let mut area =
        TopologyLocation::new_on_left_right(Some(Location::Boundary), None, Some(Location::Interior));
    area.set_all_locations(Location::Exterior);
    assert_eq!(
        area,
        TopologyLocation::new_on_left_right(
            Some(Location::Exterior),
            Some(Location::Exterior),
            Some(Location::Exterior)
        )
    );
}

#[test]
fn set_all_locations_if_empty_fills_absent_slots_only() {
    let mut line = TopologyLocation::new_on(Some(Location::Boundary));
    line.set_all_locations_if_empty(Location::Exterior);
    assert_eq!(line, TopologyLocation::new_on(Some(Location::Boundary)));

    let mut empty_line = TopologyLocation::new_on(None);
    empty_line.set_all_locations_if_empty(Location::Exterior);
    assert_eq!(empty_line, TopologyLocation::new_on(Some(Location::Exterior)));

    let mut area =
        TopologyLocation::new_on_left_right(Some(Location::Boundary), None, Some(Location::Interior));
    area.set_all_locations_if_empty(Location::Exterior);
    assert_eq!(
        area,
        TopologyLocation::new_on_left_right(
            Some(Location::Boundary),
            Some(Location::Exterior),
            Some(Location::Interior)
        )
    );
}

#[test]
fn set_location_replaces_one_slot() {
    let mut area = TopologyLocation::new_on_left_right(None, None, None);
    area.set_location(Position::Right, Some(Location::Interior));
    assert_eq!(area, TopologyLocation::new_on_left_right(None, None, Some(Location::Interior)));
    area.set_location(Position::Left, Some(Location::Exterior));
    area.set_location(Position::On, Some(Location::Boundary));
    assert_eq!(
        area,
        TopologyLocation::new_on_left_right(
            Some(Location::Boundary),
            Some(Location::Exterior),
            Some(Location::Interior)
        )
    );
    area.set_location(Position::Left, None);
    assert_eq!(area.get(Position::Left), None);
    assert!(area.is_area());

    let mut line = TopologyLocation::new_on(None);
    line.set_location(Position::On, Some(Location::Interior));
    assert_eq!(line, TopologyLocation::new_on(Some(Location::Interior)));
    line.set_on_location(Location::Boundary);
    assert_eq!(line, TopologyLocation::new_on(Some(Location::Boundary)));
}

#[test]
fn set_locations_fills_an_area() {
    let mut area = TopologyLocation::new_on_left_right(None, Some(Location::Boundary), None);
    area.set_locations(Location::Boundary, Location::Interior, Location::Exterior);
    assert_eq!(
        area,
        TopologyLocation::new_on_left_right(
            Some(Location::Boundary),
            Some(Location::Interior),
            Some(Location::Exterior)
        )
    );
}

#[test]
fn topology_location_renders_one_letter_per_slot() {
    assert_eq!(location_to_str(Some(Location::Interior)), "i");
    assert_eq!(location_to_str(Some(Location::Boundary)), "b");
    assert_eq!(location_to_str(Some(Location::Exterior)), "e");
    assert_eq!(location_to_str(None), "_");
    assert_eq!(TopologyLocation::new_on(Some(Location::Interior)).render(), "i");
    assert_eq!(TopologyLocation::new_on(None).render(), "_");
    // an area shows left, on, right
    assert_eq!(
        TopologyLocation::new_on_left_right(
            Some(Location::Boundary),
            Some(Location::Interior),
            Some(Location::Exterior)
        )
        .render(),
        "ibe"
    );
    assert_eq!(
        TopologyLocation::new_on_left_right(Some(Location::Boundary), None, None).render(),
        "_b_"
    );
}
