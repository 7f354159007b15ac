use geo_relate::label::Label;
use geo_relate::location::{Location, Position};
use geo_relate::topology_location::TopologyLocation;

#[test]
fn new_with_on_location_is_line_like_for_both() {
    let label = Label::new_with_on_location(Some(Location::Interior));
    for g in 0..2usize {
        assert!(label.is_line(g));
        assert!(!label.is_geom_area(g));
        assert_eq!(label.on_location(g), Some(Location::Interior));
        assert_eq!(label.location(g, Position::Left), None);
    }
    assert!(!label.is_area());
}

#[test]
fn new_with_geom_on_location_sets_one_geometry() {
    let first = Label::new_with_geom_on_location(0, Some(Location::Boundary));
    assert_eq!(first.on_location(0), Some(Location::Boundary));
    assert_eq!(first.on_location(1), None);
    assert!(first.is_line(0) && first.is_line(1));

    let second = Label::new_with_geom_on_location(1, Some(Location::Exterior));
    assert_eq!(second.on_location(0), None);
    assert_eq!(second.on_location(1), Some(Location::Exterior));

    let neither = Label::new_with_geom_on_location(2, Some(Location::Exterior));
    assert_eq!(neither.on_location(0), None);
    assert_eq!(neither.on_location(1), None);
    assert_eq!(neither.geometry_count(), 0);
}

#[test]
fn new_with_locations_is_area_like_for_both() {
    let label = Label::new_with_locations(
        Some(Location::Boundary),
        Some(Location::Exterior),
        Some(Location::Interior),
    );
    for g in 0..2usize {
        assert!(label.is_geom_area(g));
        assert!(!label.is_line(g));
        assert_eq!(label.location(g, Position::On), Some(Location::Boundary));
        assert_eq!(label.location(g, Position::Left), Some(Location::Exterior));
        assert_eq!(label.location(g, Position::Right), Some(Location::Interior));
    }
    assert!(label.is_area());
}

#[test]
fn new_with_geom_locations_sets_one_geometry() {
    let label =
        Label::new_with_geom_locations(1, Location::Boundary, Location::Exterior, Location::Interior);
    assert!(label.is_geom_area(0) && label.is_geom_area(1));
    assert!(label.is_empty(0));
    assert!(!label.is_empty(1));
    assert_eq!(label.location(1, Position::On), Some(Location::Boundary));
    assert_eq!(label.location(1, Position::Left), Some(Location::Exterior));
    assert_eq!(label.location(1, Position::Right), Some(Location::Interior));
    assert_eq!(label.elt[0], TopologyLocation::new_on_left_right(None, None, None));

    let other =
        Label::new_with_geom_locations(0, Location::Interior, Location::Interior, Location::Exterior);
    assert!(other.is_empty(1));
    assert_eq!(other.location(0, Position::Right), Some(Location::Exterior));
}

#[test]
fn label_flip_flips_both_geometries() {
    let mut label = Label {
        elt: [
            TopologyLocation::new_on_left_right(
                Some(Location::Boundary),
                Some(Location::Exterior),
                Some(Location::Interior),
            ),
            TopologyLocation::new_on_left_right(None, Some(Location::Interior), None),
        ],
    };
    let before = label;
    label.flip();
    assert_eq!(label.location(0, Position::On), Some(Location::Boundary));
    assert_eq!(label.location(0, Position::Left), Some(Location::Interior));
    assert_eq!(label.location(0, Position::Right), Some(Location::Exterior));
    assert_eq!(label.location(1, Position::On), None);
    assert_eq!(label.location(1, Position::Left), None);
    assert_eq!(label.location(1, Position::Right), Some(Location::Interior));
    label.flip();
    assert_eq!(label, before);
}

#[test]
fn label_flip_leaves_a_line_slot_alone() {
    let mut label = Label {
        elt: [
            TopologyLocation::new_on(Some(Location::Interior)),
            TopologyLocation::new_on_left_right(
                Some(Location::Boundary),
                Some(Location::Exterior),
                Some(Location::Interior),
            ),
        ],
    };
    label.flip();
    assert_eq!(label.elt[0], TopologyLocation::new_on(Some(Location::Interior)));
    assert_eq!(label.location(1, Position::Left), Some(Location::Interior));
    assert_eq!(label.location(1, Position::Right), Some(Location::Exterior));
    assert!(label.is_area());
    assert!(label.is_line(0));
    assert!(label.is_geom_area(1));
}

#[test]
fn label_setters_touch_one_geometry() {
    let mut label = Label::new_with_locations(None, None, None);
    label.set_location(0, Position::Left, Location::Interior);
    label.set_on_location(1, Some(Location::Boundary));
    assert_eq!(label.location(0, Position::Left), Some(Location::Interior));
    assert_eq!(label.location(0, Position::On), None);
    assert_eq!(label.location(0, Position::Right), None);
    assert_eq!(label.location(1, Position::On), Some(Location::Boundary));
    assert_eq!(label.location(1, Position::Left), None);
    label.set_on_location(1, None);
    assert_eq!(label.location(1, Position::On), None);
}

#[test]
fn label_set_all_locations_fills_one_geometry() {
    let mut label = Label::new_with_locations(Some(Location::Boundary), None, None);
    label.set_all_locations(0, Location::Exterior);
    assert_eq!(
        label.elt[0],
        TopologyLocation::new_on_left_right(
            Some(Location::Exterior),
            Some(Location::Exterior),
            Some(Location::Exterior)
        )
    );
    assert_eq!(
        label.elt[1],
        TopologyLocation::new_on_left_right(Some(Location::Boundary), None, None)
    );
    label.set_all_locations_if_empty(1, Location::Interior);
    assert_eq!(
        label.elt[1],
        TopologyLocation::new_on_left_right(
            Some(Location::Boundary),
            Some(Location::Interior),
            Some(Location::Interior)
        )
    );
}

#[test]
fn geometry_count_counts_non_empty_geometries() {
    assert_eq!(Label::new_with_on_location(None).geometry_count(), 0);
    assert_eq!(Label::new_with_locations(None, None, None).geometry_count(), 0);
    assert_eq!(Label::new_with_geom_on_location(0, Some(Location::Interior)).geometry_count(), 1);
    assert_eq!(Label::new_with_geom_on_location(1, Some(Location::Interior)).geometry_count(), 1);
    assert_eq!(Label::new_with_on_location(Some(Location::Exterior)).geometry_count(), 2);
    assert_eq!(
        Label::new_with_locations(None, None, Some(Location::Interior)).geometry_count(),
        2
    );
}

#[test]
fn label_is_any_empty_looks_at_one_geometry() {
    let label =
        Label::new_with_geom_locations(0, Location::Boundary, Location::Exterior, Location::Interior);
    assert!(!label.is_any_empty(0));
    assert!(label.is_any_empty(1));
    assert!(!label.is_empty(0));
    assert!(label.is_empty(1));
}

#[test]
fn label_renders_both_geometries() {
    assert_eq!(
        Label::new_with_geom_on_location(0, Some(Location::Interior)).render(),
        "Label { A: i, B: _ }"
    );
    assert_eq!(
        Label::new_with_geom_locations(1, Location::Boundary, Location::Exterior, Location::Interior)
            .render(),
        "Label { A: ___, B: ebi }"
    );
}
