use geo_relate::boundary_node_rule::{determine_boundary, BoundaryNodeRule, Mod2BoundaryNodeRule};
use geo_relate::dimensions::Dimensions;
use geo_relate::location::Location;

#[test]
fn dimensions_are_ordered_from_empty_to_two() {
    assert!(Dimensions::Empty < Dimensions::ZeroDimensional);
    assert!(Dimensions::ZeroDimensional < Dimensions::OneDimensional);
    assert!(Dimensions::OneDimensional < Dimensions::TwoDimensional);
    assert!(Dimensions::Empty < Dimensions::TwoDimensional);
    assert!(!(Dimensions::OneDimensional < Dimensions::OneDimensional));
    assert!(Dimensions::OneDimensional <= Dimensions::OneDimensional);
    assert_eq!(
        Dimensions::TwoDimensional.partial_cmp(&Dimensions::Empty),
        Some(std::cmp::Ordering::Greater)
    );
    assert_eq!(
        Dimensions::ZeroDimensional.cmp(&Dimensions::OneDimensional),
        std::cmp::Ordering::Less
    );
}

#[test]
fn max_is_the_larger_dimension() {
    assert_eq!(
        Dimensions::max(Dimensions::Empty, Dimensions::ZeroDimensional),
        Dimensions::ZeroDimensional
    );
    assert_eq!(
        Dimensions::max(Dimensions::TwoDimensional, Dimensions::OneDimensional),
        Dimensions::TwoDimensional
    );
    assert_eq!(
        Dimensions::max(Dimensions::OneDimensional, Dimensions::OneDimensional),
        Dimensions::OneDimensional
    );
}

#[test]
fn dimensions_map_to_pattern_characters() {
    assert_eq!(Dimensions::Empty.to_str(), "F");
    assert_eq!(Dimensions::ZeroDimensional.to_str(), "0");
    assert_eq!(Dimensions::OneDimensional.to_str(), "1");
    assert_eq!(Dimensions::TwoDimensional.to_str(), "2");
    assert_eq!(Dimensions::from_char('F'), Some(Dimensions::Empty));
    assert_eq!(Dimensions::from_char('0'), Some(Dimensions::ZeroDimensional));
    assert_eq!(Dimensions::from_char('1'), Some(Dimensions::OneDimensional));
    assert_eq!(Dimensions::from_char('2'), Some(Dimensions::TwoDimensional));
    assert_eq!(Dimensions::from_char('f'), None);
    assert_eq!(Dimensions::from_char('3'), None);
    assert_eq!(Dimensions::from_char('T'), None);
    assert_eq!(Dimensions::from_char('*'), None);
}

#[test]
fn locations_index_the_matrix_rows() {
    assert_eq!(Location::Interior.to_index(), 0);
    assert_eq!(Location::Boundary.to_index(), 1);
    assert_eq!(Location::Exterior.to_index(), 2);
}

#[test]
fn mod2_rule_puts_odd_counts_on_the_boundary() {
    let rule = Mod2BoundaryNodeRule;
    assert!(!rule.is_in_boundary(0));
    assert!(rule.is_in_boundary(1));
    assert!(!rule.is_in_boundary(2));
    assert!(rule.is_in_boundary(3));
    assert!(rule.is_in_boundary(usize::MAX));
    assert_eq!(determine_boundary(&rule, 0), Location::Interior);
    assert_eq!(determine_boundary(&rule, 1), Location::Boundary);
    assert_eq!(determine_boundary(&rule, 2), Location::Interior);
    assert_eq!(determine_boundary(&rule, 3), Location::Boundary);
    assert_eq!(determine_boundary(&rule, 4), Location::Interior);
}
