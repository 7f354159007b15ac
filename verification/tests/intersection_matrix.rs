use geo_relate::dimensions::Dimensions;
use geo_relate::intersection_matrix::{IntersectionMatrix, MalformedPatternString};
use geo_relate::location::Location;

const LOCATIONS: [Location; 3] = [Location::Interior, Location::Boundary, Location::Exterior];

const DIMENSIONS: [Dimensions; 4] = [
    Dimensions::Empty,
    Dimensions::ZeroDimensional,
    Dimensions::OneDimensional,
    Dimensions::TwoDimensional,
];

fn matrix(pattern: &str) -> IntersectionMatrix {
    match IntersectionMatrix::from_str(pattern) {
        Ok(m) => m,
        Err(_) => panic!("{} should be a pattern", pattern),
    }
}

#[test]
fn empty_matrix_has_nine_empty_cells() {
    let m = IntersectionMatrix::empty();
    assert_eq!(m.render(), "FFFFFFFFF");
    for a in LOCATIONS {
        for b in LOCATIONS {
            assert_eq!(m.get(a, b), Dimensions::Empty);
        }
    }
}

#[test]
fn new_takes_the_rows_in_order() {
    let m = IntersectionMatrix::new([
        [Dimensions::TwoDimensional, Dimensions::OneDimensional, Dimensions::ZeroDimensional],
        [Dimensions::Empty, Dimensions::ZeroDimensional, Dimensions::OneDimensional],
        [Dimensions::OneDimensional, Dimensions::Empty, Dimensions::TwoDimensional],
    ]);
    assert_eq!(m.render(), "210F011F2");
    assert_eq!(m.get(Location::Interior, Location::Boundary), Dimensions::OneDimensional);
    assert_eq!(m.get(Location::Boundary, Location::Interior), Dimensions::Empty);
    assert_eq!(m.get(Location::Exterior, Location::Exterior), Dimensions::TwoDimensional);
}

#[test]
fn set_overwrites_one_cell_only() {
    let mut m = matrix("222222222");
    m.set(Location::Boundary, Location::Exterior, Dimensions::Empty);
    assert_eq!(m.render(), "22222F222");
    m.set(Location::Interior, Location::Interior, Dimensions::OneDimensional);
    assert_eq!(m.render(), "12222F222");
}

#[test]
fn set_at_least_never_lowers_a_cell() {
    let mut m = IntersectionMatrix::empty();
    m.set_at_least(Location::Interior, Location::Interior, Dimensions::TwoDimensional);
    m.set_at_least(Location::Interior, Location::Interior, Dimensions::OneDimensional);
    assert_eq!(m.get(Location::Interior, Location::Interior), Dimensions::TwoDimensional);
    assert_eq!(m.render(), "2FFFFFFFF");
}

#[test]
fn set_at_least_raises_a_lower_cell() {
    let mut m = matrix("0FFFFFFFF");
    m.set_at_least(Location::Interior, Location::Interior, Dimensions::OneDimensional);
    assert_eq!(m.render(), "1FFFFFFFF");
    m.set_at_least(Location::Exterior, Location::Boundary, Dimensions::Empty);
    assert_eq!(m.render(), "1FFFFFFFF");
    m.set_at_least(Location::Exterior, Location::Boundary, Dimensions::ZeroDimensional);
    assert_eq!(m.render(), "1FFFFFF0F");
}

#[test]
fn set_at_least_gives_the_larger_in_either_order() {
    for a in LOCATIONS {
        for b in LOCATIONS {
            for (i, d1) in DIMENSIONS.iter().enumerate() {
                for d2 in DIMENSIONS.iter().skip(i) {
                    let mut first = IntersectionMatrix::empty();
                    first.set_at_least(a, b, *d1);
                    first.set_at_least(a, b, *d2);
                    let mut second = IntersectionMatrix::empty();
                    second.set_at_least(a, b, *d2);
                    second.set_at_least(a, b, *d1);
                    assert_eq!(first.get(a, b), *d2);
                    assert_eq!(second.get(a, b), *d2);
                    assert!(first == second);
                }
            }
        }
    }
}

#[test]
fn set_at_least_on_two_cells_commutes() {
    let mut first = matrix("F1F0F2FFF");
    first.set_at_least(Location::Interior, Location::Boundary, Dimensions::TwoDimensional);
    first.set_at_least(Location::Boundary, Location::Exterior, Dimensions::OneDimensional);
    let mut second = matrix("F1F0F2FFF");
    second.set_at_least(Location::Boundary, Location::Exterior, Dimensions::OneDimensional);
    second.set_at_least(Location::Interior, Location::Boundary, Dimensions::TwoDimensional);
    assert_eq!(first.render(), "F2F0F2FFF");
    assert_eq!(second.render(), "F2F0F2FFF");
}

#[test]
fn set_at_least_if_valid_needs_both_locations() {
    let mut m = IntersectionMatrix::empty();
    m.set_at_least_if_valid(None, Some(Location::Interior), Dimensions::TwoDimensional);
    m.set_at_least_if_valid(Some(Location::Interior), None, Dimensions::TwoDimensional);
    m.set_at_least_if_valid(None, None, Dimensions::TwoDimensional);
    assert_eq!(m.render(), "FFFFFFFFF");
    m.set_at_least_if_valid(
        Some(Location::Boundary),
        Some(Location::Interior),
        Dimensions::OneDimensional,
    );
    assert_eq!(m.render(), "FFF1FFFFF");
    m.set_at_least_if_valid(
        Some(Location::Boundary),
        Some(Location::Interior),
        Dimensions::ZeroDimensional,
    );
    assert_eq!(m.render(), "FFF1FFFFF");
}

#[test]
fn parsing_then_rendering_gives_the_pattern_back() {
    let m = matrix("212101212");
    assert_eq!(m.render(), "212101212");
    assert_eq!(m.get(Location::Interior, Location::Interior), Dimensions::TwoDimensional);
    assert_eq!(m.get(Location::Interior, Location::Boundary), Dimensions::OneDimensional);
    assert_eq!(m.get(Location::Boundary, Location::Boundary), Dimensions::ZeroDimensional);
    assert_eq!(m.get(Location::Exterior, Location::Boundary), Dimensions::OneDimensional);
}

#[test]
fn every_pattern_survives_the_round_trip() {
    let letters: [char; 4] = ['F', '0', '1', '2'];
    let mut code: u32 = 0;
    while code < 4u32.pow(9) {
        let mut pattern = String::new();
        let mut rest: u32 = code;
        for _ in 0..9 {
            pattern.push(letters[(rest % 4) as usize]);
            rest /= 4;
        }
        assert_eq!(matrix(&pattern).render(), pattern);
        code += 1;
    }
}

#[test]
fn rendering_then_parsing_gives_the_matrix_back() {
    let mut m = IntersectionMatrix::empty();
    m.set(Location::Interior, Location::Exterior, Dimensions::TwoDimensional);
    m.set(Location::Boundary, Location::Boundary, Dimensions::ZeroDimensional);
    m.set(Location::Exterior, Location::Interior, Dimensions::OneDimensional);
    assert_eq!(m.render(), "FF2F0F1FF");
    assert!(matrix(&m.render()) == m);
}

#[test]
fn set_at_least_from_string_raises_cell_by_cell() {
    let mut m = matrix("2F10F1F02");
    assert_eq!(m.set_at_least_from_string("10F21FF1F"), Ok(()));
    assert_eq!(m.render(), "201211F12");
}

#[test]
fn set_at_least_from_string_with_empty_cells_changes_nothing() {
    let mut m = matrix("212101212");
    assert_eq!(m.set_at_least_from_string("FFFFFFFFF"), Ok(()));
    assert_eq!(m.render(), "212101212");
}

#[test]
fn a_pattern_of_the_wrong_length_is_refused() {
    for pattern in ["", "2", "21210121", "2121012122", "FFFFFFFFFFFFFFFFFF"] {
        let mut m = matrix("0F0F0F0F0");
        assert_eq!(
            m.set_at_least_from_string(pattern),
            Err(MalformedPatternString::WrongLength)
        );
        assert_eq!(m.render(), "0F0F0F0F0");
        assert!(IntersectionMatrix::from_str(pattern) == Err(MalformedPatternString::WrongLength));
    }
}

#[test]
fn an_unrecognized_character_is_refused_and_nothing_is_applied() {
    let mut m = IntersectionMatrix::empty();
    assert_eq!(
        m.set_at_least_from_string("2222T2222"),
        Err(MalformedPatternString::UnrecognizedCharacter { position: 4 })
    );
    assert_eq!(m.render(), "FFFFFFFFF");
    assert_eq!(
        m.set_at_least_from_string("22222222f"),
        Err(MalformedPatternString::UnrecognizedCharacter { position: 8 })
    );
    assert_eq!(m.render(), "FFFFFFFFF");
    assert_eq!(
        m.set_at_least_from_string("3*2222222"),
        Err(MalformedPatternString::UnrecognizedCharacter { position: 0 })
    );
    assert_eq!(m.render(), "FFFFFFFFF");
}

#[test]
fn length_is_counted_in_characters() {
    let mut m = IntersectionMatrix::empty();
    assert_eq!(
        m.set_at_least_from_string("2222é2222"),
        Err(MalformedPatternString::UnrecognizedCharacter { position: 4 })
    );
    assert_eq!(
        m.set_at_least_from_string("2222é222"),
        Err(MalformedPatternString::WrongLength)
    );
    assert_eq!(m.render(), "FFFFFFFFF");
}
