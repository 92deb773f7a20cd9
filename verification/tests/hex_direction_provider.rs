use std::f32::consts::PI;

use castiron::hex_direction_provider::{HexDirection, HexDirectionProvider, HexSides, HexVertices};
use castiron::hex_directions::NUM_HEX_DIRECTIONS;

/// The whole degrees that an angle in radians comes to.
fn whole_degrees(radians: f32) -> u32 {
    radians.to_degrees().round() as u32
}

#[test]
fn hex_direction_provider_hex_sides() {
    // Setup correct value arrays
    let correct_enum: [HexSides; NUM_HEX_DIRECTIONS] = [
        HexSides::NorthEast,
        HexSides::North,
        HexSides::NorthWest,
        HexSides::SouthWest,
        HexSides::South,
        HexSides::SouthEast,
    ];
    let correct_usize: [usize; NUM_HEX_DIRECTIONS] = [0, 1, 2, 3, 4, 5];
    let correct_f32: [f32; NUM_HEX_DIRECTIONS] = [
        PI / 6.0,
        PI / 2.0,
        5.0 * PI / 6.0,
        7.0 * PI / 6.0,
        3.0 * PI / 2.0,
        11.0 * PI / 6.0,
    ];

    // Verify default
    let mut side_provider: HexDirectionProvider<HexSides> = HexDirectionProvider::default();
    assert_eq!(side_provider.current(), correct_enum[0]);
    assert_eq!(usize::from(side_provider.current()), correct_usize[0]);
    assert_eq!(side_provider.current().degrees(), whole_degrees(correct_f32[0]));

    let mut i = 1;
    while let Some(hex_side) = side_provider.next() {
        assert_eq!(hex_side, correct_enum[i]);
        assert_eq!(usize::from(hex_side), correct_usize[i]);
        assert_eq!(hex_side.degrees(), whole_degrees(correct_f32[i]));
        i = (i + 1) % NUM_HEX_DIRECTIONS;
    }

    // Verify we iterated through all 6 sides
    assert_eq!(i, 1);

    // Verify conversions
    side_provider = HexDirectionProvider::new(HexSides::SouthEast);
    for j in 0..NUM_HEX_DIRECTIONS {
        let side = side_provider.next().unwrap();
        assert_eq!(HexSides::from_index(correct_usize[j]), side);
        assert_eq!(HexSides::from_degrees(whole_degrees(correct_f32[j])), side);
    }
}

#[test]
fn hex_direction_provider_hex_vertices() {
    // Setup correct value arrays
    let correct_enum: [HexVertices; NUM_HEX_DIRECTIONS] = [
        HexVertices::East,
        HexVertices::NorthEast,
        HexVertices::NorthWest,
        HexVertices::West,
        HexVertices::SouthWest,
        HexVertices::SouthEast,
    ];
    let correct_usize: [usize; NUM_HEX_DIRECTIONS] = [0, 1, 2, 3, 4, 5];
    let correct_f32: [f32; NUM_HEX_DIRECTIONS] =
        [0.0, PI / 3.0, 2.0 * PI / 3.0, PI, 4.0 * PI / 3.0, 5.0 * PI / 3.0];

    // Verify default
    let mut side_provider: HexDirectionProvider<HexVertices> = HexDirectionProvider::default();
    assert_eq!(side_provider.current(), correct_enum[0]);
    assert_eq!(usize::from(side_provider.current()), correct_usize[0]);
    assert_eq!(side_provider.current().degrees(), whole_degrees(correct_f32[0]));

    let mut i = 1;
    while let Some(hex_side) = side_provider.next() {
        assert_eq!(hex_side, correct_enum[i]);
        assert_eq!(usize::from(hex_side), correct_usize[i]);
        assert_eq!(hex_side.degrees(), whole_degrees(correct_f32[i]));
        i = (i + 1) % NUM_HEX_DIRECTIONS;
    }

    // Verify we iterated through all 6 sides
    assert_eq!(i, 1);

    // Verify conversions
    side_provider = HexDirectionProvider::new(HexVertices::SouthEast);
    for j in 0..NUM_HEX_DIRECTIONS {
        let side = side_provider.next().unwrap();
        assert_eq!(HexVertices::from_index(correct_usize[j]), side);
        assert_eq!(HexVertices::from_degrees(whole_degrees(correct_f32[j])), side);
    }
}
