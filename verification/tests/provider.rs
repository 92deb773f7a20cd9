use castiron::context::Context;
use castiron::hex_directions::{HexDirection, Provider, Side, Vertex};
use castiron::Randomizable;

const SIDES: [Side; 6] = [
    Side::NorthEast,
    Side::North,
    Side::NorthWest,
    Side::SouthWest,
    Side::South,
    Side::SouthEast,
];

const VERTICES: [Vertex; 6] = [
    Vertex::East,
    Vertex::NorthEast,
    Vertex::NorthWest,
    Vertex::West,
    Vertex::SouthWest,
    Vertex::SouthEast,
];

#[test]
fn index_round_trips() {
    for (i, side) in SIDES.iter().enumerate() {
        assert_eq!(side.index(), i);
        assert_eq!(usize::from(*side), i);
        assert_eq!(Side::from_index(i), *side);
    }
    for (i, vertex) in VERTICES.iter().enumerate() {
        assert_eq!(vertex.index(), i);
        assert_eq!(usize::from(*vertex), i);
        assert_eq!(Vertex::from_index(i), *vertex);
    }
    assert_eq!(Side::count(), 6);
    assert_eq!(Vertex::count(), 6);
}

#[test]
fn angle_round_trips() {
    let side_angles = [30, 90, 150, 210, 270, 330];
    let vertex_angles = [0, 60, 120, 180, 240, 300];
    for i in 0..6 {
        assert_eq!(SIDES[i].degrees(), side_angles[i]);
        assert_eq!(Side::from_degrees(side_angles[i]), SIDES[i]);
        assert_eq!(VERTICES[i].degrees(), vertex_angles[i]);
        assert_eq!(Vertex::from_degrees(vertex_angles[i]), VERTICES[i]);
    }
}

#[test]
fn sectors_are_half_open() {
    assert_eq!(Side::from_degrees(0), Side::NorthEast);
    assert_eq!(Side::from_degrees(59), Side::NorthEast);
    assert_eq!(Side::from_degrees(60), Side::North);
    assert_eq!(Side::from_degrees(299), Side::South);
    assert_eq!(Side::from_degrees(300), Side::SouthEast);
    assert_eq!(Side::from_degrees(359), Side::SouthEast);
    assert_eq!(Side::from_degrees(360), Side::NorthEast);
    assert_eq!(Side::from_degrees(450), Side::North);
    assert_eq!(Vertex::from_degrees(29), Vertex::East);
    assert_eq!(Vertex::from_degrees(30), Vertex::NorthEast);
    assert_eq!(Vertex::from_degrees(329), Vertex::SouthEast);
    assert_eq!(Vertex::from_degrees(330), Vertex::East);
    assert_eq!(Vertex::from_degrees(359), Vertex::East);
    assert_eq!(Vertex::from_degrees(720 + 90), Vertex::NorthWest);
}

#[test]
fn provider_yields_each_direction_once() {
    for (i, start) in SIDES.iter().enumerate() {
        let mut provider = Provider::new(*start);
        assert_eq!(provider.count(), 6);
        let mut yielded = Vec::new();
        while let Some(side) = provider.next() {
            yielded.push(side);
        }
        assert_eq!(yielded.len(), 6);
        assert_ne!(yielded[0], *start);
        assert_eq!(yielded[5], *start);
        for k in 0..6 {
            assert_eq!(yielded[k], SIDES[(i + k + 1) % 6]);
        }
        assert_eq!(provider.next(), None);
        assert_eq!(provider.next(), None);
    }
}

#[test]
fn exhausted_provider_stays_exhausted() {
    let mut provider = Provider::new(Vertex::West);
    for _ in 0..6 {
        assert!(provider.next().is_some());
    }
    for _ in 0..100 {
        assert!(provider.next().is_none());
    }
}

#[test]
fn sides_and_vertices_interlock() {
    assert_eq!(Side::get_adjacent_vertices(Side::NorthEast), (Vertex::East, Vertex::NorthEast));
    assert_eq!(Side::get_adjacent_vertices(Side::SouthEast), (Vertex::SouthEast, Vertex::East));
    assert_eq!(Vertex::get_adjacent_sides(Vertex::East), (Side::SouthEast, Side::NorthEast));
    assert_eq!(Vertex::get_adjacent_sides(Vertex::West), (Side::NorthWest, Side::SouthWest));
    for side in SIDES {
        let (first, second) = Side::get_adjacent_vertices(side);
        assert_eq!(Vertex::get_adjacent_sides(first).1, side);
        assert_eq!(Vertex::get_adjacent_sides(second).0, side);
    }
}

#[test]
fn random_provider_is_fresh() {
    let ctx = Context::default();
    let mut starts = std::collections::HashSet::new();
    for _ in 0..200 {
        let mut provider: Provider<Side> = Provider::rand(&ctx);
        starts.insert(provider.current().index());
        let mut n = 0;
        while provider.next().is_some() {
            n += 1;
        }
        assert_eq!(n, 6);
    }
    assert!(starts.len() > 1);
}

#[test]
fn defaults_point_at_the_first_direction() {
    assert_eq!(Side::default(), Side::NorthEast);
    assert_eq!(Vertex::default(), Vertex::East);
    let provider: Provider<Vertex> = Provider::default();
    assert_eq!(provider.current(), Vertex::East);
}
