use hex_grid::coords::{
    AxialCoords, CoordKey, CoordType, CubeCoords, DoubledCoords, OffsetEvenCoords, OffsetOddCoords,
    COORD_LIMIT,
};
use hex_grid::Orientation;

#[test]
fn test_from_conversions() {
    let input: OffsetOddCoords = OffsetOddCoords::new((5, 8), Orientation::Flat);
    let output: OffsetEvenCoords = OffsetEvenCoords::from(&input);
    assert_eq!(input.get().0, output.get().0);

    let input: OffsetEvenCoords = OffsetEvenCoords::new((5, 8), Orientation::Flat);
    let output: OffsetOddCoords = OffsetOddCoords::from(&input);
    assert_eq!(input.get().0, output.get().0);
}

#[test]
fn test_into_conversions() {
    let input: OffsetOddCoords = OffsetOddCoords::new((5, 8), Orientation::Flat);
    let output: OffsetEvenCoords = (&input).into();
    assert_eq!(input.get().0, output.get().0);

    let input: OffsetEvenCoords = OffsetEvenCoords::new((5, 8), Orientation::Flat);
    let output: OffsetOddCoords = (&input).into();
    assert_eq!(input.get().0, output.get().0);
}

#[test]
fn typed_conversions_name_the_same_hex() {
    for o in [Orientation::Flat, Orientation::Pointy] {
        let cube = CubeCoords::new((2, -5, 3), o);
        let odd = OffsetOddCoords::from(&cube);
        let even = OffsetEvenCoords::from(&odd);
        let doubled = DoubledCoords::from(&even);
        let axial = AxialCoords::from(&doubled);
        assert_eq!(axial.get(), (2, 3));
        let back = CubeCoords::from(&axial);
        assert_eq!(back.get(), (2, -5, 3));
        assert_eq!(CubeCoords::from(&odd).get(), (2, -5, 3));
        assert_eq!(CubeCoords::from(&even).get(), (2, -5, 3));
        assert_eq!(CubeCoords::from(&doubled).get(), (2, -5, 3));
        assert_eq!(OffsetOddCoords::from(&axial).get(), odd.get());
        assert_eq!(OffsetOddCoords::from(&doubled).get(), odd.get());
        assert_eq!(OffsetEvenCoords::from(&cube).get(), even.get());
        assert_eq!(DoubledCoords::from(&odd).get(), doubled.get());
        assert_eq!(AxialCoords::from(&odd).get(), (2, 3));
        assert_eq!(odd.orientation(), o);
    }
    let cube = CubeCoords::new((3, -3, 0), Orientation::Flat);
    assert_eq!(OffsetOddCoords::from(&cube).get(), (3, 1));
    assert_eq!(OffsetEvenCoords::from(&cube).get(), (3, 2));
}

#[test]
fn keys_embed_pairs_with_zero() {
    let odd = OffsetOddCoords::new((4, -2), Orientation::Pointy);
    assert_eq!(odd.get_key(), CoordKey(4, -2, 0));
    let cube = CubeCoords::new((1, 2, -3), Orientation::Flat);
    assert_eq!(cube.get_key(), CoordKey(1, 2, -3));
    assert_eq!(CoordKey::from((7, 8)), CoordKey(7, 8, 0));
    assert_eq!(CoordKey::from((7, 8, 9)), CoordKey(7, 8, 9));
    assert_eq!(CoordKey::default(), CoordKey(0, 0, 0));
}

#[test]
fn validity_checks() {
    assert!(CubeCoords::is_valid((1, 2, -3), Orientation::Flat));
    assert!(!CubeCoords::is_valid((1, 2, 3), Orientation::Flat));
    assert!(!CubeCoords::is_valid((COORD_LIMIT + 1, -COORD_LIMIT - 1, 0), Orientation::Flat));
    assert!(CubeCoords::is_valid((COORD_LIMIT, -COORD_LIMIT, 0), Orientation::Flat));
    assert!(DoubledCoords::is_valid((3, 1), Orientation::Flat));
    assert!(!DoubledCoords::is_valid((3, 2), Orientation::Flat));
    assert!(OffsetOddCoords::is_valid((5, 8), Orientation::Pointy));
    assert!(!OffsetOddCoords::is_valid((i32::MAX, i32::MAX), Orientation::Flat));
    assert!(!OffsetEvenCoords::is_valid((i32::MIN, 0), Orientation::Pointy));
    assert!(AxialCoords::is_valid((-30, 14), Orientation::Flat));
    assert!(!AxialCoords::is_valid((COORD_LIMIT, COORD_LIMIT), Orientation::Flat));
}
