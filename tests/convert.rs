use hex_grid::convert::{
    axial_to_cube, cube_round_resolve, cube_to_axial, cube_to_doubled, cube_to_offset_even,
    cube_to_offset_odd, doubled_to_cube, doubled_to_offset_even, doubled_to_offset_odd,
    flat_cube_to_doubled, flat_cube_to_offset_even, flat_cube_to_offset_odd,
    flat_doubled_to_cube, flat_doubled_to_offset_even, flat_doubled_to_offset_odd,
    flat_offset_even_to_cube, flat_offset_even_to_doubled, flat_offset_even_to_offset_odd,
    flat_offset_odd_to_cube, flat_offset_odd_to_doubled, flat_offset_odd_to_offset_even,
    offset_even_to_axial, offset_even_to_cube, offset_even_to_doubled, offset_even_to_offset_odd,
    offset_odd_to_axial, offset_odd_to_cube, offset_odd_to_doubled, offset_odd_to_offset_even,
    pointy_cube_to_doubled, pointy_cube_to_offset_even, pointy_cube_to_offset_odd,
    pointy_doubled_to_cube, pointy_doubled_to_offset_even, pointy_doubled_to_offset_odd,
    pointy_offset_even_to_cube, pointy_offset_even_to_doubled, pointy_offset_even_to_offset_odd,
    pointy_offset_odd_to_cube, pointy_offset_odd_to_doubled, pointy_offset_odd_to_offset_even,
    axial_to_doubled, axial_to_offset_even, axial_to_offset_odd, doubled_to_axial,
};
use hex_grid::Orientation;

#[test]
fn test_offset_to_offset() {
    assert_eq!(flat_offset_even_to_offset_odd((0, 0)), (0, 0));
    assert_eq!(flat_offset_even_to_offset_odd((5, 3)), (5, 2));
    assert_eq!(flat_offset_even_to_offset_odd((6, 4)), (6, 4));

    assert_eq!(flat_offset_odd_to_offset_even((0, 0)), (0, 0));
    assert_eq!(flat_offset_odd_to_offset_even((5, 2)), (5, 3));
    assert_eq!(flat_offset_odd_to_offset_even((6, 4)), (6, 4));

    assert_eq!(pointy_offset_even_to_offset_odd((0, 0)), (0, 0));
    assert_eq!(pointy_offset_even_to_offset_odd((3, 5)), (2, 5));
    assert_eq!(pointy_offset_even_to_offset_odd((5, 4)), (5, 4));

    assert_eq!(pointy_offset_odd_to_offset_even((0, 0)), (0, 0));
    assert_eq!(pointy_offset_odd_to_offset_even((2, 5)), (3, 5));
    assert_eq!(pointy_offset_odd_to_offset_even((5, 4)), (5, 4));
}

#[test]
fn test_doubled_to_offset() {
    assert_eq!(flat_doubled_to_offset_odd((0, 0)), (0, 0));
    assert_eq!(flat_doubled_to_offset_odd((5, 5)), (5, 2));
    assert_eq!(flat_doubled_to_offset_odd((6, 6)), (6, 3));

    assert_eq!(flat_doubled_to_offset_even((0, 0)), (0, 0));
    assert_eq!(flat_doubled_to_offset_even((5, 5)), (5, 3));
    assert_eq!(flat_doubled_to_offset_even((6, 6)), (6, 3));

    assert_eq!(pointy_doubled_to_offset_odd((0, 0)), (0, 0));
    assert_eq!(pointy_doubled_to_offset_odd((4, 4)), (2, 4));
    assert_eq!(pointy_doubled_to_offset_odd((5, 5)), (2, 5));

    assert_eq!(pointy_doubled_to_offset_even((0, 0)), (0, 0));
    assert_eq!(pointy_doubled_to_offset_even((4, 4)), (2, 4));
    assert_eq!(pointy_doubled_to_offset_even((5, 5)), (3, 5));
}

#[test]
fn test_cube_to_offset() {
    assert_eq!(53 & 1, 1);
    assert_eq!(52 & 1, 0);
    assert_eq!(flat_cube_to_offset_odd((0, 0, 0)), (0, 0));
    assert_eq!(flat_cube_to_offset_odd((3, -3, 0)), (3, 1));
    assert_eq!(flat_cube_to_offset_odd((2, -3, 1)), (2, 2));

    assert_eq!(flat_cube_to_offset_even((0, 0, 0)), (0, 0));
    assert_eq!(flat_cube_to_offset_even((3, -3, 0)), (3, 2));
    assert_eq!(flat_cube_to_offset_even((2, -3, 1)), (2, 2));

    assert_eq!(pointy_cube_to_offset_odd((0, 0, 0)), (0, 0));
    assert_eq!(pointy_cube_to_offset_odd((0, -3, 3)), (1, 3));
    assert_eq!(pointy_cube_to_offset_odd((1, -3, 2)), (2, 2));

    assert_eq!(pointy_cube_to_offset_even((0, 0, 0)), (0, 0));
    assert_eq!(pointy_cube_to_offset_even((0, -3, 3)), (2, 3));
    assert_eq!(pointy_cube_to_offset_even((1, -3, 2)), (2, 2));
}

#[test]
fn test_offset_to_doubled() {
    assert_eq!(flat_offset_odd_to_doubled((0, 0)), (0, 0));
    assert_eq!(flat_offset_odd_to_doubled((5, 2)), (5, 5));
    assert_eq!(flat_offset_odd_to_doubled((6, 3)), (6, 6));

    assert_eq!(flat_offset_even_to_doubled((0, 0)), (0, 0));
    assert_eq!(flat_offset_even_to_doubled((5, 3)), (5, 5));
    assert_eq!(flat_offset_even_to_doubled((6, 3)), (6, 6));

    assert_eq!(pointy_offset_odd_to_doubled((0, 0)), (0, 0));
    assert_eq!(pointy_offset_odd_to_doubled((2, 4)), (4, 4));
    assert_eq!(pointy_offset_odd_to_doubled((2, 5)), (5, 5));

    assert_eq!(pointy_offset_even_to_doubled((0, 0)), (0, 0));
    assert_eq!(pointy_offset_even_to_doubled((2, 4)), (4, 4));
    assert_eq!(pointy_offset_even_to_doubled((3, 5)), (5, 5));
}

#[test]
fn test_cube_to_doubled() {
    assert_eq!(flat_cube_to_doubled((0, 0, 0)), (0, 0));
    assert_eq!(flat_cube_to_doubled((2, -3, 1)), (2, 4));
    assert_eq!(flat_cube_to_doubled((3, -2, -1)), (3, 1));

    assert_eq!(pointy_cube_to_doubled((0, 0, 0)), (0, 0));
    assert_eq!(pointy_cube_to_doubled((-1, -2, 3)), (1, 3));
    assert_eq!(pointy_cube_to_doubled((1, -3, 2)), (4, 2));
}

#[test]
fn test_offset_to_cube() {
    assert_eq!(flat_offset_odd_to_cube((0, 0)), (0, 0, 0));
    assert_eq!(flat_offset_odd_to_cube((3, 1)), (3, -3, 0));
    assert_eq!(flat_offset_odd_to_cube((2, 2)), (2, -3, 1));

    assert_eq!(flat_offset_even_to_cube((0, 0)), (0, 0, 0));
    assert_eq!(flat_offset_even_to_cube((3, 2)), (3, -3, 0));
    assert_eq!(flat_offset_even_to_cube((2, 2)), (2, -3, 1));

    assert_eq!(pointy_offset_odd_to_cube((0, 0)), (0, 0, 0));
    assert_eq!(pointy_offset_odd_to_cube((1, 3)), (0, -3, 3));
    assert_eq!(pointy_offset_odd_to_cube((2, 2)), (1, -3, 2));

    assert_eq!(pointy_offset_even_to_cube((0, 0)), (0, 0, 0));
    assert_eq!(pointy_offset_even_to_cube((2, 3)), (0, -3, 3));
    assert_eq!(pointy_offset_even_to_cube((2, 2)), (1, -3, 2));
}

#[test]
fn test_doubled_to_cube() {
    assert_eq!(flat_doubled_to_cube((0, 0)), (0, 0, 0));
    assert_eq!(flat_doubled_to_cube((2, 4)), (2, -3, 1));
    assert_eq!(flat_doubled_to_cube((3, 1)), (3, -2, -1));

    assert_eq!(pointy_doubled_to_cube((0, 0)), (0, 0, 0));
    assert_eq!(pointy_doubled_to_cube((1, 3)), (-1, -2, 3));
    assert_eq!(pointy_doubled_to_cube((4, 2)), (1, -3, 2));
}

#[test]
fn test_axial_to_cube() {
    assert_eq!(axial_to_cube((0, 0)), (0, 0, 0));
    assert_eq!(axial_to_cube((-30, 14)), (-30, 16, 14));
    assert_eq!(axial_to_cube((4, 6)), (4, -10, 6));
}

#[test]
fn test_cube_to_axial() {
    assert_eq!(cube_to_axial((0, 0, 0)), (0, 0));
    assert_eq!(cube_to_axial((-30, 16, 14)), (-30, 14));
    assert_eq!(cube_to_axial((4, -10, 6)), (4, 6));
}

#[test]
fn dispatch_follows_orientation() {
    assert_eq!(offset_even_to_offset_odd((5, 3), Orientation::Flat), (5, 2));
    assert_eq!(offset_even_to_offset_odd((3, 5), Orientation::Pointy), (2, 5));
    assert_eq!(cube_to_offset_odd((3, -3, 0), Orientation::Flat), (3, 1));
    assert_eq!(cube_to_offset_odd((0, -3, 3), Orientation::Pointy), (1, 3));
    assert_eq!(cube_to_doubled((2, -3, 1), Orientation::Flat), (2, 4));
    assert_eq!(cube_to_doubled((1, -3, 2), Orientation::Pointy), (4, 2));
    assert_eq!(doubled_to_cube((3, 1), Orientation::Flat), (3, -2, -1));
    assert_eq!(doubled_to_cube((4, 2), Orientation::Pointy), (1, -3, 2));
}

#[test]
fn negative_coordinates_convert_by_parity() {
    // -3 is odd: the odd columns are the shifted ones.
    assert_eq!(flat_offset_even_to_offset_odd((-3, 4)), (-3, 3));
    assert_eq!(flat_offset_odd_to_offset_even((-3, 3)), (-3, 4));
    assert_eq!(flat_cube_to_offset_odd((-3, 2, 1)), (-3, -1));
    assert_eq!(flat_offset_odd_to_cube((-3, -1)), (-3, 2, 1));
    assert_eq!(flat_doubled_to_offset_odd((-3, -1)), (-3, -1));
    assert_eq!(flat_offset_odd_to_doubled((-3, -1)), (-3, -1));
    assert_eq!(pointy_doubled_to_cube((-5, -1)), (-2, 3, -1));
}

#[test]
fn integer_conversions_round_trip() {
    for o in [Orientation::Flat, Orientation::Pointy] {
        for x in -7..8 {
            for y in -7..8 {
                let v = (x, y);
                assert_eq!(offset_even_to_offset_odd(offset_odd_to_offset_even(v, o), o), v);
                assert_eq!(offset_odd_to_offset_even(offset_even_to_offset_odd(v, o), o), v);
                assert_eq!(doubled_to_offset_odd(offset_odd_to_doubled(v, o), o), v);
                assert_eq!(doubled_to_offset_even(offset_even_to_doubled(v, o), o), v);
                assert_eq!(cube_to_offset_odd(offset_odd_to_cube(v, o), o), v);
                assert_eq!(cube_to_offset_even(offset_even_to_cube(v, o), o), v);
                assert_eq!(axial_to_offset_odd(offset_odd_to_axial(v, o), o), v);
                assert_eq!(axial_to_offset_even(offset_even_to_axial(v, o), o), v);
                assert_eq!(cube_to_axial(axial_to_cube(v)), v);
                let c = (x, -x - y, y);
                assert_eq!(offset_odd_to_cube(cube_to_offset_odd(c, o), o), c);
                assert_eq!(offset_even_to_cube(cube_to_offset_even(c, o), o), c);
                assert_eq!(doubled_to_cube(cube_to_doubled(c, o), o), c);
                assert_eq!(axial_to_cube(cube_to_axial(c)), c);
                if (x + y) % 2 == 0 {
                    assert_eq!(offset_odd_to_doubled(doubled_to_offset_odd(v, o), o), v);
                    assert_eq!(offset_even_to_doubled(doubled_to_offset_even(v, o), o), v);
                    assert_eq!(cube_to_doubled(doubled_to_cube(v, o), o), v);
                    assert_eq!(axial_to_doubled(doubled_to_axial(v, o), o), v);
                }
            }
        }
    }
}

#[test]
fn cube_results_sum_to_zero() {
    for o in [Orientation::Flat, Orientation::Pointy] {
        for x in -6..7 {
            for y in -6..7 {
                let c = offset_odd_to_cube((x, y), o);
                assert_eq!(c.0 + c.1 + c.2, 0);
                let c = offset_even_to_cube((x, y), o);
                assert_eq!(c.0 + c.1 + c.2, 0);
                let c = doubled_to_cube((x, y), o);
                assert_eq!(c.0 + c.1 + c.2, 0);
                let c = axial_to_cube((x, y));
                assert_eq!(c.0 + c.1 + c.2, 0);
            }
        }
    }
}

#[test]
fn rounding_recomputes_the_component_with_the_largest_residual() {
    // x residual largest
    assert_eq!(cube_round_resolve((1, 1, -1), true, true, false), (0, 1, -1));
    // y residual beats z
    assert_eq!(cube_round_resolve((1, 1, -1), false, true, true), (1, 0, -1));
    // otherwise z
    assert_eq!(cube_round_resolve((1, 1, -1), false, false, false), (1, 1, -2));
    // x over y but not over z: x is not chosen
    assert_eq!(cube_round_resolve((2, -1, 0), true, false, false), (2, -1, -1));
    let r = cube_round_resolve((3, -5, 4), false, true, true);
    assert_eq!(r.0 + r.1 + r.2, 0);
}
