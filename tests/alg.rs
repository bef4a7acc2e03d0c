use hex_grid::alg::{get_neighbours_axial, get_neighbours_cube, get_range_cube};
use hex_grid::utils::{offset_2d_tuple, offset_3d_tuple, scale_2d_tuple, scale_3d_tuple};

#[test]
fn neighbours_in_direction_order() {
    assert_eq!(
        get_neighbours_cube((0, 0, 0)),
        [(1, -1, 0), (1, 0, -1), (0, 1, -1), (-1, 1, 0), (-1, 0, 1), (0, -1, 1)]
    );
    assert_eq!(
        get_neighbours_cube((2, -5, 3)),
        [(3, -6, 3), (3, -5, 2), (2, -4, 2), (1, -4, 3), (1, -5, 4), (2, -6, 4)]
    );
    assert_eq!(
        get_neighbours_axial((0, 0)),
        [(1, 0), (1, -1), (0, -1), (-1, 0), (-1, 1), (0, 1)]
    );
    assert_eq!(
        get_neighbours_axial((4, 6)),
        [(5, 6), (5, 5), (4, 5), (3, 6), (3, 7), (4, 7)]
    );
}

fn check_range(center: (i32, i32, i32), range: i32) {
    let r = range.abs();
    let got = get_range_cube(center, range);
    assert_eq!(got.len() as i32, 3 * r * r + 3 * r + 1);
    for (i, c) in got.iter().enumerate() {
        let d = (c.0 - center.0, c.1 - center.1, c.2 - center.2);
        assert_eq!(d.0 + d.1 + d.2, 0);
        assert!(d.0.abs() <= r && d.1.abs() <= r && d.2.abs() <= r);
        for other in got.iter().skip(i + 1) {
            assert_ne!(c, other);
        }
    }
}

#[test]
fn range_sizes() {
    check_range((0, 0, 0), 0);
    check_range((0, 0, 0), 1);
    check_range((0, 0, 0), 2);
    check_range((0, 0, 0), 5);
    check_range((3, -7, 4), 3);
    check_range((0, 0, 0), -2);
    assert_eq!(get_range_cube((4, -1, -3), 0), vec![(4, -1, -3)]);
    assert_eq!(get_range_cube((0, 0, 0), 5).len(), 91);
}

#[test]
fn range_holds_every_near_hex() {
    let got = get_range_cube((1, 1, -2), 2);
    for x in -2..3 {
        for y in -2..3 {
            let z = -x - y;
            let c = (1 + x, 1 + y, -2 + z);
            assert_eq!(got.contains(&c), z.abs() <= 2);
        }
    }
}

#[test]
fn tuple_helpers() {
    assert_eq!(offset_2d_tuple((3, 4), (1, -6)), (4, -2));
    assert_eq!(scale_2d_tuple((3, -4), 3), (9, -12));
    assert_eq!(offset_3d_tuple((1, 2, 3), (10, 20, 30)), (11, 22, 33));
    assert_eq!(scale_3d_tuple((1, -2, 3), -2), (-2, 4, -6));
    assert_eq!(offset_2d_tuple((0.5f32, 1.0f32), (1.0f32, 1.0f32)), (1.5f32, 2.0f32));
    assert_eq!(scale_2d_tuple((0.5f32, -1.0f32), 2.0f32), (1.0f32, -2.0f32));
}
