use vstd::prelude::*;
use crate::convert::{fits, int2, int3, is_cube};

verus! {

pub open spec fn add2(a: (int, int), b: (int, int)) -> (int, int) {
    (a.0 + b.0, a.1 + b.1)
}

pub open spec fn add3(a: (int, int, int), b: (int, int, int)) -> (int, int, int) {
    (a.0 + b.0, a.1 + b.1, a.2 + b.2)
}

pub open spec fn abs(a: int) -> int {
    if a < 0 {
        -a
    } else {
        a
    }
}

/// Each component of `c` can move by `d` in either direction without leaving `i32`.
pub open spec fn fits_around3(c: (int, int, int), d: int) -> bool {
    &&& fits(c.0 - d) && fits(c.0 + d)
    &&& fits(c.1 - d) && fits(c.1 + d)
    &&& fits(c.2 - d) && fits(c.2 + d)
}

/// Each component of `c` can move by `d` in either direction without leaving `i32`.
pub open spec fn fits_around2(c: (int, int), d: int) -> bool {
    fits(c.0 - d) && fits(c.0 + d) && fits(c.1 - d) && fits(c.1 + d)
}

fn sum_tuple_2(a: (i32, i32), b: (i32, i32)) -> (r: (i32, i32))
    requires
        fits(a.0 + b.0),
        fits(a.1 + b.1),
    ensures
        int2(r) == add2(int2(a), int2(b)),
{
    (a.0 + b.0, a.1 + b.1)
}

fn sum_tuple_3(a: (i32, i32, i32), b: (i32, i32, i32)) -> (r: (i32, i32, i32))
    requires
        fits(a.0 + b.0),
        fits(a.1 + b.1),
        fits(a.2 + b.2),
    ensures
        int3(r) == add3(int3(a), int3(b)),
{
    (a.0 + b.0, a.1 + b.1, a.2 + b.2)
}

// Neighbours

/// The step to the neighbour in direction `i` (0 to 5), in cube coordinates.
pub open spec fn cube_direction(i: int) -> (int, int, int) {
    if i == 0 {
        (1, -1, 0)
    } else if i == 1 {
        (1, 0, -1)
    } else if i == 2 {
        (0, 1, -1)
    } else if i == 3 {
        (-1, 1, 0)
    } else if i == 4 {
        (-1, 0, 1)
    } else {
        (0, -1, 1)
    }
}

/// The step to the neighbour in direction `i` (0 to 5), in axial coordinates.
pub open spec fn axial_direction(i: int) -> (int, int) {
    if i == 0 {
        (1, 0)
    } else if i == 1 {
        (1, -1)
    } else if i == 2 {
        (0, -1)
    } else if i == 3 {
        (-1, 0)
    } else if i == 4 {
        (-1, 1)
    } else {
        (0, 1)
    }
}

fn cube_direction_of(i: usize) -> (r: (i32, i32, i32))
    requires
        i < 6,
    ensures
        int3(r) == cube_direction(i as int),
{
    match i {
        0 => (1, -1, 0),
        1 => (1, 0, -1),
        2 => (0, 1, -1),
        3 => (-1, 1, 0),
        4 => (-1, 0, 1),
        _ => (0, -1, 1),
    }
}

fn axial_direction_of(i: usize) -> (r: (i32, i32))
    requires
        i < 6,
    ensures
        int2(r) == axial_direction(i as int),
{
    match i {
        0 => (1, 0),
        1 => (1, -1),
        2 => (0, -1),
        3 => (-1, 0),
        4 => (-1, 1),
        _ => (0, 1),
    }
}

fn get_neighbour_cube(input: (i32, i32, i32), direction: usize) -> (r: (i32, i32, i32))
    requires
        fits_around3(int3(input), 1),
    ensures
        int3(r) == add3(int3(input), cube_direction(direction as int % 6)),
{
    sum_tuple_3(input, cube_direction_of(direction % 6))
}

/// The six neighbours of a cube coordinate, in direction order.
pub fn get_neighbours_cube(input: (i32, i32, i32)) -> (r: [(i32, i32, i32); 6])
    requires
        fits_around3(int3(input), 1),
    ensures
        forall|i: int| 0 <= i < 6 ==> int3(#[trigger] r[i]) == add3(int3(input), cube_direction(i)),
{
    [
        get_neighbour_cube(input, 0),
        get_neighbour_cube(input, 1),
        get_neighbour_cube(input, 2),
        get_neighbour_cube(input, 3),
        get_neighbour_cube(input, 4),
        get_neighbour_cube(input, 5),
    ]
}

fn get_neighbour_axial(input: (i32, i32), direction: usize) -> (r: (i32, i32))
    requires
        fits_around2(int2(input), 1),
    ensures
        int2(r) == add2(int2(input), axial_direction(direction as int % 6)),
{
    sum_tuple_2(input, axial_direction_of(direction % 6))
}

/// The six neighbours of an axial coordinate, in direction order.
pub fn get_neighbours_axial(input: (i32, i32)) -> (r: [(i32, i32); 6])
    requires
        fits_around2(int2(input), 1),
    ensures
        forall|i: int| 0 <= i < 6 ==> int2(#[trigger] r[i]) == add2(int2(input), axial_direction(i)),
{
    [
        get_neighbour_axial(input, 0),
        get_neighbour_axial(input, 1),
        get_neighbour_axial(input, 2),
        get_neighbour_axial(input, 3),
        get_neighbour_axial(input, 4),
        get_neighbour_axial(input, 5),
    ]
}


// Ranges

/// `c` lies within `r` steps of `center`: the offset between them is a cube
/// coordinate none of whose components exceeds `r` in magnitude.
pub open spec fn in_hex_range(c: (int, int, int), center: (int, int, int), r: int) -> bool {
    let d = (c.0 - center.0, c.1 - center.1, c.2 - center.2);
    is_cube(d) && abs(d.0) <= r && abs(d.1) <= r && abs(d.2) <= r
}

/// How many hexes lie within `r` steps of one hex.
pub open spec fn hex_count(r: int) -> int {
    3 * r * r + 3 * r + 1
}

/// The hexes of the range whose first offset component is `x`.
pub open spec fn row_len(r: int, x: int) -> int {
    2 * r + 1 - abs(x)
}

/// The hexes of the range whose first offset component is below `x`.
pub open spec fn cells_before(r: int, x: int) -> int
    decreases x + r,
{
    if x <= -r {
        0
    } else {
        cells_before(r, x - 1) + row_len(r, x - 1)
    }
}

proof fn lemma_cells_before(r: int, x: int)
    requires
        0 <= r,
        -r <= x <= r + 1,
    ensures
        2 * cells_before(r, x) == if x <= 0 {
            (x + r) * (3 * r + x + 1)
        } else {
            r * (3 * r + 1) + 2 * x * (2 * r + 1) - x * (x - 1)
        },
    decreases x + r,
{
    if x == -r {
        assert((x + r) * (3 * r + x + 1) == 0) by (nonlinear_arith)
            requires
                x + r == 0,
        ;
    } else {
        lemma_cells_before(r, x - 1);
        let prev = 2 * cells_before(r, x - 1);
        assert(2 * cells_before(r, x) == prev + 2 * row_len(r, x - 1));
        if x <= 0 {
            assert(prev + 2 * (2 * r + x) == (x + r) * (3 * r + x + 1)) by (nonlinear_arith)
                requires
                    prev == (x - 1 + r) * (3 * r + x),
            ;
        } else if x == 1 {
            assert(prev == r * (3 * r + 1)) by (nonlinear_arith)
                requires
                    prev == (x - 1 + r) * (3 * r + x - 1 + 1),
                    x == 1,
            ;
            assert(prev + 2 * (2 * r + 1) == r * (3 * r + 1) + 2 * x * (2 * r + 1) - x * (x - 1))
                by (nonlinear_arith)
                requires
                    prev == r * (3 * r + 1),
                    x == 1,
            ;
        } else {
            assert(prev + 2 * (2 * r + 2 - x) == r * (3 * r + 1) + 2 * x * (2 * r + 1) - x * (x
                - 1)) by (nonlinear_arith)
                requires
                    prev == r * (3 * r + 1) + 2 * (x - 1) * (2 * r + 1) - (x - 1) * (x - 2),
            ;
        }
    }
}

proof fn lemma_cells_total(r: int)
    requires
        0 <= r,
    ensures
        cells_before(r, r + 1) == hex_count(r),
{
    lemma_cells_before(r, r + 1);
    assert(r * (3 * r + 1) + 2 * (r + 1) * (2 * r + 1) - (r + 1) * r == 2 * hex_count(r))
        by (nonlinear_arith);
}

/// The first two components of `a` come before those of `b` in lexicographic order.
pub open spec fn lex_less(a: (i32, i32, i32), b: (i32, i32, i32)) -> bool {
    a.0 < b.0 || (a.0 == b.0 && a.1 < b.1)
}

/// `c` comes before the offset `(x, y)` from `center`, ordered by the first
/// offset component and then the second.
pub open spec fn before_offset(c: (i32, i32, i32), center: (i32, i32, i32), x: int, y: int) -> bool {
    c.0 - center.0 < x || (c.0 - center.0 == x && c.1 - center.1 < y)
}

/// Every hex within `range` steps of `input` (the absolute value of `range`
/// is taken), each once, ordered by the first component and then the second.
pub fn get_range_cube(input: (i32, i32, i32), range: i32) -> (results: Vec<(i32, i32, i32)>)
    requires
        -0x3fff_ffff <= range <= 0x3fff_ffff,
        fits_around3(int3(input), abs(range as int)),
    ensures
        results.len() == hex_count(abs(range as int)),
        results@.no_duplicates(),
        forall|c: (i32, i32, i32)|
            #[trigger] results@.contains(c) <==> in_hex_range(int3(c), int3(input), abs(range as int)),
        forall|i: int, j: int|
            0 <= i < j < results.len() ==> lex_less(#[trigger] results[i], #[trigger] results[j]),
{
    let mut results: Vec<(i32, i32, i32)> = Vec::new();
    let range: i32 = if range < 0 {
        -range
    } else {
        range
    };
    let ghost r = range as int;
    let mut x: i32 = -range;
    while x < range + 1
        invariant
            r == range,
            0 <= r <= 0x3fff_ffff,
            -r <= x <= r + 1,
            fits_around3(int3(input), r),
            results.len() == cells_before(r, x as int),
            forall|i: int|
                0 <= i < results.len() ==> in_hex_range(int3(#[trigger] results[i]), int3(input), r)
                    && results[i].0 - input.0 < x,
            forall|i: int, j: int|
                0 <= i < j < results.len() ==> lex_less(#[trigger] results[i], #[trigger] results[j]),
            forall|c: (i32, i32, i32)|
                in_hex_range(int3(c), int3(input), r) && c.0 - input.0 < x
                    ==> #[trigger] results@.contains(c),
        decreases r + 1 - x,
    {
        let lo: i32 = if -range > -range - x {
            -range
        } else {
            -range - x
        };
        let hi: i32 = if range < range - x {
            range
        } else {
            range - x
        };
        assert(hi - lo + 1 == row_len(r, x as int));
        let mut y: i32 = lo;
        while y < hi + 1
            invariant
                r == range,
                0 <= r <= 0x3fff_ffff,
                -r <= x <= r,
                lo == if -r > -r - x { -r } else { -r - x },
                hi == if r < r - x { r } else { r - x },
                lo <= y <= hi + 1,
                fits_around3(int3(input), r),
                results.len() == cells_before(r, x as int) + (y - lo),
                forall|i: int|
                    0 <= i < results.len() ==> in_hex_range(
                        int3(#[trigger] results[i]),
                        int3(input),
                        r,
                    ) && before_offset(results[i], input, x as int, y as int),
                forall|i: int, j: int|
                    0 <= i < j < results.len() ==> lex_less(#[trigger] results[i], #[trigger] results[j]),
                forall|c: (i32, i32, i32)|
                    in_hex_range(int3(c), int3(input), r) && before_offset(c, input, x as int, y as int)
                        ==> #[trigger] results@.contains(c),
            decreases hi + 1 - y,
        {
            let p = sum_tuple_3(input, (x, y, -x - y));
            let ghost old_results = results@;
            results.push(p);
            proof {
                assert(results@ == old_results.push(p));
                assert(results[results.len() - 1] == p);
                assert forall|c: (i32, i32, i32)|
                    in_hex_range(int3(c), int3(input), r) && before_offset(
                        c,
                        input,
                        x as int,
                        y + 1,
                    ) implies #[trigger] results@.contains(c) by {
                    if c == p {
                        assert(results@[results.len() - 1] == c);
                    } else {
                        if c.0 - input.0 == x && c.1 - input.1 == y {
                            assert(c.2 - input.2 == -x - y);
                            assert(c == p);
                        }
                        assert(old_results.contains(c));
                        let k = choose|k: int| 0 <= k < old_results.len() && old_results[k] == c;
                        assert(results@[k] == c);
                    }
                }
            }
            y = y + 1;
        }
        proof {
            assert(cells_before(r, x + 1) == cells_before(r, x as int) + row_len(r, x as int));
        }
        x = x + 1;
    }
    proof {
        lemma_cells_total(r);
        assert forall|i: int, j: int|
            0 <= i < results.len() && 0 <= j < results.len() && i != j implies results[i]
            != results[j] by {
            if i < j {
                assert(lex_less(results[i], results[j]));
            } else {
                assert(lex_less(results[j], results[i]));
            }
        }
        assert forall|c: (i32, i32, i32)|
            #[trigger] results@.contains(c) implies in_hex_range(int3(c), int3(input), r) by {
            let k = choose|k: int| 0 <= k < results.len() && results@[k] == c;
            assert(in_hex_range(int3(results[k]), int3(input), r));
        }
    }
    results
}

} // verus!
