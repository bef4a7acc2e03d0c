use vstd::prelude::*;
use crate::utils::Orientation;

verus! {

// Each conversion below is stated over mathematical integers. In the
// statements `%` and `/` are Euclidean: `parity` is 0 or 1 for negative
// values too, and a halving of an even value is exact.

/// A pair of machine integers read as mathematical integers.
pub open spec fn int2(v: (i32, i32)) -> (int, int) {
    (v.0 as int, v.1 as int)
}

/// A triple of machine integers read as mathematical integers.
pub open spec fn int3(v: (i32, i32, i32)) -> (int, int, int) {
    (v.0 as int, v.1 as int, v.2 as int)
}

/// 0 for an even integer and 1 for an odd one.
pub open spec fn parity(a: int) -> int {
    a % 2
}

/// Half of `a` rounded toward zero, which is what `/ 2` computes on machine integers.
pub open spec fn half_toward_zero(a: int) -> int {
    if a >= 0 {
        a / 2
    } else {
        -((-a) / 2)
    }
}

/// The value can be held in an `i32`.
pub open spec fn fits(a: int) -> bool {
    i32::MIN <= a <= i32::MAX
}

/// A cube coordinate names a hex only when its components sum to zero.
pub open spec fn is_cube(c: (int, int, int)) -> bool {
    c.0 + c.1 + c.2 == 0
}

/// A doubled coordinate names a hex only when its components sum to an even number.
pub open spec fn is_doubled(v: (int, int)) -> bool {
    parity(v.0 + v.1) == 0
}

pub open spec fn spec_axial_to_cube(a: (int, int)) -> (int, int, int) {
    (a.0, -a.0 - a.1, a.1)
}

pub open spec fn spec_cube_to_axial(c: (int, int, int)) -> (int, int) {
    (c.0, c.2)
}

// Offset to offset: the shifted columns (flat) or rows (pointy) move by one.
pub open spec fn spec_offset_even_to_offset_odd(v: (int, int), o: Orientation) -> (int, int) {
    match o {
        Orientation::Flat => (v.0, v.1 - parity(v.0)),
        Orientation::Pointy => (v.0 - parity(v.1), v.1),
    }
}

pub open spec fn spec_offset_odd_to_offset_even(v: (int, int), o: Orientation) -> (int, int) {
    match o {
        Orientation::Flat => (v.0, v.1 + parity(v.0)),
        Orientation::Pointy => (v.0 + parity(v.1), v.1),
    }
}

// Doubled to offset: the doubled axis is halved, toward zero as the machine does.
pub open spec fn spec_doubled_to_offset_odd(v: (int, int), o: Orientation) -> (int, int) {
    match o {
        Orientation::Flat => (
            v.0,
            if parity(v.0) == 0 {
                half_toward_zero(v.1)
            } else {
                half_toward_zero(v.1 - 1)
            },
        ),
        Orientation::Pointy => (
            if parity(v.1) == 0 {
                half_toward_zero(v.0)
            } else {
                half_toward_zero(v.0 - 1)
            },
            v.1,
        ),
    }
}

pub open spec fn spec_doubled_to_offset_even(v: (int, int), o: Orientation) -> (int, int) {
    match o {
        Orientation::Flat => (
            v.0,
            if parity(v.0) == 0 {
                half_toward_zero(v.1)
            } else {
                half_toward_zero(v.1 + 1)
            },
        ),
        Orientation::Pointy => (
            if parity(v.1) == 0 {
                half_toward_zero(v.0)
            } else {
                half_toward_zero(v.0 + 1)
            },
            v.1,
        ),
    }
}

// Cube to offset.
pub open spec fn spec_cube_to_offset_odd(c: (int, int, int), o: Orientation) -> (int, int) {
    match o {
        Orientation::Flat => (c.0, c.2 + (c.0 - parity(c.0)) / 2),
        Orientation::Pointy => (c.0 + (c.2 - parity(c.2)) / 2, c.2),
    }
}

pub open spec fn spec_cube_to_offset_even(c: (int, int, int), o: Orientation) -> (int, int) {
    match o {
        Orientation::Flat => (c.0, c.2 + (c.0 + parity(c.0)) / 2),
        Orientation::Pointy => (c.0 + (c.2 + parity(c.2)) / 2, c.2),
    }
}

// Offset to doubled.
pub open spec fn spec_offset_odd_to_doubled(v: (int, int), o: Orientation) -> (int, int) {
    match o {
        Orientation::Flat => (v.0, 2 * v.1 + parity(v.0)),
        Orientation::Pointy => (2 * v.0 + parity(v.1), v.1),
    }
}

pub open spec fn spec_offset_even_to_doubled(v: (int, int), o: Orientation) -> (int, int) {
    match o {
        Orientation::Flat => (v.0, 2 * v.1 - parity(v.0)),
        Orientation::Pointy => (2 * v.0 - parity(v.1), v.1),
    }
}

// Cube to doubled.
pub open spec fn spec_cube_to_doubled(c: (int, int, int), o: Orientation) -> (int, int) {
    match o {
        Orientation::Flat => (c.0, 2 * c.2 + c.0),
        Orientation::Pointy => (2 * c.0 + c.2, c.2),
    }
}

// Offset and doubled to cube: the free component is the negated sum of the other two.
pub open spec fn spec_offset_odd_to_cube(v: (int, int), o: Orientation) -> (int, int, int) {
    match o {
        Orientation::Flat => {
            let z = v.1 - (v.0 - parity(v.0)) / 2;
            (v.0, -v.0 - z, z)
        },
        Orientation::Pointy => {
            let x = v.0 - (v.1 - parity(v.1)) / 2;
            (x, -x - v.1, v.1)
        },
    }
}

pub open spec fn spec_offset_even_to_cube(v: (int, int), o: Orientation) -> (int, int, int) {
    match o {
        Orientation::Flat => {
            let z = v.1 - (v.0 + parity(v.0)) / 2;
            (v.0, -v.0 - z, z)
        },
        Orientation::Pointy => {
            let x = v.0 - (v.1 + parity(v.1)) / 2;
            (x, -x - v.1, v.1)
        },
    }
}

pub open spec fn spec_doubled_to_cube(v: (int, int), o: Orientation) -> (int, int, int) {
    match o {
        Orientation::Flat => {
            let z = half_toward_zero(v.1 - v.0);
            (v.0, -v.0 - z, z)
        },
        Orientation::Pointy => {
            let x = half_toward_zero(v.0 - v.1);
            (x, -x - v.1, v.1)
        },
    }
}

// When each conversion stays within `i32`: every intermediate value the
// computation forms must fit.
pub open spec fn fits_axial_to_cube(a: (int, int)) -> bool {
    fits(-a.0) && fits(-a.0 - a.1)
}

pub open spec fn fits_offset_even_to_offset_odd(v: (int, int), o: Orientation) -> bool {
    match o {
        Orientation::Flat => fits(v.1 - parity(v.0)),
        Orientation::Pointy => fits(v.0 - parity(v.1)),
    }
}

pub open spec fn fits_offset_odd_to_offset_even(v: (int, int), o: Orientation) -> bool {
    match o {
        Orientation::Flat => fits(v.1 + parity(v.0)),
        Orientation::Pointy => fits(v.0 + parity(v.1)),
    }
}

pub open spec fn fits_doubled_to_offset_odd(v: (int, int), o: Orientation) -> bool {
    match o {
        Orientation::Flat => fits(v.1 - parity(v.0)),
        Orientation::Pointy => fits(v.0 - parity(v.1)),
    }
}

pub open spec fn fits_doubled_to_offset_even(v: (int, int), o: Orientation) -> bool {
    match o {
        Orientation::Flat => fits(v.1 + parity(v.0)),
        Orientation::Pointy => fits(v.0 + parity(v.1)),
    }
}

pub open spec fn fits_cube_to_offset_odd(c: (int, int, int), o: Orientation) -> bool {
    match o {
        Orientation::Flat => fits(c.2 + (c.0 - parity(c.0)) / 2),
        Orientation::Pointy => fits(c.0 + (c.2 - parity(c.2)) / 2),
    }
}

pub open spec fn fits_cube_to_offset_even(c: (int, int, int), o: Orientation) -> bool {
    match o {
        Orientation::Flat => fits(c.0 + parity(c.0)) && fits(c.2 + (c.0 + parity(c.0)) / 2),
        Orientation::Pointy => fits(c.2 + parity(c.2)) && fits(c.0 + (c.2 + parity(c.2)) / 2),
    }
}

pub open spec fn fits_offset_odd_to_doubled(v: (int, int), o: Orientation) -> bool {
    match o {
        Orientation::Flat => fits(2 * v.1) && fits(2 * v.1 + parity(v.0)),
        Orientation::Pointy => fits(2 * v.0) && fits(2 * v.0 + parity(v.1)),
    }
}

pub open spec fn fits_offset_even_to_doubled(v: (int, int), o: Orientation) -> bool {
    match o {
        Orientation::Flat => fits(2 * v.1) && fits(2 * v.1 - parity(v.0)),
        Orientation::Pointy => fits(2 * v.0) && fits(2 * v.0 - parity(v.1)),
    }
}

pub open spec fn fits_cube_to_doubled(c: (int, int, int), o: Orientation) -> bool {
    match o {
        Orientation::Flat => fits(2 * c.2) && fits(2 * c.2 + c.0),
        Orientation::Pointy => fits(2 * c.0) && fits(2 * c.0 + c.2),
    }
}

pub open spec fn fits_offset_odd_to_cube(v: (int, int), o: Orientation) -> bool {
    let c = spec_offset_odd_to_cube(v, o);
    match o {
        Orientation::Flat => fits(c.2) && fits(-v.0) && fits(c.1),
        Orientation::Pointy => fits(c.0) && fits(-c.0) && fits(c.1),
    }
}

pub open spec fn fits_offset_even_to_cube(v: (int, int), o: Orientation) -> bool {
    let c = spec_offset_even_to_cube(v, o);
    match o {
        Orientation::Flat => fits(v.0 + parity(v.0)) && fits(c.2) && fits(-v.0) && fits(c.1),
        Orientation::Pointy => fits(v.1 + parity(v.1)) && fits(c.0) && fits(-c.0) && fits(c.1),
    }
}

pub open spec fn fits_doubled_to_cube(v: (int, int), o: Orientation) -> bool {
    let c = spec_doubled_to_cube(v, o);
    match o {
        Orientation::Flat => fits(v.1 - v.0) && fits(-v.0) && fits(c.1),
        Orientation::Pointy => fits(v.0 - v.1) && fits(-c.0) && fits(c.1),
    }
}

pub open spec fn fits_axial_to_offset_odd(a: (int, int), o: Orientation) -> bool {
    fits_axial_to_cube(a) && fits_cube_to_offset_odd(spec_axial_to_cube(a), o)
}

pub open spec fn fits_axial_to_offset_even(a: (int, int), o: Orientation) -> bool {
    fits_axial_to_cube(a) && fits_cube_to_offset_even(spec_axial_to_cube(a), o)
}

pub open spec fn fits_axial_to_doubled(a: (int, int), o: Orientation) -> bool {
    fits_axial_to_cube(a) && fits_cube_to_doubled(spec_axial_to_cube(a), o)
}


// Laws of the integer conversions.

/// Converting offset-odd coordinates to any other representation and back
/// gives the same coordinates.
pub proof fn lemma_offset_odd_round_trips(v: (int, int), o: Orientation)
    ensures
        spec_offset_even_to_offset_odd(spec_offset_odd_to_offset_even(v, o), o) == v,
        spec_doubled_to_offset_odd(spec_offset_odd_to_doubled(v, o), o) == v,
        spec_cube_to_offset_odd(spec_offset_odd_to_cube(v, o), o) == v,
        spec_cube_to_offset_odd(spec_axial_to_cube(spec_cube_to_axial(spec_offset_odd_to_cube(v, o))), o) == v,
{
    lemma_parity_facts(v.0);
    lemma_parity_facts(v.1);
}

/// Converting offset-even coordinates to any other representation and back
/// gives the same coordinates.
pub proof fn lemma_offset_even_round_trips(v: (int, int), o: Orientation)
    ensures
        spec_offset_odd_to_offset_even(spec_offset_even_to_offset_odd(v, o), o) == v,
        spec_doubled_to_offset_even(spec_offset_even_to_doubled(v, o), o) == v,
        spec_cube_to_offset_even(spec_offset_even_to_cube(v, o), o) == v,
        spec_cube_to_offset_even(spec_axial_to_cube(spec_cube_to_axial(spec_offset_even_to_cube(v, o))), o) == v,
{
    lemma_parity_facts(v.0);
    lemma_parity_facts(v.1);
}

/// Converting a doubled coordinate that names a hex to any other
/// representation and back gives the same coordinates.
pub proof fn lemma_doubled_round_trips(v: (int, int), o: Orientation)
    requires
        is_doubled(v),
    ensures
        spec_offset_odd_to_doubled(spec_doubled_to_offset_odd(v, o), o) == v,
        spec_offset_even_to_doubled(spec_doubled_to_offset_even(v, o), o) == v,
        spec_cube_to_doubled(spec_doubled_to_cube(v, o), o) == v,
        spec_cube_to_doubled(spec_axial_to_cube(spec_cube_to_axial(spec_doubled_to_cube(v, o))), o) == v,
{
    lemma_doubled_halves(v);
}

/// Converting a cube coordinate whose components sum to zero to any other
/// representation and back gives the same coordinates.
pub proof fn lemma_cube_round_trips(c: (int, int, int), o: Orientation)
    requires
        is_cube(c),
    ensures
        spec_offset_odd_to_cube(spec_cube_to_offset_odd(c, o), o) == c,
        spec_offset_even_to_cube(spec_cube_to_offset_even(c, o), o) == c,
        spec_doubled_to_cube(spec_cube_to_doubled(c, o), o) == c,
        spec_axial_to_cube(spec_cube_to_axial(c)) == c,
        is_doubled(spec_cube_to_doubled(c, o)),
{
    lemma_parity_facts(c.0);
    lemma_parity_facts(c.2);
}

/// Converting axial coordinates to any other representation and back gives
/// the same coordinates.
pub proof fn lemma_axial_round_trips(a: (int, int), o: Orientation)
    ensures
        spec_cube_to_axial(spec_offset_odd_to_cube(spec_cube_to_offset_odd(spec_axial_to_cube(a), o), o)) == a,
        spec_cube_to_axial(spec_offset_even_to_cube(spec_cube_to_offset_even(spec_axial_to_cube(a), o), o)) == a,
        spec_cube_to_axial(spec_doubled_to_cube(spec_cube_to_doubled(spec_axial_to_cube(a), o), o)) == a,
        spec_cube_to_axial(spec_axial_to_cube(a)) == a,
{
    lemma_cube_round_trips(spec_axial_to_cube(a), o);
}

/// Converting directly between offset and doubled coordinates gives what
/// going through cube coordinates gives.
pub proof fn lemma_conversions_agree_with_cube(v: (int, int), o: Orientation)
    ensures
        spec_offset_odd_to_offset_even(v, o) == spec_cube_to_offset_even(spec_offset_odd_to_cube(v, o), o),
        spec_offset_even_to_offset_odd(v, o) == spec_cube_to_offset_odd(spec_offset_even_to_cube(v, o), o),
        spec_offset_odd_to_doubled(v, o) == spec_cube_to_doubled(spec_offset_odd_to_cube(v, o), o),
        spec_offset_even_to_doubled(v, o) == spec_cube_to_doubled(spec_offset_even_to_cube(v, o), o),
        is_doubled(v) ==> spec_doubled_to_offset_odd(v, o) == spec_cube_to_offset_odd(
            spec_doubled_to_cube(v, o),
            o,
        ),
        is_doubled(v) ==> spec_doubled_to_offset_even(v, o) == spec_cube_to_offset_even(
            spec_doubled_to_cube(v, o),
            o,
        ),
{
    lemma_parity_facts(v.0);
    lemma_parity_facts(v.1);
    if is_doubled(v) {
        lemma_doubled_halves(v);
    }
}

/// Every conversion into cube coordinates gives components that sum to zero.
pub proof fn lemma_cube_results_sum_to_zero(v: (int, int), o: Orientation)
    ensures
        is_cube(spec_offset_odd_to_cube(v, o)),
        is_cube(spec_offset_even_to_cube(v, o)),
        is_cube(spec_doubled_to_cube(v, o)),
        is_cube(spec_axial_to_cube(v)),
{
}

/// The halvings that the doubled conversions make are exact on a doubled
/// coordinate that names a hex.
proof fn lemma_doubled_halves(v: (int, int))
    requires
        is_doubled(v),
    ensures
        parity(v.0) == parity(v.1),
        half_toward_zero(v.1 - v.0) * 2 == v.1 - v.0,
        half_toward_zero(v.0 - v.1) * 2 == v.0 - v.1,
        parity(v.0) == 0 ==> half_toward_zero(v.0) * 2 == v.0 && half_toward_zero(v.1) * 2 == v.1,
        parity(v.0) == 1 ==> half_toward_zero(v.0 - 1) * 2 == v.0 - 1 && half_toward_zero(v.0 + 1)
            * 2 == v.0 + 1,
        parity(v.0) == 1 ==> half_toward_zero(v.1 - 1) * 2 == v.1 - 1 && half_toward_zero(v.1 + 1)
            * 2 == v.1 + 1,
{
    let (x, y) = v;
    assert(parity(x) == parity(y)) by {
        assert((x + y) % 2 == 0);
        assert(x % 2 == y % 2) by (nonlinear_arith)
            requires
                (x + y) % 2 == 0,
        ;
    }
    assert(parity(y - x) == 0) by {
        assert((y - x) % 2 == 0) by (nonlinear_arith)
            requires
                x % 2 == y % 2,
        ;
    }
    assert(parity(x - y) == 0) by {
        assert((x - y) % 2 == 0) by (nonlinear_arith)
            requires
                x % 2 == y % 2,
        ;
    }
    lemma_parity_facts(x);
    lemma_parity_facts(y);
    lemma_parity_facts(y - x);
    lemma_parity_facts(x - y);
}

proof fn lemma_parity_facts(a: int)
    ensures
        parity(a) == 0 || parity(a) == 1,
        (a - parity(a)) / 2 * 2 == a - parity(a),
        (a + parity(a)) / 2 * 2 == a + parity(a),
        parity(a) == 0 ==> half_toward_zero(a) * 2 == a,
        parity(a) == 1 ==> half_toward_zero(a - 1) * 2 == a - 1,
        parity(a) == 1 ==> half_toward_zero(a + 1) * 2 == a + 1,
        forall|k: int| #[trigger] parity(a + 2 * k) == parity(a),
        forall|k: int| #[trigger] parity(2 * k - a) == parity(a),
{
    assert forall|k: int| #[trigger] parity(a + 2 * k) == parity(a) by {
        assert((a + 2 * k) % 2 == a % 2) by (nonlinear_arith);
    }
    assert forall|k: int| #[trigger] parity(2 * k - a) == parity(a) by {
        assert((2 * k - a) % 2 == a % 2) by (nonlinear_arith);
    }
}

/// `x & 1` is the parity of `x`, for negative values too.
proof fn lemma_low_bit(x: i32)
    ensures
        (x & 1) as int == parity(x as int),
{
    assert(x & 1 == 0 || x & 1 == 1) by (bit_vector);
    assert((x & 1 == 0) <==> (x % 2 == 0)) by (bit_vector);
}

// Nearest-hex rounding.

/// What rounding keeps of `rounded`: the component whose rounding residual is
/// largest is recomputed from the other two. `x_largest` says that the x
/// residual exceeds both others, `y_over_z` that the y residual exceeds the
/// z residual.
pub open spec fn spec_cube_round_resolve(rounded: (int, int, int), x_largest: bool, y_over_z: bool) -> (
    int,
    int,
    int,
) {
    if x_largest {
        (-rounded.1 - rounded.2, rounded.1, rounded.2)
    } else if y_over_z {
        (rounded.0, -rounded.0 - rounded.2, rounded.2)
    } else {
        (rounded.0, rounded.1, -rounded.0 - rounded.1)
    }
}

pub open spec fn fits_cube_round_resolve(rounded: (int, int, int), x_largest: bool, y_over_z: bool) -> bool {
    if x_largest {
        fits(-rounded.1) && fits(-rounded.1 - rounded.2)
    } else if y_over_z {
        fits(-rounded.0) && fits(-rounded.0 - rounded.2)
    } else {
        fits(-rounded.0) && fits(-rounded.0 - rounded.1)
    }
}

/// The last step of rounding a fractional cube coordinate to the nearest hex.
/// `rounded` holds the three components each rounded on its own; the flags
/// compare their rounding residuals `dx`, `dy`, `dz`. The component with the
/// largest residual is recomputed from the other two, so that the three sum
/// to zero: x when `dx > dy` and `dx > dz`, otherwise y when `dy > dz`,
/// otherwise z.
pub fn cube_round_resolve(rounded: (i32, i32, i32), dx_gt_dy: bool, dx_gt_dz: bool, dy_gt_dz: bool) -> (r: (
    i32,
    i32,
    i32,
))
    requires
        fits_cube_round_resolve(int3(rounded), dx_gt_dy && dx_gt_dz, dy_gt_dz),
    ensures
        int3(r) == spec_cube_round_resolve(int3(rounded), dx_gt_dy && dx_gt_dz, dy_gt_dz),
        r.0 + r.1 + r.2 == 0,
{
    let (rx, ry, rz) = rounded;
    if dx_gt_dy && dx_gt_dz {
        (-ry - rz, ry, rz)
    } else if dy_gt_dz {
        (rx, -rx - rz, rz)
    } else {
        (rx, ry, -rx - ry)
    }
}

// Conversions that choose the formula by orientation.

/// Converts offset even coordinates to offset odd coordinates for hexes of the given orientation.
pub fn offset_even_to_offset_odd(input: (i32, i32), orientation: Orientation) -> (r: (i32, i32))
    requires
        fits_offset_even_to_offset_odd(int2(input), orientation),
    ensures
        int2(r) == spec_offset_even_to_offset_odd(int2(input), orientation),
{
    match orientation {
        Orientation::Flat => flat_offset_even_to_offset_odd(input),
        Orientation::Pointy => pointy_offset_even_to_offset_odd(input),
    }
}

/// Converts offset odd coordinates to offset even coordinates for hexes of the given orientation.
pub fn offset_odd_to_offset_even(input: (i32, i32), orientation: Orientation) -> (r: (i32, i32))
    requires
        fits_offset_odd_to_offset_even(int2(input), orientation),
    ensures
        int2(r) == spec_offset_odd_to_offset_even(int2(input), orientation),
{
    match orientation {
        Orientation::Flat => flat_offset_odd_to_offset_even(input),
        Orientation::Pointy => pointy_offset_odd_to_offset_even(input),
    }
}

/// Converts doubled coordinates to offset odd coordinates for hexes of the given orientation.
pub fn doubled_to_offset_odd(input: (i32, i32), orientation: Orientation) -> (r: (i32, i32))
    requires
        fits_doubled_to_offset_odd(int2(input), orientation),
    ensures
        int2(r) == spec_doubled_to_offset_odd(int2(input), orientation),
{
    match orientation {
        Orientation::Flat => flat_doubled_to_offset_odd(input),
        Orientation::Pointy => pointy_doubled_to_offset_odd(input),
    }
}

/// Converts doubled coordinates to offset even coordinates for hexes of the given orientation.
pub fn doubled_to_offset_even(input: (i32, i32), orientation: Orientation) -> (r: (i32, i32))
    requires
        fits_doubled_to_offset_even(int2(input), orientation),
    ensures
        int2(r) == spec_doubled_to_offset_even(int2(input), orientation),
{
    match orientation {
        Orientation::Flat => flat_doubled_to_offset_even(input),
        Orientation::Pointy => pointy_doubled_to_offset_even(input),
    }
}

/// Converts cube coordinates to offset odd coordinates for hexes of the given orientation.
pub fn cube_to_offset_odd(input: (i32, i32, i32), orientation: Orientation) -> (r: (i32, i32))
    requires
        fits_cube_to_offset_odd(int3(input), orientation),
    ensures
        int2(r) == spec_cube_to_offset_odd(int3(input), orientation),
{
    match orientation {
        Orientation::Flat => flat_cube_to_offset_odd(input),
        Orientation::Pointy => pointy_cube_to_offset_odd(input),
    }
}

/// Converts cube coordinates to offset even coordinates for hexes of the given orientation.
pub fn cube_to_offset_even(input: (i32, i32, i32), orientation: Orientation) -> (r: (i32, i32))
    requires
        fits_cube_to_offset_even(int3(input), orientation),
    ensures
        int2(r) == spec_cube_to_offset_even(int3(input), orientation),
{
    match orientation {
        Orientation::Flat => flat_cube_to_offset_even(input),
        Orientation::Pointy => pointy_cube_to_offset_even(input),
    }
}

/// Converts axial coordinates to offset odd coordinates for hexes of the given orientation.
pub fn axial_to_offset_odd(input: (i32, i32), orientation: Orientation) -> (r: (i32, i32))
    requires
        fits_axial_to_offset_odd(int2(input), orientation),
    ensures
        int2(r) == spec_cube_to_offset_odd(spec_axial_to_cube(int2(input)), orientation),
{
    match orientation {
        Orientation::Flat => flat_axial_to_offset_odd(input),
        Orientation::Pointy => pointy_axial_to_offset_odd(input),
    }
}

/// Converts axial coordinates to offset even coordinates for hexes of the given orientation.
pub fn axial_to_offset_even(input: (i32, i32), orientation: Orientation) -> (r: (i32, i32))
    requires
        fits_axial_to_offset_even(int2(input), orientation),
    ensures
        int2(r) == spec_cube_to_offset_even(spec_axial_to_cube(int2(input)), orientation),
{
    match orientation {
        Orientation::Flat => flat_axial_to_offset_even(input),
        Orientation::Pointy => pointy_axial_to_offset_even(input),
    }
}

/// Converts offset odd coordinates to doubled coordinates for hexes of the given orientation.
pub fn offset_odd_to_doubled(input: (i32, i32), orientation: Orientation) -> (r: (i32, i32))
    requires
        fits_offset_odd_to_doubled(int2(input), orientation),
    ensures
        int2(r) == spec_offset_odd_to_doubled(int2(input), orientation),
{
    match orientation {
        Orientation::Flat => flat_offset_odd_to_doubled(input),
        Orientation::Pointy => pointy_offset_odd_to_doubled(input),
    }
}

/// Converts offset even coordinates to doubled coordinates for hexes of the given orientation.
pub fn offset_even_to_doubled(input: (i32, i32), orientation: Orientation) -> (r: (i32, i32))
    requires
        fits_offset_even_to_doubled(int2(input), orientation),
    ensures
        int2(r) == spec_offset_even_to_doubled(int2(input), orientation),
{
    match orientation {
        Orientation::Flat => flat_offset_even_to_doubled(input),
        Orientation::Pointy => pointy_offset_even_to_doubled(input),
    }
}

/// Converts cube coordinates to doubled coordinates for hexes of the given orientation.
pub fn cube_to_doubled(input: (i32, i32, i32), orientation: Orientation) -> (r: (i32, i32))
    requires
        fits_cube_to_doubled(int3(input), orientation),
    ensures
        int2(r) == spec_cube_to_doubled(int3(input), orientation),
{
    match orientation {
        Orientation::Flat => flat_cube_to_doubled(input),
        Orientation::Pointy => pointy_cube_to_doubled(input),
    }
}

/// Converts axial coordinates to doubled coordinates for hexes of the given orientation.
pub fn axial_to_doubled(input: (i32, i32), orientation: Orientation) -> (r: (i32, i32))
    requires
        fits_axial_to_doubled(int2(input), orientation),
    ensures
        int2(r) == spec_cube_to_doubled(spec_axial_to_cube(int2(input)), orientation),
{
    match orientation {
        Orientation::Flat => flat_axial_to_doubled(input),
        Orientation::Pointy => pointy_axial_to_doubled(input),
    }
}

/// Converts offset odd coordinates to cube coordinates for hexes of the given orientation.
pub fn offset_odd_to_cube(input: (i32, i32), orientation: Orientation) -> (r: (i32, i32, i32))
    requires
        fits_offset_odd_to_cube(int2(input), orientation),
    ensures
        int3(r) == spec_offset_odd_to_cube(int2(input), orientation),
{
    match orientation {
        Orientation::Flat => flat_offset_odd_to_cube(input),
        Orientation::Pointy => pointy_offset_odd_to_cube(input),
    }
}

/// Converts offset even coordinates to cube coordinates for hexes of the given orientation.
pub fn offset_even_to_cube(input: (i32, i32), orientation: Orientation) -> (r: (i32, i32, i32))
    requires
        fits_offset_even_to_cube(int2(input), orientation),
    ensures
        int3(r) == spec_offset_even_to_cube(int2(input), orientation),
{
    match orientation {
        Orientation::Flat => flat_offset_even_to_cube(input),
        Orientation::Pointy => pointy_offset_even_to_cube(input),
    }
}

/// Converts doubled coordinates to cube coordinates for hexes of the given orientation.
pub fn doubled_to_cube(input: (i32, i32), orientation: Orientation) -> (r: (i32, i32, i32))
    requires
        fits_doubled_to_cube(int2(input), orientation),
    ensures
        int3(r) == spec_doubled_to_cube(int2(input), orientation),
{
    match orientation {
        Orientation::Flat => flat_doubled_to_cube(input),
        Orientation::Pointy => pointy_doubled_to_cube(input),
    }
}

/// Converts offset odd coordinates to axial coordinates for hexes of the given orientation.
pub fn offset_odd_to_axial(input: (i32, i32), orientation: Orientation) -> (r: (i32, i32))
    requires
        fits_offset_odd_to_cube(int2(input), orientation),
    ensures
        int2(r) == spec_cube_to_axial(spec_offset_odd_to_cube(int2(input), orientation)),
{
    match orientation {
        Orientation::Flat => flat_offset_odd_to_axial(input),
        Orientation::Pointy => pointy_offset_odd_to_axial(input),
    }
}

/// Converts offset even coordinates to axial coordinates for hexes of the given orientation.
pub fn offset_even_to_axial(input: (i32, i32), orientation: Orientation) -> (r: (i32, i32))
    requires
        fits_offset_even_to_cube(int2(input), orientation),
    ensures
        int2(r) == spec_cube_to_axial(spec_offset_even_to_cube(int2(input), orientation)),
{
    match orientation {
        Orientation::Flat => flat_offset_even_to_axial(input),
        Orientation::Pointy => pointy_offset_even_to_axial(input),
    }
}

/// Converts doubled coordinates to axial coordinates for hexes of the given orientation.
pub fn doubled_to_axial(input: (i32, i32), orientation: Orientation) -> (r: (i32, i32))
    requires
        fits_doubled_to_cube(int2(input), orientation),
    ensures
        int2(r) == spec_cube_to_axial(spec_doubled_to_cube(int2(input), orientation)),
{
    match orientation {
        Orientation::Flat => flat_doubled_to_axial(input),
        Orientation::Pointy => pointy_doubled_to_axial(input),
    }
}

/// Drops the redundant middle component of a cube coordinate.
pub fn cube_to_axial(input: (i32, i32, i32)) -> (r: (i32, i32))
    ensures
        int2(r) == spec_cube_to_axial(int3(input)),
{
    let (x, _y, z) = input;
    (x, z)
}

/// Restores the middle component so that the three sum to zero.
pub fn axial_to_cube(input: (i32, i32)) -> (r: (i32, i32, i32))
    requires
        fits_axial_to_cube(int2(input)),
    ensures
        int3(r) == spec_axial_to_cube(int2(input)),
        r.0 + r.1 + r.2 == 0,
{
    let (q, r) = input;
    (q, -q - r, r)
}

/// As `cube_to_axial`; the orientation plays no part.
pub fn cube_to_axial_orient(input: (i32, i32, i32), _o: Orientation) -> (r: (i32, i32))
    ensures
        int2(r) == spec_cube_to_axial(int3(input)),
{
    cube_to_axial(input)
}

/// As `axial_to_cube`; the orientation plays no part.
pub fn axial_to_cube_orient(input: (i32, i32), _o: Orientation) -> (r: (i32, i32, i32))
    requires
        fits_axial_to_cube(int2(input)),
    ensures
        int3(r) == spec_axial_to_cube(int2(input)),
        r.0 + r.1 + r.2 == 0,
{
    axial_to_cube(input)
}

// One formula per orientation.

pub fn flat_offset_even_to_offset_odd(input: (i32, i32)) -> (r: (i32, i32))
    requires
        fits_offset_even_to_offset_odd(int2(input), Orientation::Flat),
    ensures
        int2(r) == spec_offset_even_to_offset_odd(int2(input), Orientation::Flat),
{
    let (x, y) = input;
    (x, match x % 2 {
        0 => y,
        _ => y - 1,
    })
}

pub fn pointy_offset_even_to_offset_odd(input: (i32, i32)) -> (r: (i32, i32))
    requires
        fits_offset_even_to_offset_odd(int2(input), Orientation::Pointy),
    ensures
        int2(r) == spec_offset_even_to_offset_odd(int2(input), Orientation::Pointy),
{
    let (x, y) = input;
    (
        match y % 2 {
            0 => x,
            _ => x - 1,
        },
        y,
    )
}

pub fn flat_offset_odd_to_offset_even(input: (i32, i32)) -> (r: (i32, i32))
    requires
        fits_offset_odd_to_offset_even(int2(input), Orientation::Flat),
    ensures
        int2(r) == spec_offset_odd_to_offset_even(int2(input), Orientation::Flat),
{
    let (x, y) = input;
    (x, match x % 2 {
        0 => y,
        _ => y + 1,
    })
}

pub fn pointy_offset_odd_to_offset_even(input: (i32, i32)) -> (r: (i32, i32))
    requires
        fits_offset_odd_to_offset_even(int2(input), Orientation::Pointy),
    ensures
        int2(r) == spec_offset_odd_to_offset_even(int2(input), Orientation::Pointy),
{
    let (x, y) = input;
    (
        match y % 2 {
            0 => x,
            _ => x + 1,
        },
        y,
    )
}

pub fn flat_doubled_to_offset_odd(input: (i32, i32)) -> (r: (i32, i32))
    requires
        fits_doubled_to_offset_odd(int2(input), Orientation::Flat),
    ensures
        int2(r) == spec_doubled_to_offset_odd(int2(input), Orientation::Flat),
{
    let (x, y) = input;
    (x, match x % 2 {
        0 => y / 2,
        _ => (y - 1) / 2,
    })
}

pub fn pointy_doubled_to_offset_odd(input: (i32, i32)) -> (r: (i32, i32))
    requires
        fits_doubled_to_offset_odd(int2(input), Orientation::Pointy),
    ensures
        int2(r) == spec_doubled_to_offset_odd(int2(input), Orientation::Pointy),
{
    let (x, y) = input;
    (
        match y % 2 {
            0 => x / 2,
            _ => (x - 1) / 2,
        },
        y,
    )
}

pub fn flat_doubled_to_offset_even(input: (i32, i32)) -> (r: (i32, i32))
    requires
        fits_doubled_to_offset_even(int2(input), Orientation::Flat),
    ensures
        int2(r) == spec_doubled_to_offset_even(int2(input), Orientation::Flat),
{
    let (x, y) = input;
    (x, match x % 2 {
        0 => y / 2,
        _ => (y + 1) / 2,
    })
}

pub fn pointy_doubled_to_offset_even(input: (i32, i32)) -> (r: (i32, i32))
    requires
        fits_doubled_to_offset_even(int2(input), Orientation::Pointy),
    ensures
        int2(r) == spec_doubled_to_offset_even(int2(input), Orientation::Pointy),
{
    let (x, y) = input;
    (
        match y % 2 {
            0 => x / 2,
            _ => (x + 1) / 2,
        },
        y,
    )
}

pub fn flat_cube_to_offset_odd(input: (i32, i32, i32)) -> (r: (i32, i32))
    requires
        fits_cube_to_offset_odd(int3(input), Orientation::Flat),
    ensures
        int2(r) == spec_cube_to_offset_odd(int3(input), Orientation::Flat),
{
    let (x, _y, z) = input;
    proof { lemma_low_bit(x); }
    (x, z + ((x - (x & 1)) / 2))
}

pub fn pointy_cube_to_offset_odd(input: (i32, i32, i32)) -> (r: (i32, i32))
    requires
        fits_cube_to_offset_odd(int3(input), Orientation::Pointy),
    ensures
        int2(r) == spec_cube_to_offset_odd(int3(input), Orientation::Pointy),
{
    let (x, _y, z) = input;
    proof { lemma_low_bit(z); }
    (x + ((z - (z & 1)) / 2), z)
}

pub fn flat_cube_to_offset_even(input: (i32, i32, i32)) -> (r: (i32, i32))
    requires
        fits_cube_to_offset_even(int3(input), Orientation::Flat),
    ensures
        int2(r) == spec_cube_to_offset_even(int3(input), Orientation::Flat),
{
    let (x, _y, z) = input;
    proof { lemma_low_bit(x); }
    (x, z + ((x + (x & 1)) / 2))
}

pub fn pointy_cube_to_offset_even(input: (i32, i32, i32)) -> (r: (i32, i32))
    requires
        fits_cube_to_offset_even(int3(input), Orientation::Pointy),
    ensures
        int2(r) == spec_cube_to_offset_even(int3(input), Orientation::Pointy),
{
    let (x, _y, z) = input;
    proof { lemma_low_bit(z); }
    (x + (z + (z & 1)) / 2, z)
}

pub fn flat_axial_to_offset_odd(input: (i32, i32)) -> (r: (i32, i32))
    requires
        fits_axial_to_offset_odd(int2(input), Orientation::Flat),
    ensures
        int2(r) == spec_cube_to_offset_odd(spec_axial_to_cube(int2(input)), Orientation::Flat),
{
    flat_cube_to_offset_odd(axial_to_cube(input))
}

pub fn pointy_axial_to_offset_odd(input: (i32, i32)) -> (r: (i32, i32))
    requires
        fits_axial_to_offset_odd(int2(input), Orientation::Pointy),
    ensures
        int2(r) == spec_cube_to_offset_odd(spec_axial_to_cube(int2(input)), Orientation::Pointy),
{
    pointy_cube_to_offset_odd(axial_to_cube(input))
}

pub fn flat_axial_to_offset_even(input: (i32, i32)) -> (r: (i32, i32))
    requires
        fits_axial_to_offset_even(int2(input), Orientation::Flat),
    ensures
        int2(r) == spec_cube_to_offset_even(spec_axial_to_cube(int2(input)), Orientation::Flat),
{
    flat_cube_to_offset_even(axial_to_cube(input))
}

pub fn pointy_axial_to_offset_even(input: (i32, i32)) -> (r: (i32, i32))
    requires
        fits_axial_to_offset_even(int2(input), Orientation::Pointy),
    ensures
        int2(r) == spec_cube_to_offset_even(spec_axial_to_cube(int2(input)), Orientation::Pointy),
{
    pointy_cube_to_offset_even(axial_to_cube(input))
}

pub fn flat_offset_odd_to_doubled(input: (i32, i32)) -> (r: (i32, i32))
    requires
        fits_offset_odd_to_doubled(int2(input), Orientation::Flat),
    ensures
        int2(r) == spec_offset_odd_to_doubled(int2(input), Orientation::Flat),
{
    let (x, y) = input;
    (x, match x % 2 {
        0 => y * 2,
        _ => (y * 2) + 1,
    })
}

pub fn pointy_offset_odd_to_doubled(input: (i32, i32)) -> (r: (i32, i32))
    requires
        fits_offset_odd_to_doubled(int2(input), Orientation::Pointy),
    ensures
        int2(r) == spec_offset_odd_to_doubled(int2(input), Orientation::Pointy),
{
    let (x, y) = input;
    (
        match y % 2 {
            0 => x * 2,
            _ => (x * 2) + 1,
        },
        y,
    )
}

pub fn flat_offset_even_to_doubled(input: (i32, i32)) -> (r: (i32, i32))
    requires
        fits_offset_even_to_doubled(int2(input), Orientation::Flat),
    ensures
        int2(r) == spec_offset_even_to_doubled(int2(input), Orientation::Flat),
{
    let (x, y) = input;
    (x, match x % 2 {
        0 => y * 2,
        _ => (y * 2) - 1,
    })
}

pub fn pointy_offset_even_to_doubled(input: (i32, i32)) -> (r: (i32, i32))
    requires
        fits_offset_even_to_doubled(int2(input), Orientation::Pointy),
    ensures
        int2(r) == spec_offset_even_to_doubled(int2(input), Orientation::Pointy),
{
    let (x, y) = input;
    (
        match y % 2 {
            0 => x * 2,
            _ => (x * 2) - 1,
        },
        y,
    )
}

pub fn flat_cube_to_doubled(input: (i32, i32, i32)) -> (r: (i32, i32))
    requires
        fits_cube_to_doubled(int3(input), Orientation::Flat),
    ensures
        int2(r) == spec_cube_to_doubled(int3(input), Orientation::Flat),
{
    let (x, _y, z) = input;
    (x, (2 * z) + x)
}

pub fn pointy_cube_to_doubled(input: (i32, i32, i32)) -> (r: (i32, i32))
    requires
        fits_cube_to_doubled(int3(input), Orientation::Pointy),
    ensures
        int2(r) == spec_cube_to_doubled(int3(input), Orientation::Pointy),
{
    let (x, _y, z) = input;
    ((2 * x) + z, z)
}

pub fn flat_axial_to_doubled(input: (i32, i32)) -> (r: (i32, i32))
    requires
        fits_axial_to_doubled(int2(input), Orientation::Flat),
    ensures
        int2(r) == spec_cube_to_doubled(spec_axial_to_cube(int2(input)), Orientation::Flat),
{
    flat_cube_to_doubled(axial_to_cube(input))
}

pub fn pointy_axial_to_doubled(input: (i32, i32)) -> (r: (i32, i32))
    requires
        fits_axial_to_doubled(int2(input), Orientation::Pointy),
    ensures
        int2(r) == spec_cube_to_doubled(spec_axial_to_cube(int2(input)), Orientation::Pointy),
{
    pointy_cube_to_doubled(axial_to_cube(input))
}

pub fn flat_offset_odd_to_cube(input: (i32, i32)) -> (r: (i32, i32, i32))
    requires
        fits_offset_odd_to_cube(int2(input), Orientation::Flat),
    ensures
        int3(r) == spec_offset_odd_to_cube(int2(input), Orientation::Flat),
        r.0 + r.1 + r.2 == 0,
{
    let (x, y) = input;
    proof { lemma_low_bit(x); }
    let z = y - ((x - (x & 1)) / 2);
    (x, -x - z, z)
}

pub fn pointy_offset_odd_to_cube(input: (i32, i32)) -> (r: (i32, i32, i32))
    requires
        fits_offset_odd_to_cube(int2(input), Orientation::Pointy),
    ensures
        int3(r) == spec_offset_odd_to_cube(int2(input), Orientation::Pointy),
        r.0 + r.1 + r.2 == 0,
{
    let (x, y) = input;
    proof { lemma_low_bit(y); }
    let x = x - ((y - (y & 1)) / 2);
    (x, -x - y, y)
}

#[verifier::rlimit(40)]
pub fn flat_offset_even_to_cube(input: (i32, i32)) -> (r: (i32, i32, i32))
    requires
        fits_offset_even_to_cube(int2(input), Orientation::Flat),
    ensures
        int3(r) == spec_offset_even_to_cube(int2(input), Orientation::Flat),
        r.0 + r.1 + r.2 == 0,
{
    let (x, y) = input;
    proof { lemma_low_bit(x); }
    let z = y - ((x + (x & 1)) / 2);
    (x, -x - z, z)
}

pub fn pointy_offset_even_to_cube(input: (i32, i32)) -> (r: (i32, i32, i32))
    requires
        fits_offset_even_to_cube(int2(input), Orientation::Pointy),
    ensures
        int3(r) == spec_offset_even_to_cube(int2(input), Orientation::Pointy),
        r.0 + r.1 + r.2 == 0,
{
    let (x, y) = input;
    proof { lemma_low_bit(y); }
    let x = x - ((y + (y & 1)) / 2);
    (x, -x - y, y)
}

pub fn flat_doubled_to_cube(input: (i32, i32)) -> (r: (i32, i32, i32))
    requires
        fits_doubled_to_cube(int2(input), Orientation::Flat),
    ensures
        int3(r) == spec_doubled_to_cube(int2(input), Orientation::Flat),
        r.0 + r.1 + r.2 == 0,
{
    let (x, y) = input;
    let z = (y - x) / 2;
    (x, -x - z, z)
}

pub fn pointy_doubled_to_cube(input: (i32, i32)) -> (r: (i32, i32, i32))
    requires
        fits_doubled_to_cube(int2(input), Orientation::Pointy),
    ensures
        int3(r) == spec_doubled_to_cube(int2(input), Orientation::Pointy),
        r.0 + r.1 + r.2 == 0,
{
    let (x, y) = input;
    let x = (x - y) / 2;
    (x, -x - y, y)
}

pub fn flat_offset_odd_to_axial(input: (i32, i32)) -> (r: (i32, i32))
    requires
        fits_offset_odd_to_cube(int2(input), Orientation::Flat),
    ensures
        int2(r) == spec_cube_to_axial(spec_offset_odd_to_cube(int2(input), Orientation::Flat)),
{
    cube_to_axial(flat_offset_odd_to_cube(input))
}

pub fn pointy_offset_odd_to_axial(input: (i32, i32)) -> (r: (i32, i32))
    requires
        fits_offset_odd_to_cube(int2(input), Orientation::Pointy),
    ensures
        int2(r) == spec_cube_to_axial(spec_offset_odd_to_cube(int2(input), Orientation::Pointy)),
{
    cube_to_axial(pointy_offset_odd_to_cube(input))
}

pub fn flat_offset_even_to_axial(input: (i32, i32)) -> (r: (i32, i32))
    requires
        fits_offset_even_to_cube(int2(input), Orientation::Flat),
    ensures
        int2(r) == spec_cube_to_axial(spec_offset_even_to_cube(int2(input), Orientation::Flat)),
{
    cube_to_axial(flat_offset_even_to_cube(input))
}

pub fn pointy_offset_even_to_axial(input: (i32, i32)) -> (r: (i32, i32))
    requires
        fits_offset_even_to_cube(int2(input), Orientation::Pointy),
    ensures
        int2(r) == spec_cube_to_axial(spec_offset_even_to_cube(int2(input), Orientation::Pointy)),
{
    cube_to_axial(pointy_offset_even_to_cube(input))
}

pub fn flat_doubled_to_axial(input: (i32, i32)) -> (r: (i32, i32))
    requires
        fits_doubled_to_cube(int2(input), Orientation::Flat),
    ensures
        int2(r) == spec_cube_to_axial(spec_doubled_to_cube(int2(input), Orientation::Flat)),
{
    cube_to_axial(flat_doubled_to_cube(input))
}

pub fn pointy_doubled_to_axial(input: (i32, i32)) -> (r: (i32, i32))
    requires
        fits_doubled_to_cube(int2(input), Orientation::Pointy),
    ensures
        int2(r) == spec_cube_to_axial(spec_doubled_to_cube(int2(input), Orientation::Pointy)),
{
    cube_to_axial(pointy_doubled_to_cube(input))
}
} // verus!
