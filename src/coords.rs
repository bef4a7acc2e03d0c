use vstd::prelude::*;
use crate::alg::abs;
use crate::convert::{
    axial_to_cube_orient,
    cube_to_axial_orient,
    cube_to_doubled,
    cube_to_offset_even,
    cube_to_offset_odd,
    doubled_to_axial,
    doubled_to_cube,
    doubled_to_offset_even,
    doubled_to_offset_odd,
    fits_axial_to_cube,
    fits_axial_to_doubled,
    fits_axial_to_offset_even,
    fits_axial_to_offset_odd,
    fits_cube_to_doubled,
    fits_cube_to_offset_even,
    fits_cube_to_offset_odd,
    fits_doubled_to_cube,
    fits_doubled_to_offset_even,
    fits_doubled_to_offset_odd,
    fits_offset_even_to_cube,
    fits_offset_even_to_doubled,
    fits_offset_even_to_offset_odd,
    fits_offset_odd_to_cube,
    fits_offset_odd_to_doubled,
    fits_offset_odd_to_offset_even,
    int2,
    int3,
    is_cube,
    is_doubled,
    lemma_axial_round_trips,
    lemma_conversions_agree_with_cube,
    lemma_cube_results_sum_to_zero,
    lemma_cube_round_trips,
    lemma_doubled_round_trips,
    lemma_offset_even_round_trips,
    lemma_offset_odd_round_trips,
    offset_even_to_axial,
    offset_even_to_cube,
    offset_even_to_doubled,
    offset_even_to_offset_odd,
    offset_odd_to_axial,
    offset_odd_to_cube,
    offset_odd_to_doubled,
    offset_odd_to_offset_even,
    axial_to_doubled,
    axial_to_offset_even,
    axial_to_offset_odd,
    parity,
    spec_axial_to_cube,
    spec_cube_to_axial,
    spec_cube_to_doubled,
    spec_cube_to_offset_even,
    spec_cube_to_offset_odd,
    spec_doubled_to_cube,
    spec_doubled_to_offset_even,
    spec_doubled_to_offset_odd,
    spec_offset_even_to_cube,
    spec_offset_even_to_doubled,
    spec_offset_even_to_offset_odd,
    spec_offset_odd_to_cube,
    spec_offset_odd_to_doubled,
    spec_offset_odd_to_offset_even,
};
use crate::utils::Orientation;
use vstd::std_specs::convert::FromSpecImpl;

verus! {

/// Identity of a hex within one grid: the components of its coordinate,
/// with a zero third component for the two-component representations.
#[derive(Clone, Copy, Debug, PartialEq, Eq, Hash, Default, Structural)]
pub struct CoordKey(pub i32, pub i32, pub i32);

impl From<(i32, i32)> for CoordKey {
    fn from(v: (i32, i32)) -> (k: CoordKey) {
        CoordKey(v.0, v.1, 0)
    }
}

impl FromSpecImpl<(i32, i32)> for CoordKey {
    open spec fn obeys_from_spec() -> bool {
        true
    }

    open spec fn from_spec(v: (i32, i32)) -> CoordKey {
        CoordKey(v.0, v.1, 0)
    }
}

impl From<(i32, i32, i32)> for CoordKey {
    fn from(v: (i32, i32, i32)) -> (k: CoordKey) {
        CoordKey(v.0, v.1, v.2)
    }
}

impl FromSpecImpl<(i32, i32, i32)> for CoordKey {
    open spec fn obeys_from_spec() -> bool {
        true
    }

    open spec fn from_spec(v: (i32, i32, i32)) -> CoordKey {
        CoordKey(v.0, v.1, v.2)
    }
}

/// How far from the origin, in hex steps, a coordinate value may lie. Within
/// it every conversion between representations stays inside `i32`.
pub const COORD_LIMIT: i32 = 0x1fff_ffff;

/// A hex, in cube coordinates, lies within `COORD_LIMIT` steps of the origin.
pub open spec fn in_bounds(c: (int, int, int)) -> bool {
    abs(c.0) <= COORD_LIMIT && abs(c.1) <= COORD_LIMIT && abs(c.2) <= COORD_LIMIT
}

pub open spec fn offset_odd_valid(v: (int, int), o: Orientation) -> bool {
    in_bounds(spec_offset_odd_to_cube(v, o))
}

pub open spec fn offset_even_valid(v: (int, int), o: Orientation) -> bool {
    in_bounds(spec_offset_even_to_cube(v, o))
}

pub open spec fn doubled_valid(v: (int, int), o: Orientation) -> bool {
    is_doubled(v) && in_bounds(spec_doubled_to_cube(v, o))
}

pub open spec fn cube_valid(c: (int, int, int)) -> bool {
    is_cube(c) && in_bounds(c)
}

pub open spec fn axial_valid(a: (int, int)) -> bool {
    in_bounds(spec_axial_to_cube(a))
}

pub open spec fn narrow2(v: (int, int)) -> (i32, i32) {
    (v.0 as i32, v.1 as i32)
}

pub open spec fn narrow3(v: (int, int, int)) -> (i32, i32, i32) {
    (v.0 as i32, v.1 as i32, v.2 as i32)
}

/// What the five coordinate representations share. A value names a hex of
/// one orientation; its components are `TupleRep`.
pub trait CoordType: Sized {
    type TupleRep;

    /// The stored components.
    spec fn rep(&self) -> Self::TupleRep;

    /// The stored orientation.
    spec fn orient(&self) -> Orientation;

    /// The value with the given components and orientation.
    spec fn spec_new(rep: Self::TupleRep, orientation: Orientation) -> Self;

    /// The components name a hex (for cube and doubled coordinates this
    /// constrains them) that lies within `COORD_LIMIT` steps of the origin.
    spec fn valid(rep: Self::TupleRep, orientation: Orientation) -> bool;

    /// The key that a value with these components has.
    spec fn key_of(rep: Self::TupleRep) -> CoordKey;

    proof fn lemma_spec_new(rep: Self::TupleRep, orientation: Orientation)
        ensures
            Self::spec_new(rep, orientation).rep() == rep,
            Self::spec_new(rep, orientation).orient() == orientation,
    ;

    /// Tells whether `new` accepts these components.
    fn is_valid(rep: Self::TupleRep, orientation: Orientation) -> (b: bool)
        ensures
            b == Self::valid(rep, orientation),
    ;

    fn new(rep: Self::TupleRep, orientation: Orientation) -> (r: Self)
        requires
            Self::valid(rep, orientation),
        ensures
            r == Self::spec_new(rep, orientation),
            r.rep() == rep,
            r.orient() == orientation,
    ;

    fn get(&self) -> (r: Self::TupleRep)
        ensures
            r == self.rep(),
            Self::valid(r, self.orient()),
    ;

    fn get_key(&self) -> (k: CoordKey)
        ensures
            k == Self::key_of(self.rep()),
    ;

    fn orientation(&self) -> (o: Orientation)
        ensures
            o == self.orient(),
    ;
}

fn within_limit(a: i64) -> (b: bool)
    ensures
        b == (abs(a as int) <= COORD_LIMIT),
{
    -(COORD_LIMIT as i64) <= a && a <= COORD_LIMIT as i64
}

fn parity_of(a: i64) -> (p: i64)
    ensures
        p == parity(a as int),
{
    if a % 2 == 0 {
        0
    } else {
        1
    }
}

/// Offset coordinates in which the odd columns (flat) or rows (pointy) are shifted by half a hex.
pub struct OffsetOddCoords {
    x: i32,
    y: i32,
    orientation: Orientation,
}

impl OffsetOddCoords {
    #[verifier::type_invariant]
    spec fn inv(self) -> bool {
        offset_odd_valid((self.x as int, self.y as int), self.orientation)
    }
}

impl CoordType for OffsetOddCoords {
    type TupleRep = (i32, i32);

    closed spec fn rep(&self) -> (i32, i32) {
        (self.x, self.y)
    }

    closed spec fn orient(&self) -> Orientation {
        self.orientation
    }

    closed spec fn spec_new(rep: (i32, i32), orientation: Orientation) -> Self {
        OffsetOddCoords { x: rep.0, y: rep.1, orientation }
    }

    open spec fn valid(rep: (i32, i32), orientation: Orientation) -> bool {
        offset_odd_valid(int2(rep), orientation)
    }

    open spec fn key_of(rep: (i32, i32)) -> CoordKey {
        CoordKey(rep.0, rep.1, 0)
    }

    proof fn lemma_spec_new(rep: (i32, i32), orientation: Orientation) {
    }

    fn is_valid(rep: (i32, i32), orientation: Orientation) -> (b: bool) {
        let (x, y) = (rep.0 as i64, rep.1 as i64);
        match orientation {
            Orientation::Flat => {
                let z = y - (x - parity_of(x)) / 2;
                within_limit(x) && within_limit(-x - z) && within_limit(z)
            },
            Orientation::Pointy => {
                let cx = x - (y - parity_of(y)) / 2;
                within_limit(cx) && within_limit(-cx - y) && within_limit(y)
            },
        }
    }

    fn new(rep: (i32, i32), orientation: Orientation) -> (r: Self) {
        OffsetOddCoords { x: rep.0, y: rep.1, orientation }
    }

    fn get(&self) -> (r: (i32, i32)) {
        proof {
            use_type_invariant(self);
        }
        (self.x, self.y)
    }

    fn get_key(&self) -> (k: CoordKey) {
        CoordKey::from((self.x, self.y))
    }

    fn orientation(&self) -> (o: Orientation) {
        self.orientation
    }
}

/// A valid offset-odd value converts to every other representation
/// without leaving `i32`, and into a valid value that names the same hex.
proof fn lemma_from_offset_odd(v: (int, int), o: Orientation)
    requires
        offset_odd_valid(v, o),
    ensures
        fits_offset_odd_to_offset_even(v, o),
        fits_offset_odd_to_doubled(v, o),
        fits_offset_odd_to_cube(v, o),
        offset_even_valid(spec_offset_odd_to_offset_even(v, o), o),
        doubled_valid(spec_offset_odd_to_doubled(v, o), o),
        cube_valid(spec_offset_odd_to_cube(v, o)),
        axial_valid(spec_cube_to_axial(spec_offset_odd_to_cube(v, o))),
{
    let c = spec_offset_odd_to_cube(v, o);
    lemma_offset_odd_round_trips(v, o);
    lemma_conversions_agree_with_cube(v, o);
    lemma_cube_round_trips(c, o);
    lemma_cube_results_sum_to_zero(v, o);
}

impl<'a> From<&'a OffsetEvenCoords> for OffsetOddCoords {
    fn from(input: &'a OffsetEvenCoords) -> (r: Self) {
        let v = input.get();
        let o = input.orientation();
        proof {
            lemma_from_offset_even(int2(v), o);
        }
        Self::new(offset_even_to_offset_odd(v, o), o)
    }
}

impl<'a> FromSpecImpl<&'a OffsetEvenCoords> for OffsetOddCoords {
    open spec fn obeys_from_spec() -> bool {
        true
    }

    open spec fn from_spec(input: &'a OffsetEvenCoords) -> Self {
        let o = input.orient();
        Self::spec_new(narrow2(spec_offset_even_to_offset_odd(int2(input.rep()), o)), o)
    }
}

impl<'a> From<&'a DoubledCoords> for OffsetOddCoords {
    fn from(input: &'a DoubledCoords) -> (r: Self) {
        let v = input.get();
        let o = input.orientation();
        proof {
            lemma_from_doubled(int2(v), o);
        }
        Self::new(doubled_to_offset_odd(v, o), o)
    }
}

impl<'a> FromSpecImpl<&'a DoubledCoords> for OffsetOddCoords {
    open spec fn obeys_from_spec() -> bool {
        true
    }

    open spec fn from_spec(input: &'a DoubledCoords) -> Self {
        let o = input.orient();
        Self::spec_new(narrow2(spec_doubled_to_offset_odd(int2(input.rep()), o)), o)
    }
}

impl<'a> From<&'a CubeCoords> for OffsetOddCoords {
    fn from(input: &'a CubeCoords) -> (r: Self) {
        let v = input.get();
        let o = input.orientation();
        proof {
            lemma_from_cube(int3(v), o);
        }
        Self::new(cube_to_offset_odd(v, o), o)
    }
}

impl<'a> FromSpecImpl<&'a CubeCoords> for OffsetOddCoords {
    open spec fn obeys_from_spec() -> bool {
        true
    }

    open spec fn from_spec(input: &'a CubeCoords) -> Self {
        let o = input.orient();
        Self::spec_new(narrow2(spec_cube_to_offset_odd(int3(input.rep()), o)), o)
    }
}

impl<'a> From<&'a AxialCoords> for OffsetOddCoords {
    fn from(input: &'a AxialCoords) -> (r: Self) {
        let v = input.get();
        let o = input.orientation();
        proof {
            lemma_from_axial(int2(v), o);
        }
        Self::new(axial_to_offset_odd(v, o), o)
    }
}

impl<'a> FromSpecImpl<&'a AxialCoords> for OffsetOddCoords {
    open spec fn obeys_from_spec() -> bool {
        true
    }

    open spec fn from_spec(input: &'a AxialCoords) -> Self {
        let o = input.orient();
        Self::spec_new(narrow2(spec_cube_to_offset_odd(spec_axial_to_cube(int2(input.rep())), o)), o)
    }
}

/// Offset coordinates in which the even columns (flat) or rows (pointy) are shifted by half a hex.
pub struct OffsetEvenCoords {
    x: i32,
    y: i32,
    orientation: Orientation,
}

impl OffsetEvenCoords {
    #[verifier::type_invariant]
    spec fn inv(self) -> bool {
        offset_even_valid((self.x as int, self.y as int), self.orientation)
    }
}

impl CoordType for OffsetEvenCoords {
    type TupleRep = (i32, i32);

    closed spec fn rep(&self) -> (i32, i32) {
        (self.x, self.y)
    }

    closed spec fn orient(&self) -> Orientation {
        self.orientation
    }

    closed spec fn spec_new(rep: (i32, i32), orientation: Orientation) -> Self {
        OffsetEvenCoords { x: rep.0, y: rep.1, orientation }
    }

    open spec fn valid(rep: (i32, i32), orientation: Orientation) -> bool {
        offset_even_valid(int2(rep), orientation)
    }

    open spec fn key_of(rep: (i32, i32)) -> CoordKey {
        CoordKey(rep.0, rep.1, 0)
    }

    proof fn lemma_spec_new(rep: (i32, i32), orientation: Orientation) {
    }

    fn is_valid(rep: (i32, i32), orientation: Orientation) -> (b: bool) {
        let (x, y) = (rep.0 as i64, rep.1 as i64);
        match orientation {
            Orientation::Flat => {
                let z = y - (x + parity_of(x)) / 2;
                within_limit(x) && within_limit(-x - z) && within_limit(z)
            },
            Orientation::Pointy => {
                let cx = x - (y + parity_of(y)) / 2;
                within_limit(cx) && within_limit(-cx - y) && within_limit(y)
            },
        }
    }

    fn new(rep: (i32, i32), orientation: Orientation) -> (r: Self) {
        OffsetEvenCoords { x: rep.0, y: rep.1, orientation }
    }

    fn get(&self) -> (r: (i32, i32)) {
        proof {
            use_type_invariant(self);
        }
        (self.x, self.y)
    }

    fn get_key(&self) -> (k: CoordKey) {
        CoordKey::from((self.x, self.y))
    }

    fn orientation(&self) -> (o: Orientation) {
        self.orientation
    }
}

/// A valid offset-even value converts to every other representation
/// without leaving `i32`, and into a valid value that names the same hex.
proof fn lemma_from_offset_even(v: (int, int), o: Orientation)
    requires
        offset_even_valid(v, o),
    ensures
        fits_offset_even_to_offset_odd(v, o),
        fits_offset_even_to_doubled(v, o),
        fits_offset_even_to_cube(v, o),
        offset_odd_valid(spec_offset_even_to_offset_odd(v, o), o),
        doubled_valid(spec_offset_even_to_doubled(v, o), o),
        cube_valid(spec_offset_even_to_cube(v, o)),
        axial_valid(spec_cube_to_axial(spec_offset_even_to_cube(v, o))),
{
    let c = spec_offset_even_to_cube(v, o);
    lemma_offset_even_round_trips(v, o);
    lemma_conversions_agree_with_cube(v, o);
    lemma_cube_round_trips(c, o);
    lemma_cube_results_sum_to_zero(v, o);
}

impl<'a> From<&'a OffsetOddCoords> for OffsetEvenCoords {
    fn from(input: &'a OffsetOddCoords) -> (r: Self) {
        let v = input.get();
        let o = input.orientation();
        proof {
            lemma_from_offset_odd(int2(v), o);
        }
        Self::new(offset_odd_to_offset_even(v, o), o)
    }
}

impl<'a> FromSpecImpl<&'a OffsetOddCoords> for OffsetEvenCoords {
    open spec fn obeys_from_spec() -> bool {
        true
    }

    open spec fn from_spec(input: &'a OffsetOddCoords) -> Self {
        let o = input.orient();
        Self::spec_new(narrow2(spec_offset_odd_to_offset_even(int2(input.rep()), o)), o)
    }
}

impl<'a> From<&'a DoubledCoords> for OffsetEvenCoords {
    fn from(input: &'a DoubledCoords) -> (r: Self) {
        let v = input.get();
        let o = input.orientation();
        proof {
            lemma_from_doubled(int2(v), o);
        }
        Self::new(doubled_to_offset_even(v, o), o)
    }
}

impl<'a> FromSpecImpl<&'a DoubledCoords> for OffsetEvenCoords {
    open spec fn obeys_from_spec() -> bool {
        true
    }

    open spec fn from_spec(input: &'a DoubledCoords) -> Self {
        let o = input.orient();
        Self::spec_new(narrow2(spec_doubled_to_offset_even(int2(input.rep()), o)), o)
    }
}

impl<'a> From<&'a CubeCoords> for OffsetEvenCoords {
    fn from(input: &'a CubeCoords) -> (r: Self) {
        let v = input.get();
        let o = input.orientation();
        proof {
            lemma_from_cube(int3(v), o);
        }
        Self::new(cube_to_offset_even(v, o), o)
    }
}

impl<'a> FromSpecImpl<&'a CubeCoords> for OffsetEvenCoords {
    open spec fn obeys_from_spec() -> bool {
        true
    }

    open spec fn from_spec(input: &'a CubeCoords) -> Self {
        let o = input.orient();
        Self::spec_new(narrow2(spec_cube_to_offset_even(int3(input.rep()), o)), o)
    }
}

impl<'a> From<&'a AxialCoords> for OffsetEvenCoords {
    fn from(input: &'a AxialCoords) -> (r: Self) {
        let v = input.get();
        let o = input.orientation();
        proof {
            lemma_from_axial(int2(v), o);
        }
        Self::new(axial_to_offset_even(v, o), o)
    }
}

impl<'a> FromSpecImpl<&'a AxialCoords> for OffsetEvenCoords {
    open spec fn obeys_from_spec() -> bool {
        true
    }

    open spec fn from_spec(input: &'a AxialCoords) -> Self {
        let o = input.orient();
        Self::spec_new(narrow2(spec_cube_to_offset_even(spec_axial_to_cube(int2(input.rep())), o)), o)
    }
}

/// Doubled coordinates: the rows (flat) or columns (pointy) step by two, so that no half steps occur.
pub struct DoubledCoords {
    x: i32,
    y: i32,
    orientation: Orientation,
}

impl DoubledCoords {
    #[verifier::type_invariant]
    spec fn inv(self) -> bool {
        doubled_valid((self.x as int, self.y as int), self.orientation)
    }
}

impl CoordType for DoubledCoords {
    type TupleRep = (i32, i32);

    closed spec fn rep(&self) -> (i32, i32) {
        (self.x, self.y)
    }

    closed spec fn orient(&self) -> Orientation {
        self.orientation
    }

    closed spec fn spec_new(rep: (i32, i32), orientation: Orientation) -> Self {
        DoubledCoords { x: rep.0, y: rep.1, orientation }
    }

    open spec fn valid(rep: (i32, i32), orientation: Orientation) -> bool {
        doubled_valid(int2(rep), orientation)
    }

    open spec fn key_of(rep: (i32, i32)) -> CoordKey {
        CoordKey(rep.0, rep.1, 0)
    }

    proof fn lemma_spec_new(rep: (i32, i32), orientation: Orientation) {
    }

    fn is_valid(rep: (i32, i32), orientation: Orientation) -> (b: bool) {
        let (x, y) = (rep.0 as i64, rep.1 as i64);
        if parity_of(x + y) != 0 {
            return false;
        }
        match orientation {
            Orientation::Flat => {
                let z = (y - x) / 2;
                within_limit(x) && within_limit(-x - z) && within_limit(z)
            },
            Orientation::Pointy => {
                let cx = (x - y) / 2;
                within_limit(cx) && within_limit(-cx - y) && within_limit(y)
            },
        }
    }

    fn new(rep: (i32, i32), orientation: Orientation) -> (r: Self) {
        DoubledCoords { x: rep.0, y: rep.1, orientation }
    }

    fn get(&self) -> (r: (i32, i32)) {
        proof {
            use_type_invariant(self);
        }
        (self.x, self.y)
    }

    fn get_key(&self) -> (k: CoordKey) {
        CoordKey::from((self.x, self.y))
    }

    fn orientation(&self) -> (o: Orientation) {
        self.orientation
    }
}

/// A valid doubled value converts to every other representation
/// without leaving `i32`, and into a valid value that names the same hex.
proof fn lemma_from_doubled(v: (int, int), o: Orientation)
    requires
        doubled_valid(v, o),
    ensures
        fits_doubled_to_offset_odd(v, o),
        fits_doubled_to_offset_even(v, o),
        fits_doubled_to_cube(v, o),
        offset_odd_valid(spec_doubled_to_offset_odd(v, o), o),
        offset_even_valid(spec_doubled_to_offset_even(v, o), o),
        cube_valid(spec_doubled_to_cube(v, o)),
        axial_valid(spec_cube_to_axial(spec_doubled_to_cube(v, o))),
{
    let c = spec_doubled_to_cube(v, o);
    lemma_doubled_round_trips(v, o);
    lemma_conversions_agree_with_cube(v, o);
    lemma_cube_round_trips(c, o);
    lemma_cube_results_sum_to_zero(v, o);
}

impl<'a> From<&'a OffsetOddCoords> for DoubledCoords {
    fn from(input: &'a OffsetOddCoords) -> (r: Self) {
        let v = input.get();
        let o = input.orientation();
        proof {
            lemma_from_offset_odd(int2(v), o);
        }
        Self::new(offset_odd_to_doubled(v, o), o)
    }
}

impl<'a> FromSpecImpl<&'a OffsetOddCoords> for DoubledCoords {
    open spec fn obeys_from_spec() -> bool {
        true
    }

    open spec fn from_spec(input: &'a OffsetOddCoords) -> Self {
        let o = input.orient();
        Self::spec_new(narrow2(spec_offset_odd_to_doubled(int2(input.rep()), o)), o)
    }
}

impl<'a> From<&'a OffsetEvenCoords> for DoubledCoords {
    fn from(input: &'a OffsetEvenCoords) -> (r: Self) {
        let v = input.get();
        let o = input.orientation();
        proof {
            lemma_from_offset_even(int2(v), o);
        }
        Self::new(offset_even_to_doubled(v, o), o)
    }
}

impl<'a> FromSpecImpl<&'a OffsetEvenCoords> for DoubledCoords {
    open spec fn obeys_from_spec() -> bool {
        true
    }

    open spec fn from_spec(input: &'a OffsetEvenCoords) -> Self {
        let o = input.orient();
        Self::spec_new(narrow2(spec_offset_even_to_doubled(int2(input.rep()), o)), o)
    }
}

impl<'a> From<&'a CubeCoords> for DoubledCoords {
    fn from(input: &'a CubeCoords) -> (r: Self) {
        let v = input.get();
        let o = input.orientation();
        proof {
            lemma_from_cube(int3(v), o);
        }
        Self::new(cube_to_doubled(v, o), o)
    }
}

impl<'a> FromSpecImpl<&'a CubeCoords> for DoubledCoords {
    open spec fn obeys_from_spec() -> bool {
        true
    }

    open spec fn from_spec(input: &'a CubeCoords) -> Self {
        let o = input.orient();
        Self::spec_new(narrow2(spec_cube_to_doubled(int3(input.rep()), o)), o)
    }
}

impl<'a> From<&'a AxialCoords> for DoubledCoords {
    fn from(input: &'a AxialCoords) -> (r: Self) {
        let v = input.get();
        let o = input.orientation();
        proof {
            lemma_from_axial(int2(v), o);
        }
        Self::new(axial_to_doubled(v, o), o)
    }
}

impl<'a> FromSpecImpl<&'a AxialCoords> for DoubledCoords {
    open spec fn obeys_from_spec() -> bool {
        true
    }

    open spec fn from_spec(input: &'a AxialCoords) -> Self {
        let o = input.orient();
        Self::spec_new(narrow2(spec_cube_to_doubled(spec_axial_to_cube(int2(input.rep())), o)), o)
    }
}

/// Cube coordinates: three components that sum to zero.
pub struct CubeCoords {
    x: i32,
    y: i32,
    z: i32,
    orientation: Orientation,
}

impl CubeCoords {
    #[verifier::type_invariant]
    spec fn inv(self) -> bool {
        cube_valid((self.x as int, self.y as int, self.z as int))
    }
}

impl CoordType for CubeCoords {
    type TupleRep = (i32, i32, i32);

    closed spec fn rep(&self) -> (i32, i32, i32) {
        (self.x, self.y, self.z)
    }

    closed spec fn orient(&self) -> Orientation {
        self.orientation
    }

    closed spec fn spec_new(rep: (i32, i32, i32), orientation: Orientation) -> Self {
        CubeCoords { x: rep.0, y: rep.1, z: rep.2, orientation }
    }

    open spec fn valid(rep: (i32, i32, i32), orientation: Orientation) -> bool {
        cube_valid(int3(rep))
    }

    open spec fn key_of(rep: (i32, i32, i32)) -> CoordKey {
        CoordKey(rep.0, rep.1, rep.2)
    }

    proof fn lemma_spec_new(rep: (i32, i32, i32), orientation: Orientation) {
    }

    fn is_valid(rep: (i32, i32, i32), orientation: Orientation) -> (b: bool) {
        let (x, y, z) = (rep.0 as i64, rep.1 as i64, rep.2 as i64);
        x + y + z == 0 && within_limit(x) && within_limit(y) && within_limit(z)
    }

    fn new(rep: (i32, i32, i32), orientation: Orientation) -> (r: Self) {
        CubeCoords { x: rep.0, y: rep.1, z: rep.2, orientation }
    }

    fn get(&self) -> (r: (i32, i32, i32)) {
        proof {
            use_type_invariant(self);
        }
        (self.x, self.y, self.z)
    }

    fn get_key(&self) -> (k: CoordKey) {
        CoordKey::from((self.x, self.y, self.z))
    }

    fn orientation(&self) -> (o: Orientation) {
        self.orientation
    }
}

/// A valid cube value converts to every other representation
/// without leaving `i32`, and into a valid value that names the same hex.
proof fn lemma_from_cube(v: (int, int, int), o: Orientation)
    requires
        cube_valid(v),
    ensures
        fits_cube_to_offset_odd(v, o),
        fits_cube_to_offset_even(v, o),
        fits_cube_to_doubled(v, o),
        offset_odd_valid(spec_cube_to_offset_odd(v, o), o),
        offset_even_valid(spec_cube_to_offset_even(v, o), o),
        doubled_valid(spec_cube_to_doubled(v, o), o),
        axial_valid(spec_cube_to_axial(v)),
{
    lemma_cube_round_trips(v, o);
}

impl<'a> From<&'a OffsetOddCoords> for CubeCoords {
    fn from(input: &'a OffsetOddCoords) -> (r: Self) {
        let v = input.get();
        let o = input.orientation();
        proof {
            lemma_from_offset_odd(int2(v), o);
        }
        Self::new(offset_odd_to_cube(v, o), o)
    }
}

impl<'a> FromSpecImpl<&'a OffsetOddCoords> for CubeCoords {
    open spec fn obeys_from_spec() -> bool {
        true
    }

    open spec fn from_spec(input: &'a OffsetOddCoords) -> Self {
        let o = input.orient();
        Self::spec_new(narrow3(spec_offset_odd_to_cube(int2(input.rep()), o)), o)
    }
}

impl<'a> From<&'a OffsetEvenCoords> for CubeCoords {
    fn from(input: &'a OffsetEvenCoords) -> (r: Self) {
        let v = input.get();
        let o = input.orientation();
        proof {
            lemma_from_offset_even(int2(v), o);
        }
        Self::new(offset_even_to_cube(v, o), o)
    }
}

impl<'a> FromSpecImpl<&'a OffsetEvenCoords> for CubeCoords {
    open spec fn obeys_from_spec() -> bool {
        true
    }

    open spec fn from_spec(input: &'a OffsetEvenCoords) -> Self {
        let o = input.orient();
        Self::spec_new(narrow3(spec_offset_even_to_cube(int2(input.rep()), o)), o)
    }
}

impl<'a> From<&'a DoubledCoords> for CubeCoords {
    fn from(input: &'a DoubledCoords) -> (r: Self) {
        let v = input.get();
        let o = input.orientation();
        proof {
            lemma_from_doubled(int2(v), o);
        }
        Self::new(doubled_to_cube(v, o), o)
    }
}

impl<'a> FromSpecImpl<&'a DoubledCoords> for CubeCoords {
    open spec fn obeys_from_spec() -> bool {
        true
    }

    open spec fn from_spec(input: &'a DoubledCoords) -> Self {
        let o = input.orient();
        Self::spec_new(narrow3(spec_doubled_to_cube(int2(input.rep()), o)), o)
    }
}

impl<'a> From<&'a AxialCoords> for CubeCoords {
    fn from(input: &'a AxialCoords) -> (r: Self) {
        let v = input.get();
        let o = input.orientation();
        proof {
            lemma_from_axial(int2(v), o);
        }
        Self::new(axial_to_cube_orient(v, o), o)
    }
}

impl<'a> FromSpecImpl<&'a AxialCoords> for CubeCoords {
    open spec fn obeys_from_spec() -> bool {
        true
    }

    open spec fn from_spec(input: &'a AxialCoords) -> Self {
        let o = input.orient();
        Self::spec_new(narrow3(spec_axial_to_cube(int2(input.rep()))), o)
    }
}

/// Axial coordinates: the first and last components of the cube coordinates.
pub struct AxialCoords {
    q: i32,
    r: i32,
    orientation: Orientation,
}

impl AxialCoords {
    #[verifier::type_invariant]
    spec fn inv(self) -> bool {
        axial_valid((self.q as int, self.r as int))
    }
}

impl CoordType for AxialCoords {
    type TupleRep = (i32, i32);

    closed spec fn rep(&self) -> (i32, i32) {
        (self.q, self.r)
    }

    closed spec fn orient(&self) -> Orientation {
        self.orientation
    }

    closed spec fn spec_new(rep: (i32, i32), orientation: Orientation) -> Self {
        AxialCoords { q: rep.0, r: rep.1, orientation }
    }

    open spec fn valid(rep: (i32, i32), orientation: Orientation) -> bool {
        axial_valid(int2(rep))
    }

    open spec fn key_of(rep: (i32, i32)) -> CoordKey {
        CoordKey(rep.0, rep.1, 0)
    }

    proof fn lemma_spec_new(rep: (i32, i32), orientation: Orientation) {
    }

    fn is_valid(rep: (i32, i32), orientation: Orientation) -> (b: bool) {
        let (q, r) = (rep.0 as i64, rep.1 as i64);
        within_limit(q) && within_limit(-q - r) && within_limit(r)
    }

    fn new(rep: (i32, i32), orientation: Orientation) -> (r: Self) {
        AxialCoords { q: rep.0, r: rep.1, orientation }
    }

    fn get(&self) -> (r: (i32, i32)) {
        proof {
            use_type_invariant(self);
        }
        (self.q, self.r)
    }

    fn get_key(&self) -> (k: CoordKey) {
        CoordKey::from((self.q, self.r))
    }

    fn orientation(&self) -> (o: Orientation) {
        self.orientation
    }
}

/// A valid axial value converts to every other representation
/// without leaving `i32`, and into a valid value that names the same hex.
proof fn lemma_from_axial(v: (int, int), o: Orientation)
    requires
        axial_valid(v),
    ensures
        fits_axial_to_offset_odd(v, o),
        fits_axial_to_offset_even(v, o),
        fits_axial_to_doubled(v, o),
        fits_axial_to_cube(v),
        offset_odd_valid(spec_cube_to_offset_odd(spec_axial_to_cube(v), o), o),
        offset_even_valid(spec_cube_to_offset_even(spec_axial_to_cube(v), o), o),
        doubled_valid(spec_cube_to_doubled(spec_axial_to_cube(v), o), o),
        cube_valid(spec_axial_to_cube(v)),
{
    let c = spec_axial_to_cube(v);
    lemma_axial_round_trips(v, o);
    lemma_cube_round_trips(c, o);
    lemma_cube_results_sum_to_zero(v, o);
}

impl<'a> From<&'a OffsetOddCoords> for AxialCoords {
    fn from(input: &'a OffsetOddCoords) -> (r: Self) {
        let v = input.get();
        let o = input.orientation();
        proof {
            lemma_from_offset_odd(int2(v), o);
        }
        Self::new(offset_odd_to_axial(v, o), o)
    }
}

impl<'a> FromSpecImpl<&'a OffsetOddCoords> for AxialCoords {
    open spec fn obeys_from_spec() -> bool {
        true
    }

    open spec fn from_spec(input: &'a OffsetOddCoords) -> Self {
        let o = input.orient();
        Self::spec_new(narrow2(spec_cube_to_axial(spec_offset_odd_to_cube(int2(input.rep()), o))), o)
    }
}

impl<'a> From<&'a OffsetEvenCoords> for AxialCoords {
    fn from(input: &'a OffsetEvenCoords) -> (r: Self) {
        let v = input.get();
        let o = input.orientation();
        proof {
            lemma_from_offset_even(int2(v), o);
        }
        Self::new(offset_even_to_axial(v, o), o)
    }
}

impl<'a> FromSpecImpl<&'a OffsetEvenCoords> for AxialCoords {
    open spec fn obeys_from_spec() -> bool {
        true
    }

    open spec fn from_spec(input: &'a OffsetEvenCoords) -> Self {
        let o = input.orient();
        Self::spec_new(narrow2(spec_cube_to_axial(spec_offset_even_to_cube(int2(input.rep()), o))), o)
    }
}

impl<'a> From<&'a DoubledCoords> for AxialCoords {
    fn from(input: &'a DoubledCoords) -> (r: Self) {
        let v = input.get();
        let o = input.orientation();
        proof {
            lemma_from_doubled(int2(v), o);
        }
        Self::new(doubled_to_axial(v, o), o)
    }
}

impl<'a> FromSpecImpl<&'a DoubledCoords> for AxialCoords {
    open spec fn obeys_from_spec() -> bool {
        true
    }

    open spec fn from_spec(input: &'a DoubledCoords) -> Self {
        let o = input.orient();
        Self::spec_new(narrow2(spec_cube_to_axial(spec_doubled_to_cube(int2(input.rep()), o))), o)
    }
}

impl<'a> From<&'a CubeCoords> for AxialCoords {
    fn from(input: &'a CubeCoords) -> (r: Self) {
        let v = input.get();
        let o = input.orientation();
        proof {
            lemma_from_cube(int3(v), o);
        }
        Self::new(cube_to_axial_orient(v, o), o)
    }
}

impl<'a> FromSpecImpl<&'a CubeCoords> for AxialCoords {
    open spec fn obeys_from_spec() -> bool {
        true
    }

    open spec fn from_spec(input: &'a CubeCoords) -> Self {
        let o = input.orient();
        Self::spec_new(narrow2(spec_cube_to_axial(int3(input.rep()))), o)
    }
}

// A value converts to its own representation unchanged.

impl<'a> From<&'a OffsetOddCoords> for OffsetOddCoords {
    fn from(input: &'a OffsetOddCoords) -> (r: Self) {
        Self::new(input.get(), input.orientation())
    }
}

impl<'a> FromSpecImpl<&'a OffsetOddCoords> for OffsetOddCoords {
    open spec fn obeys_from_spec() -> bool {
        true
    }

    open spec fn from_spec(input: &'a OffsetOddCoords) -> Self {
        Self::spec_new(input.rep(), input.orient())
    }
}

impl<'a> From<&'a OffsetEvenCoords> for OffsetEvenCoords {
    fn from(input: &'a OffsetEvenCoords) -> (r: Self) {
        Self::new(input.get(), input.orientation())
    }
}

impl<'a> FromSpecImpl<&'a OffsetEvenCoords> for OffsetEvenCoords {
    open spec fn obeys_from_spec() -> bool {
        true
    }

    open spec fn from_spec(input: &'a OffsetEvenCoords) -> Self {
        Self::spec_new(input.rep(), input.orient())
    }
}

impl<'a> From<&'a DoubledCoords> for DoubledCoords {
    fn from(input: &'a DoubledCoords) -> (r: Self) {
        Self::new(input.get(), input.orientation())
    }
}

impl<'a> FromSpecImpl<&'a DoubledCoords> for DoubledCoords {
    open spec fn obeys_from_spec() -> bool {
        true
    }

    open spec fn from_spec(input: &'a DoubledCoords) -> Self {
        Self::spec_new(input.rep(), input.orient())
    }
}

impl<'a> From<&'a CubeCoords> for CubeCoords {
    fn from(input: &'a CubeCoords) -> (r: Self) {
        Self::new(input.get(), input.orientation())
    }
}

impl<'a> FromSpecImpl<&'a CubeCoords> for CubeCoords {
    open spec fn obeys_from_spec() -> bool {
        true
    }

    open spec fn from_spec(input: &'a CubeCoords) -> Self {
        Self::spec_new(input.rep(), input.orient())
    }
}

impl<'a> From<&'a AxialCoords> for AxialCoords {
    fn from(input: &'a AxialCoords) -> (r: Self) {
        Self::new(input.get(), input.orientation())
    }
}

impl<'a> FromSpecImpl<&'a AxialCoords> for AxialCoords {
    open spec fn obeys_from_spec() -> bool {
        true
    }

    open spec fn from_spec(input: &'a AxialCoords) -> Self {
        Self::spec_new(input.rep(), input.orient())
    }
}

} // verus!
