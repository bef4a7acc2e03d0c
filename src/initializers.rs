use vstd::prelude::*;
use crate::alg::{get_range_cube, hex_count, in_hex_range, abs};
use crate::convert::int3;
use crate::coords::{CoordType, CubeCoords, OffsetEvenCoords, OffsetOddCoords, COORD_LIMIT};
use crate::utils::Orientation;
use vstd::std_specs::convert::FromSpec;

verus! {

/// Yields the offset-odd coordinates of a `width` by `height` rectangle
/// from (0, 0), row by row, each converted into `C` with the orientation of
/// `origin`.
pub struct SquareFlatOffsetOddGridIterator<C: CoordType> {
    pub origin: C,
    pub width: i32,
    pub height: i32,
    pub x: i32,
    pub y: i32,
}

impl<C: CoordType> SquareFlatOffsetOddGridIterator<C> {
    pub fn new(origin: C, width: i32, height: i32) -> (r: Self)
        ensures
            r == (Self { origin, width, height, x: 0, y: 0 }),
    {
        Self { origin, width, height, x: 0, y: 0 }
    }
}

impl<C: CoordType + for <'a> From<&'a OffsetOddCoords>> SquareFlatOffsetOddGridIterator<C> {
    /// The next position, or `None` once the rectangle is done.
    pub fn next(&mut self) -> (r: Option<C>)
        requires
            forall|x: i32, y: i32|
                0 <= x < old(self).width && 0 <= y < old(self).height ==> #[trigger] OffsetOddCoords::valid(
                    (x, y),
                    old(self).origin.orient(),
                ),
            0 <= old(self).x,
            0 <= old(self).y,
        ensures
            final(self).origin == old(self).origin,
            final(self).width == old(self).width,
            final(self).height == old(self).height,
            if old(self).x >= old(self).width || old(self).y >= old(self).height {
                &&& r is None
                &&& final(self).x == old(self).x
                &&& final(self).y == old(self).y
            } else {
                &&& r is Some
                &&& C::obeys_from_spec() ==> r->0 == C::from_spec(
                    &OffsetOddCoords::spec_new((old(self).x, old(self).y), old(self).origin.orient()),
                )
                &&& if old(self).x + 1 < old(self).width {
                    final(self).x == old(self).x + 1 && final(self).y == old(self).y
                } else {
                    final(self).x == 0 && final(self).y == old(self).y + 1
                }
            },
    {
        if self.x >= self.width || self.y >= self.height {
            return None;
        }
        let o = self.origin.orientation();
        assert(OffsetOddCoords::valid((self.x, self.y), o));
        let res = C::from(&OffsetOddCoords::new((self.x, self.y), o));
        self.x = self.x + 1;
        if self.x >= self.width {
            self.x = 0;
            self.y = self.y + 1;
        }
        Some(res)
    }
}

/// Yields the offset-even coordinates of a `width` by `height` rectangle
/// from (0, 0), row by row, each converted into `C` with the orientation of
/// `origin`.
pub struct SquareFlatOffsetEvenGridIterator<C: CoordType> {
    pub origin: C,
    pub width: i32,
    pub height: i32,
    pub x: i32,
    pub y: i32,
}

impl<C: CoordType> SquareFlatOffsetEvenGridIterator<C> {
    pub fn new(origin: C, width: i32, height: i32) -> (r: Self)
        ensures
            r == (Self { origin, width, height, x: 0, y: 0 }),
    {
        Self { origin, width, height, x: 0, y: 0 }
    }
}

impl<C: CoordType + for <'a> From<&'a OffsetEvenCoords>> SquareFlatOffsetEvenGridIterator<C> {
    /// The next position, or `None` once the rectangle is done.
    pub fn next(&mut self) -> (r: Option<C>)
        requires
            forall|x: i32, y: i32|
                0 <= x < old(self).width && 0 <= y < old(self).height ==> #[trigger] OffsetEvenCoords::valid(
                    (x, y),
                    old(self).origin.orient(),
                ),
            0 <= old(self).x,
            0 <= old(self).y,
        ensures
            final(self).origin == old(self).origin,
            final(self).width == old(self).width,
            final(self).height == old(self).height,
            if old(self).x >= old(self).width || old(self).y >= old(self).height {
                &&& r is None
                &&& final(self).x == old(self).x
                &&& final(self).y == old(self).y
            } else {
                &&& r is Some
                &&& C::obeys_from_spec() ==> r->0 == C::from_spec(
                    &OffsetEvenCoords::spec_new((old(self).x, old(self).y), old(self).origin.orient()),
                )
                &&& if old(self).x + 1 < old(self).width {
                    final(self).x == old(self).x + 1 && final(self).y == old(self).y
                } else {
                    final(self).x == 0 && final(self).y == old(self).y + 1
                }
            },
    {
        if self.x >= self.width || self.y >= self.height {
            return None;
        }
        let o = self.origin.orientation();
        assert(OffsetEvenCoords::valid((self.x, self.y), o));
        let res = C::from(&OffsetEvenCoords::new((self.x, self.y), o));
        self.x = self.x + 1;
        if self.x >= self.width {
            self.x = 0;
            self.y = self.y + 1;
        }
        Some(res)
    }
}

/// Yields every hex within `range` steps of the origin (the absolute value of
/// `range` is taken), converted into `C`. The whole list is made on the first
/// call and then handed out from its end.
pub struct HexagonalCenteredGridIterator<C: CoordType> {
    pub origin: (i32, i32, i32),
    pub orient: Orientation,
    pub range: i32,
    pub store: Option<Vec<C>>,
}

impl<C: CoordType> HexagonalCenteredGridIterator<C> {
    pub fn new(range: i32, orient: Orientation) -> (r: Self)
        ensures
            r == (Self { origin: (0, 0, 0), orient, range, store: None }),
    {
        Self { origin: (0, 0, 0), orient, range, store: None }
    }
}

/// The hexes within `range` steps of the origin, each converted into `C`.
pub open spec fn is_hexagon_list<C: CoordType + for <'a> From<&'a CubeCoords>>(
    list: Seq<C>,
    range: i32,
    orient: Orientation,
) -> bool {
    exists|cubes: Seq<(i32, i32, i32)>|
        {
            &&& cubes.len() == hex_count(abs(range as int))
            &&& cubes.no_duplicates()
            &&& forall|c: (i32, i32, i32)| #[trigger]
                cubes.contains(c) <==> in_hex_range(int3(c), (0, 0, 0), abs(range as int))
            &&& list.len() == cubes.len()
            &&& forall|j: int|
                0 <= j < cubes.len() ==> C::obeys_from_spec() ==> #[trigger] list[j]
                    == C::from_spec(&CubeCoords::spec_new(cubes[j], orient))
        }
}

impl<C: CoordType + for <'a> From<&'a CubeCoords>> HexagonalCenteredGridIterator<C> {
    fn hexagon_list(&self) -> (list: Vec<C>)
        requires
            self.origin == (0i32, 0i32, 0i32),
            -COORD_LIMIT <= self.range <= COORD_LIMIT,
        ensures
            is_hexagon_list(list@, self.range, self.orient),
    {
        let cubes = get_range_cube(self.origin, self.range);
        let mut list: Vec<C> = Vec::new();
        let mut i: usize = 0;
        while i < cubes.len()
            invariant
                0 <= i <= cubes.len(),
                list.len() == i,
                -COORD_LIMIT <= self.range <= COORD_LIMIT,
                forall|c: (i32, i32, i32)| #[trigger]
                    cubes@.contains(c) <==> in_hex_range(int3(c), (0, 0, 0), abs(self.range as int)),
                forall|j: int|
                    0 <= j < i ==> C::obeys_from_spec() ==> #[trigger] list@[j] == C::from_spec(
                        &CubeCoords::spec_new(cubes@[j], self.orient),
                    ),
            decreases cubes.len() - i,
        {
            assert(cubes@.contains(cubes@[i as int]));
            list.push(C::from(&CubeCoords::new(cubes[i], self.orient)));
            i = i + 1;
        }
        proof {
            assert(list@.len() == cubes@.len());
            assert(is_hexagon_list(list@, self.range, self.orient));
        }
        list
    }

    /// The next hex, or `None` once all have been handed out.
    pub fn next(&mut self) -> (r: Option<C>)
        requires
            old(self).store is None ==> {
                &&& old(self).origin == (0i32, 0i32, 0i32)
                &&& -COORD_LIMIT <= old(self).range <= COORD_LIMIT
            },
        ensures
            final(self).origin == old(self).origin,
            final(self).orient == old(self).orient,
            final(self).range == old(self).range,
            final(self).store is Some,
            match old(self).store {
                Some(list) => {
                    &&& list@.len() == 0 ==> r is None && final(self).store->0@ == list@
                    &&& list@.len() > 0 ==> r == Some(list@.last()) && final(self).store->0@
                        == list@.drop_last()
                },
                None => {
                    &&& r is Some
                    &&& is_hexagon_list(
                        final(self).store->0@.push(r->0),
                        old(self).range,
                        old(self).orient,
                    )
                },
            },
    {
        match self.store {
            Some(ref mut list) => list.pop(),
            None => {
                let mut list = self.hexagon_list();
                let ghost full = list@;
                proof {
                    let cubes = choose|cubes: Seq<(i32, i32, i32)>| {
                        &&& cubes.len() == hex_count(abs(self.range as int))
                        &&& cubes.no_duplicates()
                        &&& forall|c: (i32, i32, i32)| #[trigger]
                            cubes.contains(c) <==> in_hex_range(int3(c), (0, 0, 0), abs(self.range as int))
                        &&& full.len() == cubes.len()
                        &&& forall|j: int|
                            0 <= j < cubes.len() ==> C::obeys_from_spec() ==> #[trigger] full[j]
                                == C::from_spec(&CubeCoords::spec_new(cubes[j], self.orient))
                    };
                    assert(hex_count(abs(self.range as int)) >= 1) by (nonlinear_arith)
                        requires
                            abs(self.range as int) >= 0,
                    ;
                }
                let result = list.pop();
                proof {
                    assert(list@.push(result->0) =~= full);
                }
                self.store = Some(list);
                result
            },
        }
    }

    /// Every hex still to be handed out, in one vector; for an iterator that
    /// has not started, every hex within `range` steps of the origin.
    pub fn collect_all(self) -> (r: Vec<C>)
        requires
            self.store is None ==> {
                &&& self.origin == (0i32, 0i32, 0i32)
                &&& -COORD_LIMIT <= self.range <= COORD_LIMIT
            },
        ensures
            match self.store {
                Some(list) => r@ == list@,
                None => is_hexagon_list(r@, self.range, self.orient),
            },
    {
        match self.store {
            Some(list) => list,
            None => self.hexagon_list(),
        }
    }
}

} // verus!
