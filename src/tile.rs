use vstd::prelude::*;
use crate::coords::{CoordKey, CoordType};

verus! {

/// One hex of a grid: its coordinate and the caller's data for it.
pub struct HexTile<C: CoordType, D> {
    coord: C,
    data: D,
}

impl<C: CoordType, D> View for HexTile<C, D> {
    type V = (C, D);

    closed spec fn view(&self) -> (C, D) {
        (self.coord, self.data)
    }
}

impl<C: CoordType, D> HexTile<C, D> {
    pub fn new(coord: C, data: D) -> (r: Self)
        ensures
            r@ == (coord, data),
    {
        Self { coord, data }
    }

    /// The key of the tile's coordinate.
    pub fn get_key(&self) -> (k: CoordKey)
        ensures
            k == C::key_of(self@.0.rep()),
    {
        self.coord.get_key()
    }

    pub fn borrow_data(&self) -> (r: &D)
        ensures
            *r == self@.1,
    {
        &self.data
    }

    pub fn mut_borrow_data(&mut self) -> (r: &mut D)
        ensures
            *r == old(self)@.1,
            final(self)@ == (old(self)@.0, *final(r)),
    {
        &mut self.data
    }

    /// Hands the data to `f` to change in place.
    pub fn mutate_data<F: Fn(&mut D)>(&mut self, f: &F)
        requires
            forall|d: &mut D| f.requires((d,)),
        ensures
            final(self)@.0 == old(self)@.0,
            exists|r: &mut D|
                *r == old(self)@.1 && *final(r) == final(self)@.1 && f.ensures((r,), ()),
    {
        f(&mut self.data)
    }

    pub fn set_data(&mut self, new: D)
        ensures
            final(self)@ == (old(self)@.0, new),
    {
        self.data = new;
    }

    pub fn borrow_coord(&self) -> (r: &C)
        ensures
            *r == self@.0,
    {
        &self.coord
    }
}

} // verus!
