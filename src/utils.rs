use vstd::prelude::*;
use std::ops::{Add, Mul};
use vstd::std_specs::ops::{AddSpec, MulSpec};

verus! {

/// Which way up a hexagon stands: with a flat edge on top, or with a corner on top.
#[derive(Clone, Copy, Debug, PartialEq, Eq, Structural)]
pub enum Orientation {
    Flat,
    Pointy,
}

/// Adds an offset to a pair, component by component.
pub fn offset_2d_tuple<T: Copy + Add<Output = T>>(t: (T, T), off: (T, T)) -> (r: (T, T))
    requires
        t.0.add_req(off.0),
        t.1.add_req(off.1),
    ensures
        T::obeys_add_spec() ==> r == (t.0.add_spec(off.0), t.1.add_spec(off.1)),
{
    let (x, y) = t;
    let (off_x, off_y) = off;
    (x + off_x, y + off_y)
}

/// Multiplies both components of a pair by one factor.
pub fn scale_2d_tuple<T: Copy + Mul<Output = T>>(t: (T, T), factor: T) -> (r: (T, T))
    requires
        t.0.mul_req(factor),
        t.1.mul_req(factor),
    ensures
        T::obeys_mul_spec() ==> r == (t.0.mul_spec(factor), t.1.mul_spec(factor)),
{
    let (x, y) = t;
    (x * factor, y * factor)
}

/// Adds an offset to a triple, component by component.
pub fn offset_3d_tuple<T: Copy + Add<Output = T>>(t: (T, T, T), off: (T, T, T)) -> (r: (T, T, T))
    requires
        t.0.add_req(off.0),
        t.1.add_req(off.1),
        t.2.add_req(off.2),
    ensures
        T::obeys_add_spec() ==> r == (t.0.add_spec(off.0), t.1.add_spec(off.1), t.2.add_spec(off.2)),
{
    let (x, y, z) = t;
    let (off_x, off_y, off_z) = off;
    (x + off_x, y + off_y, z + off_z)
}

/// Multiplies all three components of a triple by one factor.
pub fn scale_3d_tuple<T: Copy + Mul<Output = T>>(t: (T, T, T), factor: T) -> (r: (T, T, T))
    requires
        t.0.mul_req(factor),
        t.1.mul_req(factor),
        t.2.mul_req(factor),
    ensures
        T::obeys_mul_spec() ==> r == (t.0.mul_spec(factor), t.1.mul_spec(factor), t.2.mul_spec(
            factor,
        )),
{
    let (x, y, z) = t;
    (x * factor, y * factor, z * factor)
}

} // verus!
