//! Board positions.

use vstd::prelude::*;
use vstd::std_specs::cmp::{PartialEqSpec, PartialOrdSpec};
use vstd::std_specs::ops::{AddSpec, SubSpec};
use vstd::string::StringExecFns;
use core::cmp::Ordering;
use core::ops::{Add, Sub};
use crate::text::{decimal, decimal_text};

verus! {

/// A position on a grid: row `y`, column `x`. Ordered by row, then by column.
#[derive(Debug, Copy, Hash, Eq, Ord)]
pub struct Coordinate<T> {
    pub y: T,
    pub x: T,
}

impl<T> Coordinate<T> {
    pub fn new(y: T, x: T) -> (c: Self)
        ensures
            c.y == y,
            c.x == x,
    {
        Self { y, x }
    }
}

impl<T: Clone> Clone for Coordinate<T> {
    fn clone(&self) -> (c: Self)
        ensures
            cloned(self.y, c.y),
            cloned(self.x, c.x),
    {
        Self { y: self.y.clone(), x: self.x.clone() }
    }
}

impl<T: PartialEq> vstd::std_specs::cmp::PartialEqSpecImpl for Coordinate<T> {
    open spec fn obeys_eq_spec() -> bool {
        T::obeys_eq_spec()
    }

    open spec fn eq_spec(&self, other: &Self) -> bool {
        self.y.eq_spec(&other.y) && self.x.eq_spec(&other.x)
    }
}

impl<T: PartialEq> PartialEq for Coordinate<T> {
    fn eq(&self, other: &Self) -> (r: bool) {
        self.y == other.y && self.x == other.x
    }
}

impl<T: PartialOrd> vstd::std_specs::cmp::PartialOrdSpecImpl for Coordinate<T> {
    open spec fn obeys_partial_cmp_spec() -> bool {
        T::obeys_partial_cmp_spec()
    }

    open spec fn partial_cmp_spec(&self, other: &Self) -> Option<Ordering> {
        match self.y.partial_cmp_spec(&other.y) {
            Some(Ordering::Equal) => self.x.partial_cmp_spec(&other.x),
            by_row => by_row,
        }
    }
}

impl<T: PartialOrd> PartialOrd for Coordinate<T> {
    fn partial_cmp(&self, other: &Self) -> (r: Option<Ordering>) {
        match self.y.partial_cmp(&other.y) {
            Some(Ordering::Equal) => self.x.partial_cmp(&other.x),
            by_row => by_row,
        }
    }
}

impl<T: Add<Output = T>> vstd::std_specs::ops::AddSpecImpl for Coordinate<T> {
    open spec fn obeys_add_spec() -> bool {
        T::obeys_add_spec()
    }

    open spec fn add_req(self, other: Self) -> bool {
        self.y.add_req(other.y) && self.x.add_req(other.x)
    }

    open spec fn add_spec(self, other: Self) -> Self {
        Coordinate { y: self.y.add_spec(other.y), x: self.x.add_spec(other.x) }
    }
}

impl<T: Add<Output = T>> Add for Coordinate<T> {
    type Output = Self;

    fn add(self, other: Self) -> Self {
        Self { y: self.y + other.y, x: self.x + other.x }
    }
}

impl<T: Sub<Output = T>> vstd::std_specs::ops::SubSpecImpl for Coordinate<T> {
    open spec fn obeys_sub_spec() -> bool {
        T::obeys_sub_spec()
    }

    open spec fn sub_req(self, other: Self) -> bool {
        self.y.sub_req(other.y) && self.x.sub_req(other.x)
    }

    open spec fn sub_spec(self, other: Self) -> Self {
        Coordinate { y: self.y.sub_spec(other.y), x: self.x.sub_spec(other.x) }
    }
}

impl<T: Sub<Output = T>> Sub for Coordinate<T> {
    type Output = Self;

    fn sub(self, other: Self) -> Self {
        Self { y: self.y - other.y, x: self.x - other.x }
    }
}

/// How a coordinate is written out: `(y=1, x=2)`.
pub open spec fn coord_text(coord: Coordinate<i8>) -> Seq<char> {
    "(y="@ + decimal(coord.y as int) + ", x="@ + decimal(coord.x as int) + ")"@
}

impl Coordinate<i8> {
    /// Row before row, and within a row column before column.
    pub open spec fn precedes(self, other: Self) -> bool {
        self.y < other.y || (self.y == other.y && self.x < other.x)
    }

    /// Writes the coordinate out: `(y=1, x=2)`.
    pub fn to_text(&self) -> (r: String)
        ensures
            r@ == coord_text(*self),
    {
        let mut r = String::from_str("(y=");
        r.append(decimal_text(self.y).as_str());
        r.append(", x=");
        r.append(decimal_text(self.x).as_str());
        r.append(")");
        r
    }
}

/// `<` and `==` on board coordinates are the order by row, then column, and
/// equality of both parts.
pub proof fn lemma_order_by_row_then_column(a: Coordinate<i8>, b: Coordinate<i8>)
    ensures
        a.eq_spec(&b) <==> a == b,
        a.partial_cmp_spec(&b) == Some(Ordering::Less) <==> a.precedes(b),
        a.partial_cmp_spec(&b) == Some(Ordering::Greater) <==> b.precedes(a),
        a.partial_cmp_spec(&b) == Some(Ordering::Equal) <==> a == b,
{
}

/// `+` and `-` on board coordinates work part by part, and are defined where
/// neither part leaves the range of `i8`.
pub proof fn lemma_add_sub_part_by_part(a: Coordinate<i8>, b: Coordinate<i8>)
    ensures
        a.add_req(b) <==> -128 <= a.y + b.y <= 127 && -128 <= a.x + b.x <= 127,
        a.add_req(b) ==> a.add_spec(b).y == a.y + b.y && a.add_spec(b).x == a.x + b.x,
        a.sub_req(b) <==> -128 <= a.y - b.y <= 127 && -128 <= a.x - b.x <= 127,
        a.sub_req(b) ==> a.sub_spec(b).y == a.y - b.y && a.sub_spec(b).x == a.x - b.x,
{
}

} // verus!
