//! Points and polygons in fixed-point canvas coordinates.
use vstd::prelude::*;

verus! {

/// A point in rounded canvas coordinates (whole canvas units).
#[derive(Clone, Copy, Debug, PartialEq, Eq, Structural)]
pub struct ScreenPoint {
    pub x: i64,
    pub y: i64,
}

/// A point in exact fixed-point coordinates (milliunits).
#[derive(Clone, Copy, Debug, PartialEq, Eq, Structural)]
pub struct ExactPoint {
    pub x: i64,
    pub y: i64,
}

/// A polygon described by its vertices, in milliunit coordinates.
#[derive(Debug, Clone, PartialEq)]
pub struct TurtlePolygon {
    pub vertices: Vec<ExactPoint>,
}

impl TurtlePolygon {
    /// A polygon over the given vertices.
    pub fn new(vertices: Vec<ExactPoint>) -> (p: Self)
        ensures
            p.vertices@ == vertices@,
    {
        TurtlePolygon { vertices }
    }

    /// An exact copy of this polygon.
    pub fn duplicate(&self) -> (p: Self)
        ensures
            p.vertices@ == self.vertices@,
    {
        let n = self.vertices.len();
        let mut vs: Vec<ExactPoint> = Vec::new();
        let mut i: usize = 0;
        while i < n
            invariant
                i <= n,
                n == self.vertices@.len(),
                vs@ == self.vertices@.take(i as int),
            decreases n - i,
        {
            vs.push(self.vertices[i]);
            proof {
                assert(vs@ =~= self.vertices@.take(i as int + 1));
            }
            i += 1;
        }
        proof {
            assert(self.vertices@.take(n as int) =~= self.vertices@);
        }
        TurtlePolygon { vertices: vs }
    }
}

} // verus!
