use vstd::prelude::*;

verus! {

/// A point in integer pixel coordinates.
#[derive(Clone, Copy, Debug, PartialEq, Eq, Structural)]
pub struct Point {
    pub x: i64,
    pub y: i64,
}

/// A disc of radius `r` around `(x, y)`, its rim included.
#[derive(Clone, Copy, Debug, PartialEq, Eq, Structural)]
pub struct Circle {
    pub x: i64,
    pub y: i64,
    pub r: u32,
}

/// The squared Euclidean distance between `(ax, ay)` and `(bx, by)`.
pub open spec fn dist_sq(ax: int, ay: int, bx: int, by: int) -> int {
    (ax - bx) * (ax - bx) + (ay - by) * (ay - by)
}

/// `p` lies in `c`: its distance to the center is at most the radius.
pub open spec fn circle_holds(c: Circle, p: Point) -> bool {
    dist_sq(p.x as int, p.y as int, c.x as int, c.y as int) <= (c.r as int) * (c.r as int)
}

proof fn lemma_square_exceeds(d: int, r: int)
    requires
        0 <= r,
        d > r || -d > r,
    ensures
        d * d > r * r,
{
    assert(d * d > r * r) by (nonlinear_arith)
        requires
            0 <= r,
            d > r || -d > r,
    ;
}

proof fn lemma_square_within(d: int, r: int)
    requires
        0 <= r,
        -r <= d <= r,
    ensures
        0 <= d * d <= r * r,
{
    assert(0 <= d * d <= r * r) by (nonlinear_arith)
        requires
            0 <= r,
            -r <= d <= r,
    ;
}

impl Circle {
    /// Whether `p` lies within the circle, the rim counting as inside.
    pub fn contains(&self, p: &Point) -> (r: bool)
        ensures
            r == circle_holds(*self, *p),
    {
        let dx: i128 = p.x as i128 - self.x as i128;
        let dy: i128 = p.y as i128 - self.y as i128;
        let rad: i128 = self.r as i128;
        if dx > rad || -dx > rad || dy > rad || -dy > rad {
            proof {
                if dx > rad || -dx > rad {
                    lemma_square_exceeds(dx as int, rad as int);
                    assert(dy * dy >= 0) by (nonlinear_arith);
                } else {
                    lemma_square_exceeds(dy as int, rad as int);
                    assert(dx * dx >= 0) by (nonlinear_arith);
                }
            }
            false
        } else {
            proof {
                lemma_square_within(dx as int, rad as int);
                lemma_square_within(dy as int, rad as int);
                assert(rad * rad <= 0x1_0000_0000int * 0x1_0000_0000int) by (nonlinear_arith)
                    requires
                        0 <= rad <= 0xffff_ffff,
                ;
            }
            dx * dx + dy * dy <= rad * rad
        }
    }
}

} // verus!
