//! Grid coordinates and grid extents, plus the bounds checks every other
//! component builds on.

use vstd::prelude::*;

verus! {

/// The extent of the grid: `(width, height)`.
pub type Shape = (usize, usize);

/// A grid coordinate `(x, y)`.  Valid coordinates satisfy
/// `x < width` and `y < height` of the owning snapshot's shape.
pub type Pos = (usize, usize);

/// A position lies inside a grid of the given shape.
pub open spec fn pos_in_bounds(p: Pos, shape: Shape) -> bool {
    p.0 < shape.0 && p.1 < shape.1
}

/// Every position of the sequence lies inside a grid of the given shape.
pub open spec fn all_in_bounds(s: Seq<Pos>, shape: Shape) -> bool {
    forall|i: int| 0 <= i < s.len() ==> pos_in_bounds(#[trigger] s[i], shape)
}

/// Bounds test for a single position.
pub fn check_pos_in_bounds(p: Pos, shape: Shape) -> (r: bool)
    ensures
        r == pos_in_bounds(p, shape),
{
    p.0 < shape.0 && p.1 < shape.1
}

/// Linear membership scan over a position sequence.
pub fn contains_pos(v: &Vec<Pos>, p: Pos) -> (r: bool)
    ensures
        r == v@.contains(p),
{
    let mut i: usize = 0;
    while i < v.len()
        invariant
            0 <= i <= v@.len(),
            forall|j: int| 0 <= j < i ==> v@[j] != p,
        decreases v@.len() - i,
    {
        if v[i].0 == p.0 && v[i].1 == p.1 {
            assert(v@[i as int] == p);
            return true;
        }
        i += 1;
    }
    false
}

/// Bounds test for a whole sequence of positions.
pub fn check_all_in_bounds(v: &Vec<Pos>, shape: Shape) -> (r: bool)
    ensures
        r == all_in_bounds(v@, shape),
{
    let mut i: usize = 0;
    while i < v.len()
        invariant
            0 <= i <= v@.len(),
            all_in_bounds(v@.take(i as int), shape),
        decreases v@.len() - i,
    {
        if !check_pos_in_bounds(v[i], shape) {
            assert(!pos_in_bounds(v@[i as int], shape));
            return false;
        }
        assert(v@.take(i + 1 as int).drop_last() =~= v@.take(i as int));
        i += 1;
    }
    assert(v@.take(v@.len() as int) =~= v@);
    true
}

} // verus!
