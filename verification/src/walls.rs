//! The deduplicated wall set of a snapshot.  The host supplies walls as an
//! arbitrary-order sequence of coordinate pairs, possibly with repetitions;
//! the adapter keeps one copy of each distinct position and offers a
//! membership test over the resulting set.

use vstd::prelude::*;

use crate::geometry::Pos;
use crate::geometry::contains_pos;

verus! {

/// The subsequence of `s` that keeps only the first occurrence of each
/// element, in order of first appearance.
pub open spec fn dedup_first(s: Seq<Pos>) -> Seq<Pos>
    decreases s.len(),
{
    if s.len() == 0 {
        Seq::empty()
    } else {
        let rest = dedup_first(s.drop_last());
        if rest.contains(s.last()) {
            rest
        } else {
            rest.push(s.last())
        }
    }
}

/// Deduplication law: the deduplicated sequence has no repeated elements,
/// holds exactly the elements of the input, and so denotes exactly the set
/// of distinct input elements.
pub proof fn lemma_dedup_first_properties(s: Seq<Pos>)
    ensures
        dedup_first(s).no_duplicates(),
        forall|p: Pos| #[trigger] dedup_first(s).contains(p) <==> s.contains(p),
        dedup_first(s).to_set() == s.to_set(),
    decreases s.len(),
{
    if s.len() == 0 {
        assert(dedup_first(s).to_set() =~= s.to_set());
    } else {
        let butlast = s.drop_last();
        let rest = dedup_first(butlast);
        lemma_dedup_first_properties(butlast);
        let d = dedup_first(s);
        assert forall|p: Pos| s.contains(p) implies #[trigger] d.contains(p) by {
            let i = choose|i: int| 0 <= i < s.len() && s[i] == p;
            if i < s.len() - 1 {
                assert(butlast[i] == p);
                assert(butlast.contains(p));
                assert(rest.contains(p));
                if !rest.contains(s.last()) {
                    let j = choose|j: int| 0 <= j < rest.len() && rest[j] == p;
                    assert(d[j] == p);
                }
            } else {
                if rest.contains(s.last()) {
                    assert(d.contains(p));
                } else {
                    assert(d[d.len() - 1] == p);
                }
            }
        };
        assert forall|p: Pos| #[trigger] d.contains(p) implies s.contains(p) by {
            let i = choose|i: int| 0 <= i < d.len() && d[i] == p;
            if i < rest.len() {
                assert(rest[i] == p);
                assert(rest.contains(p));
                assert(butlast.contains(p));
                let j = choose|j: int| 0 <= j < butlast.len() && butlast[j] == p;
                assert(s[j] == p);
            } else {
                assert(p == s.last());
                assert(s[s.len() - 1] == p);
            }
        };
        if rest.contains(s.last()) {
        } else {
            assert forall|i: int, j: int|
                0 <= i < d.len() && 0 <= j < d.len() && i != j implies d[i] != d[j] by {
                if i < rest.len() && j < rest.len() {
                    assert(rest[i] != rest[j]);
                } else if i < rest.len() && j == rest.len() {
                    if d[i] == d[j] {
                        assert(rest.contains(s.last()));
                    }
                } else if j < rest.len() && i == rest.len() {
                    if d[i] == d[j] {
                        assert(rest.contains(s.last()));
                    }
                }
            };
        }
        assert(d.to_set() =~= s.to_set());
    }
}

/// The set of impassable cells of one snapshot, stored without duplicates.
#[derive(Debug)]
pub struct Walls {
    cells: Vec<Pos>,
}

impl Walls {
    /// The stored sequence of distinct wall positions.
    pub closed spec fn cells_seq(self) -> Seq<Pos> {
        self.cells@
    }

    /// The stored sequence holds no repeated position.
    pub open spec fn wf(self) -> bool {
        self.cells_seq().no_duplicates()
    }

    /// Builds the wall set from the host's wall sequence, keeping the first
    /// occurrence of each distinct position.
    pub fn from_positions(v: Vec<Pos>) -> (r: Walls)
        ensures
            r.cells_seq() == dedup_first(v@),
            r@ == v@.to_set(),
            r.wf(),
    {
        let mut cells: Vec<Pos> = Vec::new();
        let mut i: usize = 0;
        while i < v.len()
            invariant
                0 <= i <= v@.len(),
                cells@ == dedup_first(v@.take(i as int)),
            decreases v@.len() - i,
        {
            let p = v[i];
            proof {
                assert(v@.take(i + 1 as int).drop_last() =~= v@.take(i as int));
                assert(v@.take(i + 1 as int).last() == v@[i as int]);
            }
            if !contains_pos(&cells, p) {
                cells.push(p);
            }
            i += 1;
        }
        proof {
            assert(v@.take(v@.len() as int) =~= v@);
            lemma_dedup_first_properties(v@);
        }
        Walls { cells }
    }

    /// Membership test: whether `p` is an impassable cell.
    pub fn contains(&self, p: Pos) -> (r: bool)
        ensures
            r == self@.contains(p),
    {
        contains_pos(&self.cells, p)
    }

    /// The number of distinct wall positions.
    pub fn len(&self) -> (r: usize)
        ensures
            r == self.cells_seq().len(),
            self.wf() ==> r == self@.len(),
    {
        proof {
            if self.wf() {
                self.cells@.unique_seq_to_set();
            }
        }
        self.cells.len()
    }

    /// The distinct wall positions, in order of first appearance in the
    /// host's wall sequence.
    pub fn positions(&self) -> (r: &Vec<Pos>)
        ensures
            r@ == self.cells_seq(),
    {
        &self.cells
    }
}

impl View for Walls {
    type V = Set<Pos>;

    /// A wall set denotes the set of its stored positions.
    open spec fn view(&self) -> Set<Pos> {
        self.cells_seq().to_set()
    }
}

} // verus!
