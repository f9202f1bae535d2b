//! The library's own model of a filesystem location: the sequence of path
//! components that lead to it. An absolute location's first component is the
//! root component `/`; every other component is one entry name.

use vstd::prelude::*;

verus! {

/// A filesystem location, held as its path components.
///
/// The component sequence is the part of a path that the removal logic reads:
/// a child location appends one component, the parent location drops the last
/// one. What a location holds on disk is never part of this value; it is
/// inspected at the moment of each removal step.
#[derive(Clone, Debug)]
pub struct RmPath {
    pub segments: Vec<String>,
}

impl View for RmPath {
    type V = Seq<Seq<char>>;

    open spec fn view(&self) -> Seq<Seq<char>> {
        self.segments.deep_view()
    }
}

/// The parent of a location: all components but the last. A location with no
/// components has no parent.
pub open spec fn spec_parent(path: Seq<Seq<char>>) -> Option<Seq<Seq<char>>> {
    if path.len() == 0 {
        None
    } else {
        Some(path.drop_last())
    }
}

/// The location of the entry `name` immediately inside `path`.
pub open spec fn spec_child(path: Seq<Seq<char>>, name: Seq<char>) -> Seq<Seq<char>> {
    path.push(name)
}

/// Walking down to a child and back up to its parent returns to the starting
/// location: pruning that starts at a removed entry's parent begins exactly at
/// the directory that held the entry.
pub proof fn lemma_parent_of_child(path: Seq<Seq<char>>, name: Seq<char>)
    ensures
        spec_parent(spec_child(path, name)) == Some(path),
{
    assert(path.push(name).drop_last() =~= path);
}

/// Each upward step drops exactly the last component, so every location an
/// upward walk can reach is a leading prefix of where the walk started: the
/// walk stays within the chain of directories that lead to the target.
pub proof fn lemma_parent_is_prefix(path: Seq<Seq<char>>)
    ensures
        spec_parent(path) matches Some(q) ==> q.is_prefix_of(path) && q.len() + 1 == path.len(),
{
}

impl RmPath {
    /// A location made of the given components, in order.
    pub fn new(segments: Vec<String>) -> (r: Self)
        ensures
            r@ == segments.deep_view(),
    {
        RmPath { segments }
    }

    /// A copy of the first `k` components.
    fn clone_segments_prefix(&self, k: usize) -> (r: Vec<String>)
        requires
            k <= self.segments.len(),
        ensures
            r@ == self.segments@.subrange(0, k as int),
    {
        let mut segs: Vec<String> = Vec::new();
        for i in 0..k
            invariant
                k <= self.segments.len(),
                segs@ == self.segments@.subrange(0, i as int),
        {
            segs.push(self.segments[i].clone());
            proof {
                assert(segs@ =~= self.segments@.subrange(0, i + 1 as int));
            }
        }
        segs
    }

    /// The location one level up, or `None` for a location with no components.
    pub fn parent(&self) -> (r: Option<RmPath>)
        ensures
            r matches Some(p) ==> spec_parent(self@) == Some(p@),
            r is None <==> self@.len() == 0,
    {
        if self.segments.len() == 0 {
            None
        } else {
            let segs = self.clone_segments_prefix(self.segments.len() - 1);
            let p = RmPath { segments: segs };
            proof {
                assert(p@ =~= self@.drop_last());
            }
            Some(p)
        }
    }

    /// The location of the immediate child entry `name` of this location.
    pub fn child(&self, name: &String) -> (r: RmPath)
        ensures
            r@ == spec_child(self@, name@),
    {
        let mut segs = self.clone_segments_prefix(self.segments.len());
        segs.push(name.clone());
        let r = RmPath { segments: segs };
        proof {
            assert(r@ =~= spec_child(self@, name@));
        }
        r
    }
}

} // verus!
