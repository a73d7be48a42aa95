use vstd::prelude::*;

verus! {

/// A server-assigned window identifier. Nothing local vouches that the window
/// still exists: every operation on it may fail.
#[derive(Debug, Clone, Copy, PartialEq, Eq, Structural)]
pub struct Window(pub u64);

/// The windows named by `ids`, in order, leaving out `parent` itself.
pub open spec fn children_of(parent: u64, ids: Seq<u64>) -> Seq<Window>
    decreases ids.len(),
{
    if ids.len() == 0 {
        Seq::empty()
    } else {
        let rest = children_of(parent, ids.drop_last());
        if ids.last() == parent {
            rest
        } else {
            rest.push(Window(ids.last()))
        }
    }
}

impl Window {
    /// The children reported by a tree query of this window, as windows, without
    /// this window itself.
    pub fn children(&self, ids: &[u64]) -> (r: Vec<Window>)
        ensures
            r@ == children_of(self.0, ids@),
    {
        let mut out: Vec<Window> = Vec::new();
        let mut i: usize = 0;
        while i < ids.len()
            invariant
                i <= ids@.len(),
                out@ == children_of(self.0, ids@.subrange(0, i as int)),
            decreases ids@.len() - i,
        {
            let id = ids[i];
            proof {
                let s = ids@.subrange(0, i as int + 1);
                assert(s.drop_last() =~= ids@.subrange(0, i as int));
            }
            if id != self.0 {
                out.push(Window(id));
            }
            i = i + 1;
        }
        assert(ids@.subrange(0, ids@.len() as int) =~= ids@);
        out
    }
}

} // verus!
