use vstd::prelude::*;

verus! {

/// An ordered n-ary tree: a root payload owning its child subtrees outright,
/// in insertion order. Absorbing a whole subtree is a single append; nothing
/// is ever removed.
pub struct MenuTree<T> {
    pub data: T,
    pub children: Vec<MenuTree<T>>,
}

impl<T> MenuTree<T> {
    /// The payloads of the direct children, in insertion order — which is
    /// also display order.
    pub open spec fn child_data(self) -> Seq<T> {
        self.children@.map_values(|t: MenuTree<T>| t.data)
    }

    /// A tree of a single root node carrying the given data.
    pub fn new(data: T) -> (t: MenuTree<T>)
        ensures
            t.data == data,
            t.children@ == Seq::<MenuTree<T>>::empty(),
            t.child_data() == Seq::<T>::empty(),
    {
        let t = MenuTree { data, children: Vec::new() };
        proof {
            assert(t.child_data() =~= Seq::<T>::empty());
        }
        t
    }

    /// Append a whole tree as the last child, transferring ownership.
    pub fn push_back(&mut self, sub: MenuTree<T>)
        ensures
            final(self).data == old(self).data,
            final(self).children@ == old(self).children@.push(sub),
            final(self).child_data() == old(self).child_data().push(sub.data),
    {
        self.children.push(sub);
        proof {
            assert(self.child_data() =~= old(self).child_data().push(sub.data));
        }
    }

    /// The number of direct children.
    pub fn degree(&self) -> (n: usize)
        ensures
            n == self.child_data().len(),
    {
        self.children.len()
    }
}

impl<T: Copy> MenuTree<T> {
    /// Copies of the direct children's payloads, in order.
    pub fn child_items(&self) -> (items: Vec<T>)
        ensures
            items@ == self.child_data(),
    {
        let mut items: Vec<T> = Vec::new();
        let mut i: usize = 0;
        while i < self.children.len()
            invariant
                i <= self.children@.len(),
                items@ =~= self.child_data().take(i as int),
            decreases self.children@.len() - i,
        {
            items.push(self.children[i].data);
            i = i + 1;
        }
        proof {
            assert(items@ =~= self.child_data());
        }
        items
    }
}

} // verus!
