//! How containers keep their children: an ordered list (linear layouts and
//! lists), a fixed pair (split panes) and a single slot (frames and windows).
use vstd::prelude::*;

verus! {

/// The ordered children of a multi-child container.
pub struct ChildList<T> {
    children: Vec<T>,
}

impl<T> View for ChildList<T> {
    type V = Seq<T>;

    open spec fn view(&self) -> Seq<T> {
        self.spec_children()
    }
}

impl<T> ChildList<T> {
    /// The children in order.
    pub closed spec fn spec_children(&self) -> Seq<T> {
        self.children@
    }

    /// An empty list.
    pub fn new() -> (r: Self)
        ensures
            r@ == Seq::<T>::empty(),
    {
        ChildList { children: Vec::new() }
    }

    /// How many children there are.
    pub fn len(&self) -> (r: usize)
        ensures
            r == self@.len(),
    {
        self.children.len()
    }

    /// Puts `child` at `index`. Within the list it replaces the child there,
    /// which is handed back; at the end it is appended and nothing is handed
    /// back.
    pub fn set_child_to(&mut self, index: usize, child: T) -> (r: Option<T>)
        requires
            index <= old(self)@.len(),
        ensures
            index < old(self)@.len() ==> r == Some(old(self)@[index as int]) && final(self)@
                == old(self)@.update(index as int, child),
            index == old(self)@.len() ==> r is None && final(self)@ == old(self)@.push(child),
    {
        if index < self.children.len() {
            let mut child = child;
            std::mem::swap(&mut child, &mut self.children[index]);
            Some(child)
        } else {
            self.children.insert(index, child);
            proof {
                assert(old(self)@.insert(index as int, child) =~= old(self)@.push(child));
            }
            None
        }
    }

    /// Takes the child at `index` out of the list, if there is one.
    pub fn remove_child_from(&mut self, index: usize) -> (r: Option<T>)
        ensures
            index < old(self)@.len() ==> r == Some(old(self)@[index as int]) && final(self)@
                == old(self)@.remove(index as int),
            index >= old(self)@.len() ==> r is None && final(self)@ == old(self)@,
    {
        if index < self.children.len() {
            Some(self.children.remove(index))
        } else {
            None
        }
    }

    /// Inserts `child` at `index`, moving the later children one place on.
    pub fn insert(&mut self, index: usize, child: T)
        requires
            index <= old(self)@.len(),
        ensures
            final(self)@ == old(self)@.insert(index as int, child),
    {
        self.children.insert(index, child);
    }

    /// Removes and returns the child at `index`.
    pub fn remove(&mut self, index: usize) -> (r: T)
        requires
            index < old(self)@.len(),
        ensures
            r == old(self)@[index as int],
            final(self)@ == old(self)@.remove(index as int),
    {
        self.children.remove(index)
    }

    /// The child at `index`, if there is one.
    pub fn child_at(&self, index: usize) -> (r: Option<&T>)
        ensures
            index < self@.len() ==> r == Some(&self@[index as int]),
            index >= self@.len() ==> r is None,
    {
        if index < self.children.len() {
            Some(&self.children[index])
        } else {
            None
        }
    }

    /// The child at `index`, if there is one, to change in place.
    pub fn child_at_mut(&mut self, index: usize) -> (r: Option<&mut T>)
        ensures
            index < old(self)@.len() ==> r is Some && *r->0 == old(self)@[index as int],
            index < old(self)@.len() ==> final(self)@ == old(self)@.update(index as int, *final(r->0)),
            index >= old(self)@.len() ==> r is None && final(self)@ == old(self)@,
    {
        if index < self.children.len() {
            Some(&mut self.children[index])
        } else {
            None
        }
    }

    /// All the children, in order.
    pub fn as_slice(&self) -> (r: &[T])
        ensures
            r@ == self@,
    {
        self.children.as_slice()
    }
}

/// A law of the child list: a child appended with `set_child_to` and removed
/// again from the same index comes back, and the list is as it was.
pub proof fn lemma_append_then_remove<T>(children: Seq<T>, child: T)
    ensures
        children.push(child)[children.len() as int] == child,
        children.push(child).remove(children.len() as int) =~= children,
{
}

/// A law of the child list: replacing a child and then reading the same index
/// gives the new child, and every other child is untouched.
pub proof fn lemma_replace_then_read<T>(children: Seq<T>, index: int, child: T)
    requires
        0 <= index < children.len(),
    ensures
        children.update(index, child)[index] == child,
        children.update(index, child).len() == children.len(),
        forall|j: int|
            0 <= j < children.len() && j != index ==> children.update(index, child)[j]
                == children[j],
{
}

/// The two children of a split pane.
pub struct SplitPair<T> {
    pub first: T,
    pub second: T,
}

impl<T> SplitPair<T> {
    /// How many children a split pane has: always two.
    pub fn len(&self) -> (r: usize)
        ensures
            r == 2,
    {
        2
    }

    /// Replaces the first (index 0) or second (index 1) child and hands the old
    /// one back; any other index changes nothing and gives nothing back.
    pub fn set_child_to(&mut self, index: usize, child: T) -> (r: Option<T>)
        ensures
            index == 0 ==> r == Some(old(self).first) && final(self).first == child
                && final(self).second == old(self).second,
            index == 1 ==> r == Some(old(self).second) && final(self).second == child
                && final(self).first == old(self).first,
            index > 1 ==> r is None && final(self).first == old(self).first
                && final(self).second == old(self).second,
    {
        let mut child = child;
        if index == 0 {
            std::mem::swap(&mut child, &mut self.first);
            Some(child)
        } else if index == 1 {
            std::mem::swap(&mut child, &mut self.second);
            Some(child)
        } else {
            None
        }
    }

    /// The first (index 0) or second (index 1) child.
    pub fn child_at(&self, index: usize) -> (r: Option<&T>)
        ensures
            index == 0 ==> r == Some(&self.first),
            index == 1 ==> r == Some(&self.second),
            index > 1 ==> r is None,
    {
        if index == 0 {
            Some(&self.first)
        } else if index == 1 {
            Some(&self.second)
        } else {
            None
        }
    }
}

/// The one child of a frame or a window, if it has one.
pub struct SingleSlot<T> {
    pub child: Option<T>,
}

impl<T> SingleSlot<T> {
    /// An empty slot.
    pub fn new() -> (r: Self)
        ensures
            r.child is None,
    {
        SingleSlot { child: None }
    }

    /// Puts `child` (or nothing) in the slot and hands back what was there.
    pub fn set_child(&mut self, child: Option<T>) -> (r: Option<T>)
        ensures
            r == old(self).child,
            final(self).child == child,
    {
        let mut child = child;
        std::mem::swap(&mut child, &mut self.child);
        child
    }
}

} // verus!
