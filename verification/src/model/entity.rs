//! Component storage: slots that are handed out, given back and reused.

use vstd::prelude::*;

verus! {

/// A slot of a component storage.
pub enum Component<C> {
    /// The slot holds a component.
    Present(C),
    /// The slot is empty.
    Missing,
}

/// What a component storage holds.
pub struct Storage<C> {
    /// The slots, by index.
    pub slots: Seq<Component<C>>,
    /// The indices that were given back and wait for reuse, oldest first.
    pub free: Seq<usize>,
}

/// The components of one kind, each in a slot with a stable index. A removed
/// component leaves its slot empty; the index waits in a list and is reused
/// before the storage grows.
pub struct ComponentType<C> {
    data: Vec<Component<C>>,
    free: Vec<usize>,
}

impl<C> View for ComponentType<C> {
    type V = Storage<C>;

    closed spec fn view(&self) -> Storage<C> {
        Storage { slots: self.data@, free: self.free@ }
    }
}

impl<C> ComponentType<C> {
    /// Every index that waits for reuse names a slot of the storage.
    #[verifier::type_invariant]
    spec fn in_range(self) -> bool {
        forall|i: int| 0 <= i < self.free@.len() ==> self.free@[i] < self.data@.len()
    }

    /// An empty storage.
    pub fn new() -> (storage: ComponentType<C>)
        ensures
            storage@.slots == Seq::<Component<C>>::empty(),
            storage@.free == Seq::<usize>::empty(),
    {
        ComponentType { data: Vec::new(), free: Vec::new() }
    }

    /// Stores a component and returns the index of its slot. The index that
    /// has waited longest is reused; if none waits, the storage grows by one
    /// slot.
    pub fn add(&mut self, component: C) -> (idx: usize)
        ensures
            old(self)@.free.len() == 0 ==> idx == old(self)@.slots.len() && final(self)@.slots
                == old(self)@.slots.push(Component::Present(component)) && final(self)@.free
                == old(self)@.free,
            old(self)@.free.len() > 0 ==> idx == old(self)@.free[0] && final(self)@.slots == old(
                self,
            )@.slots.update(idx as int, Component::Present(component)) && final(self)@.free
                == old(self)@.free.skip(1),
    {
        proof {
            use_type_invariant(&*self);
        }
        let mut data: Vec<Component<C>> = Vec::new();
        let mut free: Vec<usize> = Vec::new();
        std::mem::swap(&mut free, &mut self.free);
        std::mem::swap(&mut data, &mut self.data);
        let idx: usize = if free.len() == 0 {
            let end: usize = data.len();
            data.push(Component::Present(component));
            end
        } else {
            let first: usize = free.remove(0);
            data[first] = Component::Present(component);
            first
        };
        self.data = data;
        self.free = free;
        idx
    }

    /// Empties the slot at `idx` and lets its index wait for reuse. An index
    /// beyond the storage changes nothing.
    pub fn remove(&mut self, idx: usize)
        ensures
            idx < old(self)@.slots.len() ==> final(self)@.slots == old(self)@.slots.update(
                idx as int,
                Component::Missing,
            ) && final(self)@.free == old(self)@.free.push(idx),
            idx >= old(self)@.slots.len() ==> final(self)@ == old(self)@,
    {
        proof {
            use_type_invariant(&*self);
        }
        if idx < self.data.len() {
            let mut data: Vec<Component<C>> = Vec::new();
            let mut free: Vec<usize> = Vec::new();
            std::mem::swap(&mut free, &mut self.free);
            std::mem::swap(&mut data, &mut self.data);
            data[idx] = Component::Missing;
            free.push(idx);
            self.data = data;
            self.free = free;
        }
    }

    /// The component in the slot at `idx`, if the slot exists and holds one.
    pub fn get(&self, idx: usize) -> (component: Option<&C>)
        ensures
            component matches Some(c) ==> idx < self@.slots.len() && self@.slots[idx as int]
                == Component::Present(*c),
            component is None ==> idx >= self@.slots.len() || self@.slots[idx as int]
                == Component::<C>::Missing,
    {
        if idx < self.data.len() {
            match &self.data[idx] {
                Component::Present(c) => Some(c),
                Component::Missing => None,
            }
        } else {
            None
        }
    }
}

} // verus!
