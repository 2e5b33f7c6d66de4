use vstd::prelude::*;
use vstd::laws_eq::obeys_concrete_eq;

verus! {

/// A finite set of states, kept in the order in which they were inserted.
pub struct StateSet<State> {
    items: Vec<State>,
}

impl<State> View for StateSet<State> {
    type V = Set<State>;

    closed spec fn view(&self) -> Set<State> {
        self.items@.to_set()
    }
}

impl<State: PartialEq + Copy> StateSet<State> {
    /// No state is stored twice, and `==` on states is equality of values.
    pub closed spec fn wf(&self) -> bool {
        &&& obeys_concrete_eq::<State>()
        &&& self.items@.no_duplicates()
    }

    /// The empty set.
    pub fn new() -> (r: Self)
        requires
            obeys_concrete_eq::<State>(),
        ensures
            r.wf(),
            r@ == Set::<State>::empty(),
    {
        let r = StateSet { items: Vec::new() };
        assert(r.items@.to_set() =~= Set::<State>::empty());
        r
    }

    /// Whether `state` is a member.
    pub fn contains(&self, state: &State) -> (r: bool)
        requires
            self.wf(),
        ensures
            r == self@.contains(*state),
    {
        proof {
            reveal(obeys_concrete_eq);
        }
        let mut i: usize = 0;
        while i < self.items.len()
            invariant
                i <= self.items.len(),
                obeys_concrete_eq::<State>(),
                forall|j: int| 0 <= j < i ==> self.items@[j] != *state,
            decreases self.items.len() - i,
        {
            proof {
                reveal(obeys_concrete_eq);
            }
            if self.items[i] == *state {
                return true;
            }
            i += 1;
        }
        false
    }

    /// Adds `state`; returns whether it was new.
    pub fn insert(&mut self, state: State) -> (r: bool)
        requires
            old(self).wf(),
        ensures
            final(self).wf(),
            final(self)@ == old(self)@.insert(state),
            r == !old(self)@.contains(state),
    {
        if self.contains(&state) {
            assert(self@.insert(state) =~= self@);
            false
        } else {
            let ghost before = self.items@;
            self.items.push(state);
            assert(self.items@.to_set() =~= before.to_set().insert(state)) by {
                assert forall|s: State| self.items@.to_set().contains(s) implies before.to_set().insert(
                    state,
                ).contains(s) by {
                    let j = choose|j: int| 0 <= j < self.items@.len() && self.items@[j] == s;
                    if j < before.len() {
                        assert(before[j] == s);
                    }
                }
                assert forall|s: State| before.to_set().insert(state).contains(
                    s,
                ) implies self.items@.to_set().contains(s) by {
                    if s == state {
                        assert(self.items@[before.len() as int] == s);
                    } else {
                        let j = choose|j: int| 0 <= j < before.len() && before[j] == s;
                        assert(self.items@[j] == s);
                    }
                }
            }
            true
        }
    }

    /// The number of members.
    pub fn len(&self) -> (r: usize)
        requires
            self.wf(),
        ensures
            r == self@.len(),
    {
        proof {
            self.items@.unique_seq_to_set();
        }
        self.items.len()
    }
}

} // verus!
