//! The set of players that are online on one server.

use vstd::prelude::*;
use crate::text::texts;

verus! {

/// A set of player names. No name is held twice.
pub struct PlayerSet {
    names: Vec<String>,
}

impl PlayerSet {
    /// The names in the set.
    pub closed spec fn view(&self) -> Set<Seq<char>> {
        texts(self.names@).to_set()
    }

    /// No name is held twice.
    #[verifier::type_invariant]
    spec fn well_formed(&self) -> bool {
        texts(self.names@).no_duplicates()
    }

    /// The empty set.
    pub fn new() -> (set: PlayerSet)
        ensures
            set@ == Set::<Seq<char>>::empty(),
            set@.finite(),
    {
        let set = PlayerSet { names: Vec::new() };
        set
    }

    /// Where `name` is held, if it is.
    fn position(&self, name: &String) -> (at: Option<usize>)
        ensures
            match at {
                Some(i) => i < self.names@.len() && self.names@[i as int]@ == name@,
                None => !self@.contains(name@),
            },
    {
        let mut i: usize = 0;
        while i < self.names.len()
            invariant
                i <= self.names@.len(),
                forall|j: int| 0 <= j < i ==> self.names@[j]@ != name@,
            decreases self.names@.len() - i,
        {
            if self.names[i] == *name {
                return Some(i);
            }
            i += 1;
        }
        assert(!texts(self.names@).contains(name@)) by {
            if texts(self.names@).contains(name@) {
                let j = choose|j: int| 0 <= j < texts(self.names@).len() && texts(self.names@)[j] == name@;
                assert(self.names@[j]@ == name@);
            }
        }
        None
    }

    /// Whether `name` is in the set.
    pub fn contains(&self, name: &str) -> (found: bool)
        ensures
            found == self@.contains(name@),
    {
        let key = name.to_owned();
        match self.position(&key) {
            Some(i) => {
                assert(texts(self.names@)[i as int] == name@);
                true
            },
            None => false,
        }
    }

    /// Adds `name`; a name already held stays as it is.
    pub fn insert(&mut self, name: String)
        ensures
            final(self)@ == old(self)@.insert(name@),
            final(self)@.finite(),
    {
        proof {
            use_type_invariant(&*self);
        }
        match self.position(&name) {
            Some(i) => {
                assert(texts(self.names@)[i as int] == name@);
                assert(self@ =~= self@.insert(name@));
            },
            None => {
                let ghost before = self.names@;
                let mut names: Vec<String> = Vec::new();
                std::mem::swap(&mut names, &mut self.names);
                names.push(name);
                proof {
                    assert(texts(names@) =~= texts(before).push(name@));
                    assert(texts(names@).no_duplicates()) by {
                        assert forall|i: int, j: int|
                            0 <= i < texts(names@).len() && 0 <= j < texts(names@).len() && i != j implies texts(
                            names@,
                        )[i] != texts(names@)[j] by {
                            if i < before.len() {
                                assert(texts(before)[i] == texts(names@)[i]);
                            }
                            if j < before.len() {
                                assert(texts(before)[j] == texts(names@)[j]);
                            }
                        }
                    }
                    assert(texts(names@).to_set() =~= texts(before).to_set().insert(name@)) by {
                        assert forall|k: Seq<char>| texts(names@).contains(k) <==> (texts(before).contains(k)
                            || k == name@) by {
                            if texts(names@).contains(k) {
                                let i = choose|i: int| 0 <= i < texts(names@).len() && texts(names@)[i] == k;
                                if i < before.len() {
                                    assert(texts(before)[i] == k);
                                }
                            }
                            if texts(before).contains(k) {
                                let i = choose|i: int| 0 <= i < texts(before).len() && texts(before)[i] == k;
                                assert(texts(names@)[i] == k);
                            }
                            if k == name@ {
                                assert(texts(names@)[before.len() as int] == k);
                            }
                        }
                    }
                }
                self.names = names;
            },
        }
    }

    /// Takes `name` out; a name that is not held changes nothing.
    pub fn remove(&mut self, name: &str)
        ensures
            final(self)@ == old(self)@.remove(name@),
            final(self)@.finite(),
    {
        proof {
            use_type_invariant(&*self);
        }
        let key = name.to_owned();
        match self.position(&key) {
            Some(i) => {
                let ghost before = self.names@;
                let mut names: Vec<String> = Vec::new();
                std::mem::swap(&mut names, &mut self.names);
                names.remove(i);
                proof {
                    assert(texts(before)[i as int] == name@);
                    assert(texts(names@) =~= texts(before).remove(i as int));
                    assert(texts(names@).no_duplicates()) by {
                        assert forall|a: int, b: int|
                            0 <= a < texts(names@).len() && 0 <= b < texts(names@).len() && a != b implies texts(
                            names@,
                        )[a] != texts(names@)[b] by {
                            let a0 = if a < i { a } else { a + 1 };
                            let b0 = if b < i { b } else { b + 1 };
                            assert(texts(names@)[a] == texts(before)[a0]);
                            assert(texts(names@)[b] == texts(before)[b0]);
                        }
                    }
                    assert(texts(names@).to_set() =~= texts(before).to_set().remove(name@)) by {
                        assert forall|k: Seq<char>| texts(names@).contains(k) <==> (texts(before).contains(k)
                            && k != name@) by {
                            if texts(names@).contains(k) {
                                let a = choose|a: int| 0 <= a < texts(names@).len() && texts(names@)[a] == k;
                                let a0 = if a < i { a } else { a + 1 };
                                assert(texts(before)[a0] == k);
                            }
                            if texts(before).contains(k) && k != name@ {
                                let a0 = choose|a0: int| 0 <= a0 < texts(before).len() && texts(before)[a0] == k;
                                let a = if a0 < i { a0 } else { a0 - 1 };
                                assert(texts(names@)[a] == k);
                            }
                        }
                    }
                }
                self.names = names;
            },
            None => {
                assert(self@ =~= self@.remove(name@));
            },
        }
    }

    /// How many names the set holds.
    pub fn len(&self) -> (n: usize)
        ensures
            self@.finite(),
            n == self@.len(),
    {
        proof {
            use_type_invariant(self);
            texts(self.names@).unique_seq_to_set();
        }
        self.names.len()
    }

    /// The names of the set, each once.
    pub fn to_vec(&self) -> (names: Vec<String>)
        ensures
            texts(names@).to_set() == self@,
            texts(names@).no_duplicates(),
            names@.len() == self@.len(),
    {
        proof {
            use_type_invariant(self);
            texts(self.names@).unique_seq_to_set();
        }
        let mut out: Vec<String> = Vec::new();
        let mut i: usize = 0;
        while i < self.names.len()
            invariant
                i <= self.names@.len(),
                out@.len() == i,
                forall|j: int| 0 <= j < i ==> out@[j]@ == self.names@[j]@,
            decreases self.names@.len() - i,
        {
            out.push(self.names[i].clone());
            i += 1;
        }
        assert(texts(out@) =~= texts(self.names@));
        out
    }
}

} // verus!
