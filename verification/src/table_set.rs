use vstd::prelude::*;

verus! {

/// The result collection: the distinct rendered table names gathered by one
/// extraction run. Internally a vector that never holds the same name
/// twice; its abstract value is the set of names as character sequences.
pub struct TableSet {
    names: Vec<String>,
}

impl View for TableSet {
    type V = Set<Seq<char>>;

    closed spec fn view(&self) -> Set<Seq<char>> {
        self.names.deep_view().to_set()
    }
}

impl TableSet {
    /// Well-formed: no name occurs twice, so every table appears exactly
    /// once however often the input referenced it.
    pub closed spec fn wf(self) -> bool {
        self.names.deep_view().no_duplicates()
    }

    /// A fresh, empty collection.
    pub fn new() -> (r: TableSet)
        ensures
            r@ == Set::<Seq<char>>::empty(),
            r.wf(),
    {
        let r = TableSet { names: Vec::new() };
        proof {
            assert(r.names.deep_view() =~= Seq::<Seq<char>>::empty());
            assert(r@ =~= Set::<Seq<char>>::empty());
        }
        r
    }

    /// Whether a name is already in the collection.
    pub fn contains(&self, name: &String) -> (r: bool)
        ensures
            r == self@.contains(name@),
    {
        let n = self.names.len();
        for i in 0..n
            invariant
                n == self.names.len(),
                forall|j: int| 0 <= j < i ==> self.names.deep_view()[j] != name@,
        {
            if self.names[i].eq(name) {
                proof {
                    assert(self.names.deep_view()[i as int] == name@);
                    assert(self.names.deep_view().contains(name@));
                }
                return true;
            }
        }
        proof {
            assert(!self.names.deep_view().contains(name@));
        }
        false
    }

    /// Add a name; a name already present is left alone, so well-formedness
    /// is preserved and the abstract value grows by at most this one name.
    pub fn insert(&mut self, name: String)
        requires
            old(self).wf(),
        ensures
            final(self).wf(),
            final(self)@ == old(self)@.insert(name@),
    {
        let ghost nv = name@;
        let ghost pre = self.names.deep_view();
        if !self.contains(&name) {
            self.names.push(name);
            proof {
                broadcast use vstd::prelude::Seq::lemma_push_to_set_commute;

                assert(self.names.deep_view() =~= pre.push(nv));
                assert(!pre.contains(nv));
                assert(self@ =~= old(self)@.insert(nv));
            }
        } else {
            proof {
                assert(self@ =~= old(self)@.insert(nv));
            }
        }
    }

    /// How many distinct names have been collected.
    pub fn len(&self) -> (r: usize)
        requires
            self.wf(),
        ensures
            r == self@.len(),
    {
        proof {
            self.names.deep_view().unique_seq_to_set();
        }
        self.names.len()
    }

    /// Hand the names out as a plain vector: the same names, still without
    /// duplicates, in unspecified order.
    pub fn into_names(self) -> (r: Vec<String>)
        requires
            self.wf(),
        ensures
            r.deep_view().to_set() == self@,
            r.deep_view().no_duplicates(),
    {
        self.names
    }
}

} // verus!
