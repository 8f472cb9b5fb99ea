//! The persisted configuration: the inscriptions to keep hidden.

use vstd::prelude::*;

use crate::text::{contains_string, string_views};

verus! {

/// Identifiers to suppress from normal operation, each held once.
#[derive(Debug)]
pub struct Config {
    hidden: Vec<String>,
}

impl View for Config {
    type V = Set<Seq<char>>;

    closed spec fn view(&self) -> Set<Seq<char>> {
        string_views(self.hidden@).to_set()
    }
}

impl Config {
    #[verifier::type_invariant]
    pub closed spec fn wf(&self) -> bool {
        string_views(self.hidden@).no_duplicates()
    }

    /// The configuration that hides exactly the given identifiers.
    pub fn new(ids: Vec<String>) -> (r: Config)
        ensures
            r@ == string_views(ids@).to_set(),
    {
        let mut hidden: Vec<String> = Vec::new();
        let mut i: usize = 0;
        while i < ids.len()
            invariant
                i <= ids@.len(),
                string_views(hidden@).no_duplicates(),
                string_views(hidden@).to_set() == string_views(ids@.subrange(0, i as int)).to_set(),
            decreases ids@.len() - i,
        {
            let ghost before = string_views(hidden@);
            let ghost seen = string_views(ids@.subrange(0, i as int));
            let id = ids[i].clone();
            proof {
                assert(string_views(ids@.subrange(0, i + 1)) =~= seen.push(id@));
                seen.lemma_push_to_set_commute(id@);
            }
            if !contains_string(&hidden, &id) {
                hidden.push(id);
                proof {
                    assert(string_views(hidden@) =~= before.push(id@));
                    before.lemma_push_to_set_commute(id@);
                }
            } else {
                proof {
                    assert(before.to_set().contains(id@));
                    assert(before.to_set().insert(id@) =~= before.to_set());
                }
            }
            i = i + 1;
        }
        assert(ids@.subrange(0, i as int) =~= ids@);
        Config { hidden }
    }

    /// Whether the identifier is hidden.
    pub fn is_hidden(&self, id: &String) -> (r: bool)
        ensures
            r == self@.contains(id@),
    {
        contains_string(&self.hidden, id)
    }

    /// The number of hidden identifiers.
    pub fn hidden_count(&self) -> (r: usize)
        ensures
            r == self@.len(),
    {
        proof {
            use_type_invariant(self);
            string_views(self.hidden@).unique_seq_to_set();
        }
        self.hidden.len()
    }

    /// The hidden identifiers, each once.
    pub fn hidden(&self) -> (r: &Vec<String>)
        ensures
            string_views(r@).to_set() == self@,
            string_views(r@).no_duplicates(),
    {
        proof {
            use_type_invariant(self);
        }
        &self.hidden
    }
}

impl Default for Config {
    fn default() -> (r: Config)
        ensures
            r@.is_empty(),
    {
        let r = Config { hidden: Vec::new() };
        assert(string_views(r.hidden@) =~= Seq::<Seq<char>>::empty());
        r
    }
}

} // verus!
