//! The rubric catalog: evaluations keyed by name.
//!
//! The catalog is built from a list of records. Where two records carry the
//! same name, the later one takes the place of the earlier.

use crate::evaluations::{Evaluation, EvaluationView};
use crate::text::same_text;
use vstd::prelude::*;

verus! {

/// The contents of a list of evaluations, in order.
pub open spec fn record_views(records: Seq<Evaluation>) -> Seq<EvaluationView> {
    records.map_values(|r: Evaluation| r@)
}

/// The catalog that a list of records gives: each record is entered under
/// its name, in order, so that a later record replaces an earlier one of
/// the same name.
pub open spec fn catalog_of(records: Seq<EvaluationView>) -> Map<Seq<char>, EvaluationView>
    decreases records.len(),
{
    if records.len() == 0 {
        Map::empty()
    } else {
        catalog_of(records.drop_last()).insert(records.last().name, records.last())
    }
}

/// A set of evaluations, each found under its name.
pub struct EvaluationCatalog {
    entries: Vec<Evaluation>,
}

/// The names of `entries`, in order.
pub open spec fn names_of(entries: Seq<Evaluation>) -> Seq<Seq<char>> {
    entries.map_values(|e: Evaluation| e.name@)
}

impl View for EvaluationCatalog {
    type V = Map<Seq<char>, EvaluationView>;

    closed spec fn view(&self) -> Map<Seq<char>, EvaluationView> {
        Map::new(
            |name: Seq<char>| names_of(self.entries@).contains(name),
            |name: Seq<char>| self.entries@[names_of(self.entries@).index_of(name)]@,
        )
    }
}

impl EvaluationCatalog {
    #[verifier::type_invariant]
    spec fn names_are_distinct(&self) -> bool {
        names_of(self.entries@).no_duplicates()
    }

    /// The entry at position `i` is what the catalog holds under its name.
    proof fn lemma_entry(&self, i: int)
        requires
            self.names_are_distinct(),
            0 <= i < self.entries@.len(),
        ensures
            self@.contains_key(self.entries@[i].name@),
            self@[self.entries@[i].name@] == self.entries@[i]@,
    {
        let names = names_of(self.entries@);
        assert(names[i] == self.entries@[i].name@);
        assert(names.contains(names[i]));
        let chosen = names.index_of(names[i]);
        assert(chosen == i);
    }

    /// A catalog without entries.
    pub fn new() -> (catalog: EvaluationCatalog)
        ensures
            catalog@ == Map::<Seq<char>, EvaluationView>::empty(),
    {
        let catalog = EvaluationCatalog { entries: Vec::new() };
        assert(catalog@ =~= Map::<Seq<char>, EvaluationView>::empty());
        catalog
    }

    /// The position of the entry named `name`, if there is one.
    fn position(&self, name: &str) -> (r: Option<usize>)
        ensures
            (match r {
                Some(i) => i < self.entries@.len() && self.entries@[i as int].name@ == name@,
                None => !names_of(self.entries@).contains(name@),
            }),
    {
        let mut i: usize = 0;
        while i < self.entries.len()
            invariant
                i <= self.entries.len(),
                forall|j: int| 0 <= j < i ==> names_of(self.entries@)[j] != name@,
            decreases self.entries.len() - i,
        {
            if same_text(self.entries[i].name.as_str(), name) {
                return Some(i);
            }
            i += 1;
        }
        None
    }

    /// Looks up the evaluation named `name`.
    pub fn get(&self, name: &str) -> (found: Option<&Evaluation>)
        ensures
            (match found {
                Some(evaluation) => self@.contains_key(name@) && self@[name@] == evaluation@,
                None => !self@.contains_key(name@),
            }),
    {
        proof {
            use_type_invariant(self);
        }
        match self.position(name) {
            Some(i) => {
                proof {
                    self.lemma_entry(i as int);
                }
                Some(&self.entries[i])
            },
            None => None,
        }
    }

    /// Enters `evaluation` under its name, in place of any entry that was
    /// there under that name.
    pub fn insert(&mut self, evaluation: Evaluation)
        ensures
            final(self)@ == old(self)@.insert(evaluation.name@, evaluation@),
    {
        proof {
            use_type_invariant(&*self);
        }
        let ghost before = *self;
        let ghost old_names = names_of(self.entries@);
        match self.position(evaluation.name.as_str()) {
            Some(i) => {
                let ghost name = evaluation.name@;
                let ghost content = evaluation@;
                let mut entries: Vec<Evaluation> = Vec::new();
                assert(names_of(entries@) =~= Seq::empty());
                core::mem::swap(&mut self.entries, &mut entries);
                entries.set(i, evaluation);
                assert(names_of(entries@) =~= old_names);
                core::mem::swap(&mut self.entries, &mut entries);
                proof {
                    assert(names_of(self.entries@) =~= old_names);
                    assert forall|key: Seq<char>|
                        self@.contains_key(key) <==> #[trigger] before@.insert(
                            name,
                            content,
                        ).contains_key(key) by {
                        assert(before.entries@[i as int].name@ == name);
                        assert(old_names[i as int] == name);
                    }
                    assert forall|key: Seq<char>| #[trigger]
                        self@.contains_key(key) implies self@[key] == before@.insert(
                        name,
                        content,
                    )[key] by {
                        let k = old_names.index_of(key);
                        if k == i {
                            assert(key == name);
                        } else {
                            assert(self.entries@[k] == before.entries@[k]);
                        }
                    }
                    assert(self@ =~= before@.insert(name, content));
                }
            },
            None => {
                let ghost name = evaluation.name@;
                let ghost content = evaluation@;
                let mut entries: Vec<Evaluation> = Vec::new();
                assert(names_of(entries@) =~= Seq::empty());
                core::mem::swap(&mut self.entries, &mut entries);
                entries.push(evaluation);
                assert(names_of(entries@) =~= old_names.push(name));
                core::mem::swap(&mut self.entries, &mut entries);
                proof {
                    let names = names_of(self.entries@);
                    assert(names =~= old_names.push(name));
                    assert(names.no_duplicates());
                    assert forall|key: Seq<char>|
                        self@.contains_key(key) <==> #[trigger] before@.insert(
                            name,
                            content,
                        ).contains_key(key) by {
                        if old_names.contains(key) {
                            let k = old_names.index_of(key);
                            assert(names[k] == key);
                        }
                        if key == name {
                            assert(names[names.len() - 1] == key);
                        }
                        if names.contains(key) && key != name {
                            let k = names.index_of(key);
                            assert(old_names[k] == key);
                        }
                    }
                    assert forall|key: Seq<char>| #[trigger]
                        self@.contains_key(key) implies self@[key] == before@.insert(
                        name,
                        content,
                    )[key] by {
                        let k = names.index_of(key);
                        if key == name {
                            assert(names[names.len() - 1] == key);
                            assert(k == names.len() - 1);
                        } else {
                            assert(old_names[k] == key);
                            let k0 = old_names.index_of(key);
                            assert(k0 == k);
                        }
                    }
                    assert(self@ =~= before@.insert(name, content));
                }
            },
        }
    }

    /// Builds the catalog of `records`. Of two records with the same name
    /// the later one stays.
    pub fn from_records(records: Vec<Evaluation>) -> (catalog: EvaluationCatalog)
        ensures
            catalog@ == catalog_of(record_views(records@)),
    {
        let mut catalog = EvaluationCatalog::new();
        let ghost all = record_views(records@);
        assert(all.take(0) =~= Seq::empty());
        for record in it: records
            invariant
                all == record_views(it.seq()),
                catalog@ == catalog_of(all.take(it.index())),
        {
            proof {
                let grown = all.take(it.index() + 1);
                assert(grown.drop_last() =~= all.take(it.index()));
                assert(grown.last() == record@);
            }
            catalog.insert(record);
        }
        assert(all.take(all.len() as int) =~= all);
        catalog
    }

    /// The number of evaluations in the catalog.
    pub fn len(&self) -> (n: usize)
        ensures
            n == self@.dom().len(),
            self@.dom().finite(),
    {
        proof {
            use_type_invariant(self);
            let names = names_of(self.entries@);
            names.unique_seq_to_set();
            assert(self@.dom() =~= names.to_set());
        }
        self.entries.len()
    }

    /// The evaluations of the catalog, each once.
    pub fn entries(&self) -> (list: &Vec<Evaluation>)
        ensures
            names_of(list@).no_duplicates(),
            forall|i: int|
                0 <= i < list@.len() ==> self@.contains_key(#[trigger] list@[i].name@)
                    && self@[list@[i].name@] == list@[i]@,
            forall|name: Seq<char>|
                self@.contains_key(name) ==> names_of(list@).contains(name),
    {
        proof {
            use_type_invariant(self);
            assert forall|i: int| 0 <= i < self.entries@.len() implies self@.contains_key(
                #[trigger] self.entries@[i].name@,
            ) && self@[self.entries@[i].name@] == self.entries@[i]@ by {
                self.lemma_entry(i);
            }
        }
        &self.entries
    }
}

} // verus!
