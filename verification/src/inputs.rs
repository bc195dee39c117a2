//! The input bindings of a world: strings by key, which the compiler sees
//! as a dictionary.

use crate::keyed::{as_map, distinct, key_at, lemma_empty, lemma_push, lemma_update, position};
use vstd::prelude::*;

verus! {

/// A value bound to a key.
pub struct InputBinding {
    pub key: String,
    pub value: String,
}

/// The keys of the entries, in their order.
pub open spec fn binding_keys(entries: Seq<InputBinding>) -> Seq<Seq<char>> {
    entries.map_values(|entry: InputBinding| entry.key@)
}

/// The values of the entries, in their order.
pub open spec fn binding_values(entries: Seq<InputBinding>) -> Seq<Seq<char>> {
    entries.map_values(|entry: InputBinding| entry.value@)
}

/// The entries as a dictionary.
pub open spec fn dictionary(entries: Seq<InputBinding>) -> Map<Seq<char>, Seq<char>> {
    as_map(binding_keys(entries), binding_values(entries))
}

/// The dictionary that binding the entries one after the other gives: a
/// later entry replaces an earlier one for the same key.
pub open spec fn bound(entries: Seq<InputBinding>) -> Map<Seq<char>, Seq<char>>
    decreases entries.len(),
{
    if entries.len() == 0 {
        Map::empty()
    } else {
        bound(entries.drop_last()).insert(entries.last().key@, entries.last().value@)
    }
}

/// The input bindings of a world.
pub struct InputBindings {
    entries: Vec<InputBinding>,
}

impl View for InputBindings {
    type V = Map<Seq<char>, Seq<char>>;

    closed spec fn view(&self) -> Map<Seq<char>, Seq<char>> {
        dictionary(self.entries@)
    }
}

impl InputBindings {
    /// No key has two entries.
    pub closed spec fn wf(&self) -> bool {
        distinct(binding_keys(self.entries@))
    }

    /// No bindings.
    pub fn new() -> (inputs: Self)
        ensures
            inputs.wf(),
            inputs@ == Map::<Seq<char>, Seq<char>>::empty(),
    {
        let inputs = InputBindings { entries: Vec::new() };
        proof {
            lemma_empty(binding_keys(inputs.entries@), binding_values(inputs.entries@));
        }
        inputs
    }

    /// The index of the entry for `key`.
    fn position(&self, key: &String) -> (at: Option<usize>)
        ensures
            match at {
                Some(i) => key_at(binding_keys(self.entries@), key@, i as int),
                None => forall|i: int| !key_at(binding_keys(self.entries@), key@, i),
            },
    {
        let is_it = |entry: &InputBinding| -> (same: bool)
            ensures
                same == (entry.key@ == key@),
            { entry.key == *key };
        position(&self.entries, is_it)
    }

    /// Binds `value` to `key`, in place of what was bound to it before.
    pub fn set(&mut self, key: String, value: String)
        requires
            old(self).wf(),
        ensures
            final(self).wf(),
            final(self)@ == old(self)@.insert(key@, value@),
    {
        let ghost keys = binding_keys(self.entries@);
        let ghost values = binding_values(self.entries@);
        let ghost name = key@;
        let ghost text = value@;
        match self.position(&key) {
            Some(i) => {
                self.entries[i].value = value;
                proof {
                    lemma_update(keys, values, i as int, text);
                    assert(binding_keys(self.entries@) =~= keys);
                    assert(binding_values(self.entries@) =~= values.update(i as int, text));
                }
            },
            None => {
                self.entries.push(InputBinding { key, value });
                proof {
                    lemma_push(keys, values, name, text);
                    assert(binding_keys(self.entries@) =~= keys.push(name));
                    assert(binding_values(self.entries@) =~= values.push(text));
                }
            },
        }
    }

    /// Replaces all bindings by the given ones, bound in the order given.
    pub fn replace(&mut self, bindings: &Vec<InputBinding>)
        ensures
            final(self).wf(),
            final(self)@ == bound(bindings@),
    {
        self.clear();
        let mut i: usize = 0;
        while i < bindings.len()
            invariant
                i <= bindings.len(),
                self.wf(),
                self@ == bound(bindings@.take(i as int)),
            decreases bindings.len() - i,
        {
            self.set(bindings[i].key.clone(), bindings[i].value.clone());
            assert(bindings@.take(i + 1).drop_last() =~= bindings@.take(i as int));
            i += 1;
        }
        assert(bindings@.take(bindings.len() as int) =~= bindings@);
    }

    /// Drops every binding.
    pub fn clear(&mut self)
        ensures
            final(self).wf(),
            final(self)@ == Map::<Seq<char>, Seq<char>>::empty(),
    {
        self.entries.clear();
        proof {
            lemma_empty(binding_keys(self.entries@), binding_values(self.entries@));
        }
    }

    /// The bindings, each key once, in the order in which the keys were
    /// first bound.
    pub fn entries(&self) -> (entries: &Vec<InputBinding>)
        requires
            self.wf(),
        ensures
            distinct(binding_keys(entries@)),
            dictionary(entries@) == self@,
    {
        &self.entries
    }
}

} // verus!
