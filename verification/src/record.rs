//! Values under names.

use vstd::prelude::*;

use crate::text::same_text;

verus! {

/// The map that a list of named values stands for; later entries win.
pub open spec fn named_map<V>(entries: Seq<(Seq<char>, V)>) -> Map<Seq<char>, V>
    decreases entries.len(),
{
    if entries.len() == 0 {
        Map::empty()
    } else {
        named_map(entries.drop_last()).insert(entries.last().0, entries.last().1)
    }
}

/// Naming one more value puts it into the map.
pub proof fn named_map_push<V>(entries: Seq<(Seq<char>, V)>, name: Seq<char>, value: V)
    ensures
        named_map(entries.push((name, value))) == named_map(entries).insert(name, value),
{
    assert(entries.push((name, value)).drop_last() =~= entries);
}

/// An entry whose name no later one has is in the map under that name.
pub proof fn named_map_at<V>(entries: Seq<(Seq<char>, V)>, i: int)
    requires
        0 <= i < entries.len(),
        forall|j: int| i < j < entries.len() ==> (#[trigger] entries[j]).0 != entries[i].0,
    ensures
        named_map(entries).contains_key(entries[i].0),
        named_map(entries)[entries[i].0] == entries[i].1,
    decreases entries.len(),
{
    if i < entries.len() - 1 {
        assert(entries[entries.len() - 1].0 != entries[i].0);
        named_map_at(entries.drop_last(), i);
    }
}

/// A name that no entry has is not in the map.
pub proof fn named_map_absent<V>(entries: Seq<(Seq<char>, V)>, name: Seq<char>)
    requires
        forall|j: int| 0 <= j < entries.len() ==> (#[trigger] entries[j]).0 != name,
    ensures
        !named_map(entries).contains_key(name),
    decreases entries.len(),
{
    if entries.len() > 0 {
        assert(entries[entries.len() - 1].0 != name);
        named_map_absent(entries.drop_last(), name);
    }
}

/// Values under names. Setting a name again replaces its value.
#[derive(Debug)]
pub struct Record<T> {
    entries: Vec<(String, T)>,
}

/// Named values as plain pairs.
pub open spec fn named_values<T: View>(entries: Seq<(String, T)>) -> Seq<(Seq<char>, T::V)> {
    Seq::new(entries.len(), |i: int| (entries[i].0@, entries[i].1@))
}

impl<T: View> View for Record<T> {
    type V = Map<Seq<char>, T::V>;

    closed spec fn view(&self) -> Map<Seq<char>, T::V> {
        named_map(named_values(self.entries@))
    }
}

impl<T: View> Record<T> {
    pub fn new() -> (record: Self)
        ensures
            record@ == Map::<Seq<char>, T::V>::empty(),
    {
        Record { entries: Vec::new() }
    }

    /// Puts `value` under `name`.
    pub fn set(&mut self, name: &str, value: T)
        ensures
            final(self)@ == old(self)@.insert(name@, value@),
    {
        self.entries.push((name.to_string(), value));
        assert(named_values(self.entries@).drop_last() =~= named_values(old(self).entries@));
    }

    /// The value under `name`.
    pub fn get(&self, name: &str) -> (found: Option<&T>)
        ensures
            match found {
                Some(value) => self@.contains_key(name@) && value@ == self@[name@],
                None => !self@.contains_key(name@),
            },
    {
        let ghost pairs = named_values(self.entries@);
        let mut i: usize = self.entries.len();
        while i > 0
            invariant
                i <= self.entries@.len(),
                pairs == named_values(self.entries@),
                forall|j: int| i <= j < pairs.len() ==> (#[trigger] pairs[j]).0 != name@,
            decreases i,
        {
            i = i - 1;
            if same_text(self.entries[i].0.as_str(), name) {
                proof {
                    assert(pairs[i as int].0 == name@);
                    named_map_at(pairs, i as int);
                }
                return Some(&self.entries[i].1);
            }
        }
        proof {
            named_map_absent(pairs, name@);
        }
        None
    }

    /// All entries in the order in which they were set; where two have the same
    /// name, the later one counts.
    pub fn entries(&self) -> (entries: &Vec<(String, T)>)
        ensures
            named_map(named_values(entries@)) == self@,
    {
        &self.entries
    }
}

} // verus!
