//! A map whose keys are texts.
use crate::text::same;
use vstd::prelude::*;

verus! {

/// A map whose keys are texts. Of two entries with one key the later one counts.
#[derive(Debug)]
pub struct TextMap<V> {
    entries: Vec<(String, V)>,
}

/// The map that the entries stand for.
pub open spec fn entries_map<V>(entries: Seq<(String, V)>) -> Map<Seq<char>, V>
    decreases entries.len(),
{
    if entries.len() == 0 {
        Map::empty()
    } else {
        entries_map(entries.drop_last()).insert(entries.last().0@, entries.last().1)
    }
}

impl<V> View for TextMap<V> {
    type V = Map<Seq<char>, V>;

    closed spec fn view(&self) -> Map<Seq<char>, V> {
        entries_map(self.entries@)
    }
}

impl<V> TextMap<V> {
    pub fn new() -> (r: TextMap<V>)
        ensures
            r@ == Map::<Seq<char>, V>::empty(),
    {
        TextMap { entries: Vec::new() }
    }

    /// Gives the key the value, whatever it had before.
    pub fn insert(&mut self, key: String, value: V)
        ensures
            final(self)@ == old(self)@.insert(key@, value),
    {
        let ghost before = self.entries@;
        self.entries.push((key, value));
        assert(self.entries@.drop_last() =~= before);
    }

    /// The value of the key.
    pub fn get(&self, key: &str) -> (r: Option<&V>)
        ensures
            match r {
                Some(value) => self@.contains_key(key@) && self@[key@] == *value,
                None => !self@.contains_key(key@),
            },
    {
        let ghost all = self.entries@;
        let mut i: usize = self.entries.len();
        assert(all.take(i as int) =~= all);
        while i > 0
            invariant
                i <= all.len(),
                all == self.entries@,
                self@ == entries_map(all),
                self@.contains_key(key@) == entries_map(all.take(i as int)).contains_key(key@),
                self@.contains_key(key@) ==> self@[key@] == entries_map(all.take(i as int))[key@],
            decreases i,
        {
            let ghost n = i as int;
            i -= 1;
            assert(all.take(n).drop_last() =~= all.take(n - 1));
            let entry = &self.entries[i];
            if same(entry.0.as_str(), key) {
                return Some(&entry.1);
            }
        }
        None
    }
}

} // verus!
