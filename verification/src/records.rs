//! A string-keyed record map in which a later insert of a key replaces the
//! value of an earlier one.

use vstd::prelude::*;
use crate::text::str_eq;

verus! {

/// The map that a sequence of inserts leaves behind.
pub open spec fn entries_map(entries: Seq<(Seq<char>, Seq<char>)>) -> Map<Seq<char>, Seq<char>>
    decreases entries.len(),
{
    if entries.len() == 0 {
        Map::empty()
    } else {
        entries_map(entries.drop_last()).insert(entries.last().0, entries.last().1)
    }
}

/// Key/value text records (such as `url` or `twitter`) of a name.
#[derive(Debug, Clone)]
pub struct TextRecords {
    entries: Vec<(String, String)>,
}

impl TextRecords {
    /// The inserted pairs in order, taken as character sequences.
    pub closed spec fn entries_view(&self) -> Seq<(Seq<char>, Seq<char>)> {
        self.entries@.map_values(|e: (String, String)| (e.0@, e.1@))
    }

    /// An empty record map.
    pub fn new() -> (r: Self)
        ensures
            r@ == Map::<Seq<char>, Seq<char>>::empty(),
    {
        let r = TextRecords { entries: Vec::new() };
        assert(r.entries_view() =~= Seq::empty());
        r
    }

    /// Sets `key` to `value`, replacing any earlier value of `key`.
    pub fn insert(&mut self, key: String, value: String)
        ensures
            final(self)@ == old(self)@.insert(key@, value@),
    {
        let ghost before = self.entries_view();
        self.entries.push((key, value));
        assert(self.entries_view().drop_last() =~= before);
    }

    /// The inserted pairs, in order; a later pair for a key replaces an earlier one.
    pub fn entries(&self) -> (r: &Vec<(String, String)>)
        ensures
            entries_map(r@.map_values(|e: (String, String)| (e.0@, e.1@))) == self@,
    {
        &self.entries
    }

    /// Whether no key has a value.
    pub fn is_empty(&self) -> (b: bool)
        ensures
            b == (self@.dom().len() == 0),
    {
        proof {
            self.lemma_finite();
        }
        if self.entries.len() == 0 {
            assert(self.entries_view() =~= Seq::empty());
            assert(self@.dom() =~= Set::empty());
            true
        } else {
            let ghost es = self.entries_view();
            assert(es.len() > 0);
            assert(self@.dom().contains(es.last().0));
            false
        }
    }

    proof fn lemma_finite(&self)
        ensures
            self@.dom().finite(),
    {
        lemma_entries_map_finite(self.entries_view());
    }

    /// The value of `key`, if it has one.
    pub fn get(&self, key: &str) -> (r: Option<&String>)
        ensures
            match r {
                Some(v) => self@.contains_key(key@) && self@[key@] == v@,
                None => !self@.contains_key(key@),
            },
    {
        let ghost es = self.entries_view();
        let mut i = self.entries.len();
        assert(es.take(i as int) =~= es);
        assert(es.skip(i as int) =~= Seq::<(Seq<char>, Seq<char>)>::empty());
        assert(entries_map(es) =~= entries_map(es.take(i as int)).union_prefer_right(
            entries_map(es.skip(i as int))));
        while i > 0
            invariant
                i <= self.entries.len(),
                es == self.entries_view(),
                es.len() == self.entries@.len(),
                entries_map(es) == entries_map(es.take(i as int)).union_prefer_right(
                    entries_map(es.skip(i as int))),
                !entries_map(es.skip(i as int)).contains_key(key@),
            decreases i,
        {
            let ghost t = es.take(i as int);
            assert(t.drop_last() =~= es.take(i - 1));
            if str_eq(self.entries[i - 1].0.as_str(), key) {
                assert(es[i - 1] == (self.entries@[i - 1].0@, self.entries@[i - 1].1@));
                assert(entries_map(es.take(i as int)) == entries_map(es.take(i - 1)).insert(
                    es[i - 1].0, es[i - 1].1));
                assert(entries_map(es.take(i as int)).contains_key(key@));
                assert(entries_map(es) =~= entries_map(es.take(i as int)).union_prefer_right(
                    entries_map(es.skip(i as int))));
                return Some(&self.entries[i - 1].1);
            }
            proof {
                let s = es.skip(i - 1);
                assert(s.len() > 0);
                lemma_entries_map_cons(s);
                assert(s.drop_first() =~= es.skip(i as int));
                assert(entries_map(es.take(i as int)) =~= entries_map(es.take(i - 1)).insert(
                    es[i - 1].0, es[i - 1].1));
                assert(entries_map(es) =~= entries_map(es.take(i - 1)).union_prefer_right(
                    entries_map(es.skip(i - 1))));
            }
            i = i - 1;
        }
        assert(es.take(0) =~= Seq::<(Seq<char>, Seq<char>)>::empty());
        assert(es.skip(0) =~= es);
        None
    }
}

impl View for TextRecords {
    type V = Map<Seq<char>, Seq<char>>;

    closed spec fn view(&self) -> Map<Seq<char>, Seq<char>> {
        entries_map(self.entries_view())
    }
}

proof fn lemma_entries_map_finite(es: Seq<(Seq<char>, Seq<char>)>)
    ensures
        entries_map(es).dom().finite(),
    decreases es.len(),
{
    if es.len() > 0 {
        lemma_entries_map_finite(es.drop_last());
    }
}

/// Inserting a first pair below a sequence: its key keeps its value unless a
/// later pair sets it.
proof fn lemma_entries_map_cons(es: Seq<(Seq<char>, Seq<char>)>)
    requires
        es.len() > 0,
    ensures
        entries_map(es) == Map::<Seq<char>, Seq<char>>::empty().insert(es[0].0, es[0].1)
            .union_prefer_right(entries_map(es.drop_first())),
    decreases es.len(),
{
    if es.len() == 1 {
        assert(es.drop_first() =~= Seq::<(Seq<char>, Seq<char>)>::empty());
        assert(es.drop_last() =~= Seq::<(Seq<char>, Seq<char>)>::empty());
        assert(entries_map(es) =~= Map::<Seq<char>, Seq<char>>::empty().insert(es[0].0, es[0].1)
            .union_prefer_right(entries_map(es.drop_first())));
    } else {
        lemma_entries_map_cons(es.drop_last());
        assert(es.drop_last().drop_first() =~= es.drop_first().drop_last());
        assert(es.drop_first().last() == es.last());
        assert(entries_map(es) =~= Map::<Seq<char>, Seq<char>>::empty().insert(es[0].0, es[0].1)
            .union_prefer_right(entries_map(es.drop_first())));
    }
}

} // verus!
