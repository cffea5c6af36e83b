//! Named relation links: a map from names to links that remembers the
//! order in which the names came.

use crate::shared::links::{Link, LinkView};
use crate::shared::text::same_text;
use vstd::prelude::*;

verus! {

/// The map that `entries` spells out, a later entry replacing an earlier one
/// of the same name.
pub open spec fn map_of(entries: Seq<(String, Link)>) -> Map<Seq<char>, LinkView>
    decreases entries.len(),
{
    if entries.len() == 0 {
        Map::empty()
    } else {
        map_of(entries.drop_last()).insert(entries.last().0@, entries.last().1@)
    }
}

/// Whether no name occurs twice in `entries`.
pub open spec fn distinct_names(entries: Seq<(String, Link)>) -> bool {
    forall|i: int, j: int|
        0 <= i < j < entries.len() ==> (#[trigger] entries[i]).0@ != (#[trigger] entries[j]).0@
}

/// The keys of `map_of(entries)` are the names in `entries`, and under
/// distinct names each name maps to the link beside it.
pub proof fn lemma_map_of_entries(entries: Seq<(String, Link)>)
    ensures
        forall|k: Seq<char>| #[trigger]
            map_of(entries).contains_key(k) <==> exists|i: int|
                0 <= i < entries.len() && (#[trigger] entries[i]).0@ == k,
        distinct_names(entries) ==> forall|i: int|
            0 <= i < entries.len() ==> map_of(entries)[(#[trigger] entries[i]).0@] == entries[i].1@,
        map_of(entries).dom().finite(),
        distinct_names(entries) ==> map_of(entries).dom().len() == entries.len(),
    decreases entries.len(),
{
    if entries.len() > 0 {
        let front = entries.drop_last();
        let last = entries.last();
        lemma_map_of_entries(front);
        assert forall|k: Seq<char>| #[trigger]
            map_of(entries).contains_key(k) <==> exists|i: int|
                0 <= i < entries.len() && (#[trigger] entries[i]).0@ == k by {
            if map_of(entries).contains_key(k) {
                if k == last.0@ {
                    assert(entries[entries.len() - 1].0@ == k);
                } else {
                    assert(map_of(front).contains_key(k));
                    let i = choose|i: int| 0 <= i < front.len() && (#[trigger] front[i]).0@ == k;
                    assert(entries[i].0@ == k);
                }
            }
            if exists|i: int| 0 <= i < entries.len() && (#[trigger] entries[i]).0@ == k {
                let i = choose|i: int| 0 <= i < entries.len() && (#[trigger] entries[i]).0@ == k;
                if i < front.len() {
                    assert(front[i].0@ == k);
                }
            }
        }
        if distinct_names(entries) {
            assert(distinct_names(front)) by {
                assert forall|i: int, j: int| 0 <= i < j < front.len() implies (
                #[trigger] front[i]).0@ != (#[trigger] front[j]).0@ by {
                    assert(entries[i].0@ != entries[j].0@);
                }
            }
            assert forall|i: int| 0 <= i < entries.len() implies map_of(entries)[(
            #[trigger] entries[i]).0@] == entries[i].1@ by {
                if i < front.len() {
                    assert(entries[i].0@ != entries[entries.len() - 1].0@);
                    assert(front[i].0@ == entries[i].0@);
                }
            }
            assert(!map_of(front).contains_key(last.0@)) by {
                if map_of(front).contains_key(last.0@) {
                    let i = choose|i: int|
                        0 <= i < front.len() && (#[trigger] front[i]).0@ == last.0@;
                    assert(entries[i].0@ != entries[entries.len() - 1].0@);
                }
            }
            assert(map_of(entries).dom() =~= map_of(front).dom().insert(last.0@));
        }
        assert(map_of(entries).dom() =~= map_of(front).dom().insert(last.0@));
    } else {
        assert(map_of(entries).dom() =~= Set::<Seq<char>>::empty());
    }
}

/// Replacing the link at the place where `name` stands replaces it in the map.
pub proof fn lemma_map_of_update(entries: Seq<(String, Link)>, at: int, entry: (String, Link))
    requires
        distinct_names(entries),
        0 <= at < entries.len(),
        entries[at].0@ == entry.0@,
    ensures
        distinct_names(entries.update(at, entry)),
        map_of(entries.update(at, entry)) == map_of(entries).insert(entry.0@, entry.1@),
    decreases entries.len(),
{
    let changed = entries.update(at, entry);
    assert(distinct_names(changed)) by {
        assert forall|i: int, j: int| 0 <= i < j < changed.len() implies (#[trigger] changed[i]).0@
            != (#[trigger] changed[j]).0@ by {
            assert(entries[i].0@ != entries[j].0@);
        }
    }
    let front = entries.drop_last();
    let last = entries.last();
    if at == entries.len() - 1 {
        assert(changed.drop_last() =~= front);
        assert(map_of(changed) =~= map_of(entries).insert(entry.0@, entry.1@));
    } else {
        assert(distinct_names(front)) by {
            assert forall|i: int, j: int| 0 <= i < j < front.len() implies (#[trigger] front[i]).0@
                != (#[trigger] front[j]).0@ by {
                assert(entries[i].0@ != entries[j].0@);
            }
        }
        lemma_map_of_update(front, at, entry);
        assert(changed.drop_last() =~= front.update(at, entry));
        assert(changed.last() == last);
        assert(entries[at].0@ != entries[entries.len() - 1].0@);
        assert(map_of(changed) =~= map_of(entries).insert(entry.0@, entry.1@));
    }
}

/// The contents of a list of named links.
pub open spec fn named_views(entries: Seq<(String, Link)>) -> Seq<(Seq<char>, LinkView)> {
    Seq::new(entries.len(), |i: int| (entries[i].0@, entries[i].1@))
}

/// The first place at or after `from` where `name` stands, or the length of
/// the list when it stands nowhere there.
pub open spec fn index_of_name(
    named: Seq<(Seq<char>, LinkView)>,
    name: Seq<char>,
    from: int,
) -> int
    decreases named.len() - from,
{
    if from < 0 || from >= named.len() {
        named.len() as int
    } else if named[from].0 == name {
        from
    } else {
        index_of_name(named, name, from + 1)
    }
}

/// The list with `link` under `name`: in the place where the name stands,
/// or at the end when the name is new.
pub open spec fn with_link(
    named: Seq<(Seq<char>, LinkView)>,
    name: Seq<char>,
    link: LinkView,
) -> Seq<(Seq<char>, LinkView)> {
    let at = index_of_name(named, name, 0);
    if at < named.len() {
        named.update(at, (name, link))
    } else {
        named.push((name, link))
    }
}

/// A name that stands nowhere from `from` on has the length as its place.
pub proof fn lemma_index_of_absent_name(
    named: Seq<(Seq<char>, LinkView)>,
    name: Seq<char>,
    from: int,
)
    requires
        0 <= from <= named.len(),
        forall|j: int| from <= j < named.len() ==> (#[trigger] named[j]).0 != name,
    ensures
        index_of_name(named, name, from) == named.len(),
    decreases named.len() - from,
{
    if from < named.len() {
        lemma_index_of_absent_name(named, name, from + 1);
    }
}

/// Named relation links. A name occurs at most once; the links keep the
/// order in which their names first came.
#[derive(Debug)]
pub struct LinkMap {
    entries: Vec<(String, Link)>,
}

impl View for LinkMap {
    type V = Map<Seq<char>, LinkView>;

    closed spec fn view(&self) -> Map<Seq<char>, LinkView> {
        map_of(self.entries@)
    }
}

impl LinkMap {
    #[verifier::type_invariant]
    spec fn names_are_distinct(self) -> bool {
        distinct_names(self.entries@)
    }

    /// The named links in their order, for readers that walk the map.
    pub closed spec fn listed(self) -> Seq<(String, Link)> {
        self.entries@
    }

    /// A map without links.
    pub fn new() -> (r: Self)
        ensures
            r@ == Map::<Seq<char>, LinkView>::empty(),
            r.listed().len() == 0,
            named_views(r.listed()) == Seq::<(Seq<char>, LinkView)>::empty(),
    {
        let r = LinkMap { entries: Vec::new() };
        assert(named_views(r.entries@) =~= Seq::<(Seq<char>, LinkView)>::empty());
        r
    }

    fn position(&self, name: &str) -> (r: Option<usize>)
        ensures
            match r {
                Some(at) => {
                    &&& at < self.entries@.len()
                    &&& self.entries@[at as int].0@ == name@
                    &&& at == index_of_name(named_views(self.entries@), name@, 0)
                },
                None => {
                    &&& forall|i: int|
                        0 <= i < self.entries@.len() ==> (#[trigger] self.entries@[i]).0@
                            != name@
                    &&& index_of_name(named_views(self.entries@), name@, 0)
                        == self.entries@.len()
                },
            },
    {
        let ghost named = named_views(self.entries@);
        let mut i: usize = 0;
        while i < self.entries.len()
            invariant
                i <= self.entries@.len(),
                named == named_views(self.entries@),
                forall|j: int| 0 <= j < i ==> (#[trigger] self.entries@[j]).0@ != name@,
                index_of_name(named, name@, 0) == index_of_name(named, name@, i as int),
            decreases self.entries@.len() - i,
        {
            assert(named[i as int].0 == self.entries@[i as int].0@);
            if same_text(self.entries[i].0.as_str(), name) {
                return Some(i);
            }
            i = i + 1;
        }
        None
    }

    /// Puts `link` under `name`: in the place of the link that the name had,
    /// or after the other links when the name is new.
    pub fn insert(&mut self, name: &str, link: Link)
        ensures
            final(self)@ == old(self)@.insert(name@, link@),
            named_views(final(self).listed()) == with_link(
                named_views(old(self).listed()),
                name@,
                link@,
            ),
    {
        proof {
            use_type_invariant(&*self);
        }
        let entry = (String::from_str(name), link);
        let found = self.position(name);
        let mut taken = LinkMap { entries: Vec::new() };
        core::mem::swap(self, &mut taken);
        let mut entries = taken.entries;
        match found {
            Some(at) => {
                proof {
                    lemma_map_of_update(entries@, at as int, entry);
                    assert(named_views(entries@.update(at as int, entry)) =~= with_link(
                        named_views(entries@),
                        name@,
                        link@,
                    ));
                }
                entries.set(at, entry);
            },
            None => {
                proof {
                    let grown = entries@.push(entry);
                    assert(grown.drop_last() =~= entries@);
                    assert(distinct_names(grown)) by {
                        assert forall|i: int, j: int| 0 <= i < j < grown.len() implies (
                        #[trigger] grown[i]).0@ != (#[trigger] grown[j]).0@ by {
                            if j < entries@.len() {
                                assert(entries@[i].0@ != entries@[j].0@);
                            } else {
                                assert(entries@[i].0@ != name@);
                            }
                        }
                    }
                    assert(named_views(grown) =~= with_link(named_views(entries@), name@, link@));
                }
                entries.push(entry);
            },
        }
        *self = LinkMap { entries };
    }

    /// The link under `name`, if there is one.
    pub fn get(&self, name: &str) -> (r: Option<&Link>)
        ensures
            match r {
                Some(link) => self@.contains_key(name@) && self@[name@] == link@,
                None => !self@.contains_key(name@),
            },
    {
        proof {
            use_type_invariant(self);
            lemma_map_of_entries(self.entries@);
        }
        match self.position(name) {
            Some(at) => Some(&self.entries[at].1),
            None => None,
        }
    }

    /// Whether a link stands under `name`.
    pub fn contains_key(&self, name: &str) -> (r: bool)
        ensures
            r == self@.contains_key(name@),
    {
        self.get(name).is_some()
    }

    /// The number of links.
    pub fn len(&self) -> (r: usize)
        ensures
            self@.dom().finite(),
            r == self@.dom().len(),
            r == self.listed().len(),
    {
        proof {
            use_type_invariant(self);
            lemma_map_of_entries(self.entries@);
        }
        self.entries.len()
    }

    /// Whether the map holds no link.
    pub fn is_empty(&self) -> (r: bool)
        ensures
            r == (self@ == Map::<Seq<char>, LinkView>::empty()),
            r == (self.listed().len() == 0),
    {
        proof {
            use_type_invariant(self);
            lemma_map_of_entries(self.entries@);
            if self.entries@.len() > 0 {
                assert(self@.contains_key(self.entries@[0].0@));
            } else {
                assert(self@ =~= Map::<Seq<char>, LinkView>::empty());
            }
        }
        self.entries.len() == 0
    }

    /// The named links in their order: no name twice, and together they
    /// spell out the map.
    pub fn entries(&self) -> (r: &Vec<(String, Link)>)
        ensures
            r@ == self.listed(),
            distinct_names(r@),
            map_of(r@) == self@,
    {
        proof {
            use_type_invariant(self);
        }
        &self.entries
    }
}

impl Clone for LinkMap {
    fn clone(&self) -> (r: Self)
        ensures
            r@ == self@,
            named_views(r.listed()) == named_views(self.listed()),
    {
        let mut out = LinkMap::new();
        let mut i: usize = 0;
        proof {
            use_type_invariant(self);
            assert(named_views(out.listed()) =~= named_views(self.entries@.take(0)));
        }
        while i < self.entries.len()
            invariant
                i <= self.entries@.len(),
                distinct_names(self.entries@),
                out@ == map_of(self.entries@.take(i as int)),
                named_views(out.listed()) == named_views(self.entries@.take(i as int)),
            decreases self.entries@.len() - i,
        {
            proof {
                let done = self.entries@.take(i as int);
                let next = self.entries@.take(i + 1);
                let entry = self.entries@[i as int];
                assert(next.drop_last() =~= done);
                assert(next.last() == entry);
                assert forall|j: int| 0 <= j < done.len() implies (#[trigger] named_views(
                    done,
                )[j]).0 != entry.0@ by {
                    assert(self.entries@[j].0@ != self.entries@[i as int].0@);
                }
                lemma_index_of_absent_name(named_views(done), entry.0@, 0);
                assert(named_views(next) =~= named_views(done).push((entry.0@, entry.1@)));
            }
            out.insert(self.entries[i].0.as_str(), self.entries[i].1.clone());
            i = i + 1;
        }
        assert(self.entries@.take(self.entries@.len() as int) =~= self.entries@);
        out
    }
}

} // verus!
