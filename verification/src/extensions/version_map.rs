//! The map from platform keys to versions.

use crate::text::{optional_text, same_optional_text, same_text};
use vstd::prelude::*;

verus! {

/// A platform key as contracts see it: the platform's name, or `None` for the
/// platform-agnostic release.
pub type PlatformKey = Option<Seq<char>>;

/// The latest published version for each platform key.
///
/// Behaves as a map from an optional platform name to a version string; no
/// key occurs twice.
#[derive(Debug)]
pub struct VersionMap {
    entries: Vec<(Option<String>, String)>,
}

/// The map that a list of entries stands for.
pub open spec fn map_of(entries: Seq<(Option<String>, String)>) -> Map<PlatformKey, Seq<char>>
    decreases entries.len(),
{
    if entries.len() == 0 {
        Map::empty()
    } else {
        map_of(entries.drop_last()).insert(optional_text(entries.last().0), entries.last().1@)
    }
}

/// No two entries share a key.
pub open spec fn distinct_keys(entries: Seq<(Option<String>, String)>) -> bool {
    forall|i: int, j: int|
        0 <= i < j < entries.len() ==> optional_text(#[trigger] entries[i].0) != optional_text(
            #[trigger] entries[j].0,
        )
}

proof fn lemma_map_of_keys(entries: Seq<(Option<String>, String)>, key: PlatformKey)
    ensures
        map_of(entries).contains_key(key) <==> exists|i: int|
            0 <= i < entries.len() && optional_text(#[trigger] entries[i].0) == key,
    decreases entries.len(),
{
    if entries.len() > 0 {
        let front = entries.drop_last();
        lemma_map_of_keys(front, key);
        if map_of(entries).contains_key(key) {
            if optional_text(entries.last().0) == key {
                assert(optional_text(entries[entries.len() - 1].0) == key);
            } else {
                let i = choose|i: int|
                    0 <= i < front.len() && optional_text(#[trigger] front[i].0) == key;
                assert(optional_text(entries[i].0) == key);
            }
        }
        if exists|i: int| 0 <= i < entries.len() && optional_text(#[trigger] entries[i].0) == key {
            let i = choose|i: int|
                0 <= i < entries.len() && optional_text(#[trigger] entries[i].0) == key;
            if i < front.len() {
                assert(optional_text(front[i].0) == key);
            }
        }
    }
}

proof fn lemma_map_of_value(entries: Seq<(Option<String>, String)>, i: int)
    requires
        distinct_keys(entries),
        0 <= i < entries.len(),
    ensures
        map_of(entries).contains_key(optional_text(entries[i].0)),
        map_of(entries)[optional_text(entries[i].0)] == entries[i].1@,
    decreases entries.len(),
{
    let front = entries.drop_last();
    if i < entries.len() - 1 {
        assert(distinct_keys(front)) by {
            assert forall|a: int, b: int| 0 <= a < b < front.len() implies optional_text(
                #[trigger] front[a].0,
            ) != optional_text(#[trigger] front[b].0) by {
                assert(front[a] == entries[a]);
                assert(front[b] == entries[b]);
            }
        }
        lemma_map_of_value(front, i);
        assert(front[i] == entries[i]);
        assert(optional_text(entries[i].0) != optional_text(entries[entries.len() - 1].0));
    }
}

proof fn lemma_map_of_replace(
    entries: Seq<(Option<String>, String)>,
    i: int,
    entry: (Option<String>, String),
)
    requires
        distinct_keys(entries),
        0 <= i < entries.len(),
        optional_text(entry.0) == optional_text(entries[i].0),
    ensures
        distinct_keys(entries.update(i, entry)),
        map_of(entries.update(i, entry)) == map_of(entries).insert(
            optional_text(entry.0),
            entry.1@,
        ),
{
    let after = entries.update(i, entry);
    assert(distinct_keys(after)) by {
        assert forall|a: int, b: int| 0 <= a < b < after.len() implies optional_text(
            #[trigger] after[a].0,
        ) != optional_text(#[trigger] after[b].0) by {
            assert(optional_text(after[a].0) == optional_text(entries[a].0));
            assert(optional_text(after[b].0) == optional_text(entries[b].0));
        }
    }
    let expected = map_of(entries).insert(optional_text(entry.0), entry.1@);
    assert forall|key: PlatformKey| map_of(after).contains_key(key) == expected.contains_key(
        key,
    ) by {
        lemma_map_of_keys(after, key);
        lemma_map_of_keys(entries, key);
        if map_of(after).contains_key(key) {
            let j = choose|j: int|
                0 <= j < after.len() && optional_text(#[trigger] after[j].0) == key;
            assert(optional_text(entries[j].0) == key);
        }
        if map_of(entries).contains_key(key) {
            let j = choose|j: int|
                0 <= j < entries.len() && optional_text(#[trigger] entries[j].0) == key;
            assert(optional_text(after[j].0) == key);
        }
        if key == optional_text(entry.0) {
            assert(optional_text(after[i].0) == key);
        }
    }
    assert forall|key: PlatformKey| map_of(after).contains_key(key) implies map_of(after)[key]
        == expected[key] by {
        lemma_map_of_keys(after, key);
        let j = choose|j: int| 0 <= j < after.len() && optional_text(#[trigger] after[j].0) == key;
        lemma_map_of_value(after, j);
        if j != i {
            lemma_map_of_value(entries, j);
            assert(after[j] == entries[j]);
            assert(optional_text(entries[j].0) != optional_text(entries[i].0));
        }
    }
    assert(map_of(after) =~= expected);
}

proof fn lemma_map_of_len(entries: Seq<(Option<String>, String)>)
    requires
        distinct_keys(entries),
    ensures
        map_of(entries).dom().finite(),
        map_of(entries).dom().len() == entries.len(),
    decreases entries.len(),
{
    if entries.len() > 0 {
        let front = entries.drop_last();
        assert(distinct_keys(front)) by {
            assert forall|a: int, b: int| 0 <= a < b < front.len() implies optional_text(
                #[trigger] front[a].0,
            ) != optional_text(#[trigger] front[b].0) by {
                assert(front[a] == entries[a]);
                assert(front[b] == entries[b]);
            }
        }
        lemma_map_of_len(front);
        let key = optional_text(entries.last().0);
        lemma_map_of_keys(front, key);
        if map_of(front).contains_key(key) {
            let i = choose|i: int|
                0 <= i < front.len() && optional_text(#[trigger] front[i].0) == key;
            assert(front[i] == entries[i]);
            assert(optional_text(entries[i].0) != optional_text(entries[entries.len() - 1].0));
        }
        assert(map_of(entries).dom() =~= map_of(front).dom().insert(key));
    }
}

impl View for VersionMap {
    type V = Map<PlatformKey, Seq<char>>;

    closed spec fn view(&self) -> Map<PlatformKey, Seq<char>> {
        map_of(self.entries@)
    }
}

impl Clone for VersionMap {
    fn clone(&self) -> (copy: Self)
        ensures
            copy@ == self@,
    {
        proof {
            use_type_invariant(self);
        }
        let mut entries: Vec<(Option<String>, String)> = Vec::new();
        let mut i: usize = 0;
        while i < self.entries.len()
            invariant
                i <= self.entries@.len(),
                entries@ == self.entries@.take(i as int),
            decreases self.entries@.len() - i,
        {
            let platform = match &self.entries[i].0 {
                Some(name) => Some(name.clone()),
                None => None,
            };
            entries.push((platform, self.entries[i].1.clone()));
            proof {
                assert(self.entries@.take(i + 1) =~= self.entries@.take(i as int).push(
                    self.entries@[i as int],
                ));
            }
            i += 1;
        }
        proof {
            assert(self.entries@.take(i as int) =~= self.entries@);
        }
        VersionMap { entries }
    }
}

impl PartialEq for VersionMap {
    fn eq(&self, other: &Self) -> (same: bool) {
        if self.len() != other.len() {
            return false;
        }
        let mut i: usize = 0;
        while i < self.entries.len()
            invariant
                i <= self.entries@.len(),
                self@.dom().finite(),
                other@.dom().finite(),
                self@.dom().len() == other@.dom().len(),
                forall|j: int|
                    0 <= j < i ==> other@.contains_key(
                        optional_text(#[trigger] self.entries@[j].0),
                    ) && other@[optional_text(self.entries@[j].0)] == self.entries@[j].1@,
            decreases self.entries@.len() - i,
        {
            proof {
                use_type_invariant(self);
                lemma_map_of_value(self.entries@, i as int);
            }
            let matches = match other.get(&self.entries[i].0) {
                Some(version) => same_text(version.as_str(), self.entries[i].1.as_str()),
                None => false,
            };
            if !matches {
                return false;
            }
            i += 1;
        }
        proof {
            use_type_invariant(self);
            assert forall|key: PlatformKey| #[trigger]
                self@.dom().contains(key) implies other@.dom().contains(key) && other@[key]
                == self@[key] by {
                lemma_map_of_keys(self.entries@, key);
                let j = choose|j: int|
                    0 <= j < self.entries@.len() && optional_text(#[trigger] self.entries@[j].0)
                        == key;
                lemma_map_of_value(self.entries@, j);
            }
            vstd::set_lib::lemma_subset_equality(self@.dom(), other@.dom());
            assert(self@ =~= other@);
        }
        true
    }
}

impl vstd::std_specs::cmp::PartialEqSpecImpl for VersionMap {
    open spec fn obeys_eq_spec() -> bool {
        true
    }

    open spec fn eq_spec(&self, other: &Self) -> bool {
        self@ == other@
    }
}

impl VersionMap {
    #[verifier::type_invariant]
    spec fn well_formed(self) -> bool {
        distinct_keys(self.entries@)
    }

    /// Position of the entry for `platform`, if there is one.
    fn position(&self, platform: &Option<String>) -> (found: Option<usize>)
        ensures
            match found {
                Some(i) => i < self.entries@.len() && optional_text(self.entries@[i as int].0)
                    == optional_text(*platform),
                None => !self@.contains_key(optional_text(*platform)),
            },
    {
        let mut i: usize = 0;
        while i < self.entries.len()
            invariant
                i <= self.entries@.len(),
                forall|j: int|
                    0 <= j < i ==> optional_text(#[trigger] self.entries@[j].0) != optional_text(
                        *platform,
                    ),
            decreases self.entries@.len() - i,
        {
            if same_optional_text(&self.entries[i].0, platform) {
                return Some(i);
            }
            i += 1;
        }
        proof {
            lemma_map_of_keys(self.entries@, optional_text(*platform));
        }
        None
    }

    /// An empty map.
    pub fn new() -> (map: Self)
        ensures
            map@ == Map::<PlatformKey, Seq<char>>::empty(),
    {
        VersionMap { entries: Vec::new() }
    }

    /// Records `version` for `platform`, and gives back the version it
    /// replaces.
    pub fn insert(&mut self, platform: Option<String>, version: String) -> (previous: Option<
        String,
    >)
        ensures
            final(self)@ == old(self)@.insert(optional_text(platform), version@),
            optional_text(previous) == if old(self)@.contains_key(optional_text(platform)) {
                Some(old(self)@[optional_text(platform)])
            } else {
                None
            },
    {
        proof {
            use_type_invariant(&*self);
        }
        let found = self.position(&platform);
        let mut entries: Vec<(Option<String>, String)> = Vec::new();
        std::mem::swap(&mut entries, &mut self.entries);
        let ghost before = entries@;
        let previous = match found {
            Some(i) => {
                let replaced = entries.remove(i);
                entries.insert(i, (platform, version));
                proof {
                    assert(entries@ =~= before.update(i as int, (platform, version)));
                    lemma_map_of_replace(before, i as int, (platform, version));
                    lemma_map_of_value(before, i as int);
                }
                Some(replaced.1)
            },
            None => {
                entries.push((platform, version));
                proof {
                    assert(entries@.drop_last() =~= before);
                    assert forall|a: int, b: int| 0 <= a < b < entries@.len() implies optional_text(
                        #[trigger] entries@[a].0,
                    ) != optional_text(#[trigger] entries@[b].0) by {
                        lemma_map_of_keys(before, optional_text(platform));
                        assert(entries@[a] == before[a]);
                        if b < before.len() {
                            assert(entries@[b] == before[b]);
                        }
                    }
                }
                None
            },
        };
        self.entries = entries;
        previous
    }

    /// For how many platform keys a version is recorded.
    pub fn len(&self) -> (count: usize)
        ensures
            self@.dom().finite(),
            count == self@.dom().len(),
    {
        proof {
            use_type_invariant(self);
            lemma_map_of_len(self.entries@);
        }
        self.entries.len()
    }

    /// What is recorded, one entry for each platform key, in no particular
    /// order.
    pub fn entries(&self) -> (listed: Vec<(Option<String>, String)>)
        ensures
            distinct_keys(listed@),
            map_of(listed@) == self@,
    {
        proof {
            use_type_invariant(self);
        }
        let copy = self.clone();
        proof {
            use_type_invariant(&copy);
        }
        copy.entries
    }

    /// Whether no version is recorded at all.
    pub fn is_empty(&self) -> (empty: bool)
        ensures
            empty == (self@ == Map::<PlatformKey, Seq<char>>::empty()),
    {
        proof {
            if self.entries@.len() > 0 {
                lemma_map_of_keys(self.entries@, optional_text(self.entries@[0].0));
            }
        }
        self.entries.is_empty()
    }

    /// Whether a version is recorded for `platform`.
    pub fn contains_key(&self, platform: &Option<String>) -> (found: bool)
        ensures
            found == self@.contains_key(optional_text(*platform)),
    {
        proof {
            use_type_invariant(self);
            lemma_map_of_keys(self.entries@, optional_text(*platform));
        }
        self.position(platform).is_some()
    }

    /// The version recorded for `platform`.
    pub fn get(&self, platform: &Option<String>) -> (version: Option<&String>)
        ensures
            match version {
                Some(text) => self@.contains_key(optional_text(*platform)) && text@
                    == self@[optional_text(*platform)],
                None => !self@.contains_key(optional_text(*platform)),
            },
    {
        proof {
            use_type_invariant(self);
        }
        match self.position(platform) {
            Some(i) => {
                proof {
                    lemma_map_of_value(self.entries@, i as int);
                }
                Some(&self.entries[i].1)
            },
            None => None,
        }
    }
}

} // verus!
