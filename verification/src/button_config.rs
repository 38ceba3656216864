use vstd::prelude::*;

verus! {

/// How a panel button is forced to present itself, overriding the default
/// presentation of its page.
#[derive(Clone, Copy, PartialEq, Eq, Structural, Debug)]
pub enum Override {
    Icon,
    Text,
}

/// The presentation override recorded for one page.
#[derive(Clone, Copy, PartialEq, Eq, Debug)]
pub struct IndividualConfig {
    pub force_presentation: Option<Override>,
}

/// One page's entry of the override map, at the specification level: the
/// page name and the presentation forced for it.
#[verifier::ext_equal]
pub ghost struct OverrideEntry {
    pub name: Seq<char>,
    pub force: Option<Override>,
}

/// The per-page button-presentation override map. The underlying store keys
/// overrides by page name; it is mirrored here as a list of pairs.
pub struct CosmicPanelButtonConfig {
    pub configs: Vec<(String, IndividualConfig)>,
}

/// The specification-level reading of one stored pair.
pub open spec fn pair_view(p: (String, IndividualConfig)) -> OverrideEntry {
    OverrideEntry { name: p.0@, force: p.1.force_presentation }
}

/// The page names of an override list, in list order.
pub open spec fn names_of(entries: Seq<OverrideEntry>) -> Seq<Seq<char>> {
    Seq::new(entries.len(), |i: int| entries[i].name)
}

/// Whether some entry of the list is keyed by `name`.
pub open spec fn has_entry(entries: Seq<OverrideEntry>, name: Seq<char>) -> bool {
    names_of(entries).contains(name)
}

/// Whether the entry for `name` forces icon presentation. As in the store,
/// the first entry carrying the name decides.
pub open spec fn icon_forced(entries: Seq<OverrideEntry>, name: Seq<char>) -> bool {
    match names_of(entries).index_of_first(name) {
        Some(i) => entries[i].force == Some(Override::Icon),
        None => false,
    }
}

/// No two entries of the list share a page name.
pub open spec fn unique_names(entries: Seq<OverrideEntry>) -> bool {
    forall|i: int, j: int|
        0 <= i < j < entries.len() ==> entries[i].name != entries[j].name
}

/// The list after forcing icon presentation for `name`: the entries keyed by
/// `name` are replaced, or a fresh entry is appended when none carries it.
pub open spec fn entries_with_icon(entries: Seq<OverrideEntry>, name: Seq<char>) -> Seq<
    OverrideEntry,
> {
    if has_entry(entries, name) {
        Seq::new(
            entries.len(),
            |i: int|
                if entries[i].name == name {
                    OverrideEntry { name, force: Some(Override::Icon) }
                } else {
                    entries[i]
                },
        )
    } else {
        entries.push(OverrideEntry { name, force: Some(Override::Icon) })
    }
}

/// The list after dropping the first entry keyed by `name`; without one, the
/// list is unchanged.
pub open spec fn entries_without(entries: Seq<OverrideEntry>, name: Seq<char>) -> Seq<
    OverrideEntry,
> {
    match names_of(entries).index_of_first(name) {
        Some(i) => entries.remove(i),
        None => entries,
    }
}

/// A first-match scan and `index_of_first` on the name sequence agree.
pub proof fn lemma_first_match_is_index_of_first(names: Seq<Seq<char>>, name: Seq<char>, i: int)
    requires
        0 <= i < names.len(),
        names[i] == name,
        forall|j: int| 0 <= j < i ==> names[j] != name,
    ensures
        names.index_of_first(name) == Some(i),
{
    names.index_of_first_ensures(name);
    assert(names.contains(name));
}

/// A scan that matches nothing and `index_of_first` agree.
pub proof fn lemma_no_match_no_index(names: Seq<Seq<char>>, name: Seq<char>)
    requires
        forall|j: int| 0 <= j < names.len() ==> names[j] != name,
    ensures
        names.index_of_first(name) is None,
{
    names.index_of_first_ensures(name);
    assert(!names.contains(name));
}

impl CosmicPanelButtonConfig {
    /// The override map as the specification sees it.
    pub open spec fn entries_view(&self) -> Seq<OverrideEntry> {
        Seq::new(self.configs@.len(), |i: int| pair_view(self.configs@[i]))
    }

    /// Position of the first stored pair keyed by `name`.
    fn find(&self, name: &String) -> (r: Option<usize>)
        ensures
            match r {
                Some(i) => {
                    &&& i < self.configs@.len()
                    &&& self.configs@[i as int].0@ == name@
                    &&& forall|j: int| 0 <= j < i ==> self.configs@[j].0@ != name@
                },
                None => forall|j: int| 0 <= j < self.configs@.len() ==> self.configs@[j].0@ != name@,
            },
    {
        let mut i: usize = 0;
        while i < self.configs.len()
            invariant
                i <= self.configs@.len(),
                forall|j: int| 0 <= j < i ==> self.configs@[j].0@ != name@,
            decreases self.configs@.len() - i,
        {
            if self.configs[i].0 == *name {
                return Some(i);
            }
            i = i + 1;
        }
        None
    }

    /// Whether the map forces icon presentation for `name`.
    pub fn icon_forced_for(&self, name: &String) -> (r: bool)
        ensures
            r == icon_forced(self.entries_view(), name@),
    {
        match self.find(name) {
            Some(i) => {
                proof {
                    lemma_first_match_is_index_of_first(
                        names_of(self.entries_view()),
                        name@,
                        i as int,
                    );
                }
                match self.configs[i].1.force_presentation {
                    Some(Override::Icon) => true,
                    _ => false,
                }
            },
            None => {
                proof {
                    lemma_no_match_no_index(names_of(self.entries_view()), name@);
                }
                false
            },
        }
    }

    /// A copy of the map in which icon presentation is forced for `name`:
    /// its entry is replaced when present and appended when absent.
    pub fn with_icon_override(&self, name: &String) -> (r: CosmicPanelButtonConfig)
        ensures
            r.entries_view() == entries_with_icon(self.entries_view(), name@),
    {
        let mut out: Vec<(String, IndividualConfig)> = Vec::new();
        let mut found = false;
        let mut i: usize = 0;
        while i < self.configs.len()
            invariant
                i <= self.configs@.len(),
                out@.len() == i,
                found == exists|j: int| 0 <= j < i && self.configs@[j].0@ == name@,
                forall|j: int|
                    0 <= j < i ==> pair_view(#[trigger] out@[j]) == (
                    if self.configs@[j].0@ == name@ {
                        OverrideEntry { name: name@, force: Some(Override::Icon) }
                    } else {
                        pair_view(self.configs@[j])
                    }),
            decreases self.configs@.len() - i,
        {
            let p = &self.configs[i];
            if p.0 == *name {
                out.push((p.0.clone(), IndividualConfig { force_presentation: Some(Override::Icon) }));
                found = true;
            } else {
                out.push((p.0.clone(), p.1));
            }
            i = i + 1;
        }
        if !found {
            out.push((name.clone(), IndividualConfig { force_presentation: Some(Override::Icon) }));
        }
        let r = CosmicPanelButtonConfig { configs: out };
        proof {
            let entries = self.entries_view();
            assert(forall|j: int|
                0 <= j < entries.len() ==> names_of(entries)[j] == entries[j].name);
            if found {
                let j = choose|j: int|
                    0 <= j < self.configs@.len() && self.configs@[j].0@ == name@;
                assert(names_of(entries)[j] == name@);
                assert(has_entry(entries, name@));
            } else {
                assert(forall|j: int|
                    0 <= j < names_of(entries).len() ==> names_of(entries)[j] != name@);
                assert(!has_entry(entries, name@));
            }
            assert(r.entries_view() =~= entries_with_icon(entries, name@));
        }
        r
    }

    /// A copy of the map from which the entry for `name` is dropped
    /// entirely; a map without one is copied unchanged.
    pub fn without_override(&self, name: &String) -> (r: CosmicPanelButtonConfig)
        ensures
            r.entries_view() == entries_without(self.entries_view(), name@),
    {
        let mut out: Vec<(String, IndividualConfig)> = Vec::new();
        let mut i: usize = 0;
        while i < self.configs.len()
            invariant
                i <= self.configs@.len(),
                out@.len() == i,
                forall|j: int| 0 <= j < i ==> out@[j] == self.configs@[j],
            decreases self.configs@.len() - i,
        {
            let p = &self.configs[i];
            out.push((p.0.clone(), p.1));
            i = i + 1;
        }
        assert(out@ =~= self.configs@);
        match self.find(name) {
            Some(i) => {
                proof {
                    lemma_first_match_is_index_of_first(
                        names_of(self.entries_view()),
                        name@,
                        i as int,
                    );
                }
                out.remove(i);
                let r = CosmicPanelButtonConfig { configs: out };
                proof {
                    assert(r.entries_view() =~= self.entries_view().remove(i as int));
                }
                r
            },
            None => {
                proof {
                    lemma_no_match_no_index(names_of(self.entries_view()), name@);
                }
                let r = CosmicPanelButtonConfig { configs: out };
                proof {
                    assert(r.entries_view() =~= self.entries_view());
                }
                r
            },
        }
    }
}

impl Default for CosmicPanelButtonConfig {
    /// The state a failed load of the override store falls back to: an
    /// empty map.
    fn default() -> (r: CosmicPanelButtonConfig)
        ensures
            r.entries_view() == Seq::<OverrideEntry>::empty(),
    {
        let r = CosmicPanelButtonConfig { configs: Vec::new() };
        proof {
            assert(r.entries_view() =~= Seq::<OverrideEntry>::empty());
        }
        r
    }
}

} // verus!
