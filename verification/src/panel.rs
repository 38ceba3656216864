use crate::button_config::{
    entries_with_icon, entries_without, has_entry, icon_forced, lemma_first_match_is_index_of_first,
    lemma_no_match_no_index, names_of, unique_names, CosmicPanelButtonConfig, Override,
    OverrideEntry,
};
use crate::message::TweakMessage;
use crate::panel_config::{accept_geometry, geometry_named, PanelGeometry};
use vstd::prelude::*;

verus! {

/// The membership list of the shared panel store: the names of the panels
/// that are currently active, in order.
pub struct CosmicPanel {
    pub entries: Vec<String>,
}

/// The character sequences of a list of strings, in list order.
pub open spec fn string_views(entries: Seq<String>) -> Seq<Seq<char>> {
    Seq::new(entries.len(), |i: int| entries[i]@)
}

impl CosmicPanel {
    /// The membership list as the specification sees it.
    pub open spec fn names(&self) -> Seq<Seq<char>> {
        string_views(self.entries@)
    }
}

impl Default for CosmicPanel {
    /// The state a failed load of the membership store falls back to: an
    /// empty list.
    fn default() -> (r: CosmicPanel)
        ensures
            r.names() == Seq::<Seq<char>>::empty(),
    {
        let r = CosmicPanel { entries: Vec::new() };
        proof {
            assert(r.names() =~= Seq::<Seq<char>>::empty());
        }
        r
    }
}

/// Position of the first list entry that equals `name`.
fn find_name(entries: &Vec<String>, name: &String) -> (r: Option<usize>)
    ensures
        match r {
            Some(i) => {
                &&& i < entries@.len()
                &&& entries@[i as int]@ == name@
                &&& forall|j: int| 0 <= j < i ==> entries@[j]@ != name@
            },
            None => forall|j: int| 0 <= j < entries@.len() ==> entries@[j]@ != name@,
        },
{
    let mut i: usize = 0;
    while i < entries.len()
        invariant
            i <= entries@.len(),
            forall|j: int| 0 <= j < i ==> entries@[j]@ != name@,
        decreases entries@.len() - i,
    {
        if entries[i] == *name {
            return Some(i);
        }
        i = i + 1;
    }
    None
}

/// An element-wise copy of a list of strings.
fn cloned_strings(entries: &Vec<String>) -> (r: Vec<String>)
    ensures
        r@ == entries@,
{
    let mut out: Vec<String> = Vec::new();
    let mut i: usize = 0;
    while i < entries.len()
        invariant
            i <= entries@.len(),
            out@.len() == i,
            forall|j: int| 0 <= j < i ==> out@[j] == entries@[j],
        decreases entries@.len() - i,
    {
        out.push(entries[i].clone());
        i = i + 1;
    }
    assert(out@ =~= entries@);
    out
}

/// A store write that the panel page asks its caller to perform: the new
/// value for one field of one of the page's configuration stores.
pub enum PanelWrite {
    Padding(u32),
    Spacing(u32),
    Entries(Vec<String>),
    Overrides(CosmicPanelButtonConfig),
}

/// A requested store write, at the specification level.
#[verifier::ext_equal]
pub ghost enum PanelWriteV {
    Padding(u32),
    Spacing(u32),
    Entries(Seq<Seq<char>>),
    Overrides(Seq<OverrideEntry>),
}

impl View for PanelWrite {
    type V = PanelWriteV;

    open spec fn view(&self) -> PanelWriteV {
        match self {
            PanelWrite::Padding(p) => PanelWriteV::Padding(*p),
            PanelWrite::Spacing(s) => PanelWriteV::Spacing(*s),
            PanelWrite::Entries(es) => PanelWriteV::Entries(string_views(es@)),
            PanelWrite::Overrides(c) => PanelWriteV::Overrides(c.entries_view()),
        }
    }
}

/// The view of a write request that may be absent.
pub open spec fn write_views(w: Option<PanelWrite>) -> Option<PanelWriteV> {
    match w {
        Some(x) => Some(x@),
        None => None,
    }
}

/// State of the panel page, at the specification level. The geometry pair
/// holds the padding and spacing mirrored from the panel's geometry store.
#[verifier::ext_equal]
pub ghost struct PanelV {
    pub has_panel_helper: bool,
    pub geometry: Option<(u32, u32)>,
    pub padding: u32,
    pub spacing: u32,
    pub show_panel: bool,
    pub entries: Seq<Seq<char>>,
    pub has_entries_helper: bool,
    pub overrides: Seq<OverrideEntry>,
    pub has_overrides_helper: bool,
    pub force_icons: bool,
}

/// State of the panel page: handles to three stores (each present or not),
/// the values mirrored from them, and the cached scalar fields the page's
/// controls are bound to.
pub struct Panel {
    pub has_panel_helper: bool,
    pub panel_config: Option<PanelGeometry>,
    pub padding: u32,
    pub spacing: u32,
    pub show_panel: bool,
    pub cosmic_panel_config: CosmicPanel,
    pub has_cosmic_panel_config_helper: bool,
    pub cosmic_panel_button_config: CosmicPanelButtonConfig,
    pub has_cosmic_panel_button_config_helper: bool,
    pub force_icons: bool,
}

impl View for Panel {
    type V = PanelV;

    open spec fn view(&self) -> PanelV {
        PanelV {
            has_panel_helper: self.has_panel_helper,
            geometry: match self.panel_config {
                Some(g) => Some((g.padding, g.spacing)),
                None => None,
            },
            padding: self.padding,
            spacing: self.spacing,
            show_panel: self.show_panel,
            entries: self.cosmic_panel_config.names(),
            has_entries_helper: self.has_cosmic_panel_config_helper,
            overrides: self.cosmic_panel_button_config.entries_view(),
            has_overrides_helper: self.has_cosmic_panel_button_config_helper,
            force_icons: self.force_icons,
        }
    }
}

/// Whether a message addresses one of the panel page's own fields.
pub open spec fn panel_message(msg: TweakMessage) -> bool {
    ||| msg is ShowPanel
    ||| msg is ForceIcons
    ||| msg is SetPanelPadding
    ||| msg is SetPanelSpacing
}

/// What one message does to the panel page: the state after the message is
/// handled, and the store write the page asks for, if any. Without both the
/// geometry store handle and a loaded geometry entry every message falls
/// through. A cached flag is not touched here: it changes only once the
/// matching write is committed as successful.
pub open spec fn step(pre: PanelV, msg: TweakMessage) -> (PanelV, Option<PanelWriteV>) {
    if !pre.has_panel_helper || pre.geometry is None {
        (pre, None)
    } else {
        match msg {
            TweakMessage::SetPanelPadding(p) => (
                PanelV { padding: p, ..pre },
                Some(PanelWriteV::Padding(p)),
            ),
            TweakMessage::SetPanelSpacing(s) => (
                PanelV { spacing: s, ..pre },
                Some(PanelWriteV::Spacing(s)),
            ),
            TweakMessage::ForceIcons(force) => {
                if pre.has_overrides_helper {
                    let target = if force {
                        entries_with_icon(pre.overrides, "Panel"@)
                    } else {
                        entries_without(pre.overrides, "Panel"@)
                    };
                    (pre, Some(PanelWriteV::Overrides(target)))
                } else {
                    (pre, None)
                }
            },
            TweakMessage::ShowPanel(show) => {
                if show {
                    if !pre.entries.contains("Panel"@) && pre.has_entries_helper {
                        (pre, Some(PanelWriteV::Entries(pre.entries.push("Panel"@))))
                    } else {
                        (pre, None)
                    }
                } else {
                    match pre.entries.index_of_first("Panel"@) {
                        Some(i) => if pre.has_entries_helper {
                            (pre, Some(PanelWriteV::Entries(pre.entries.remove(i))))
                        } else {
                            (pre, None)
                        },
                        None => (pre, None),
                    }
                }
            },
            _ => (pre, None),
        }
    }
}

/// What committing a store write's outcome does to the panel page. A failed
/// write changes nothing, so a cached field set before the write keeps its
/// new value and may diverge from the store. A successful write installs
/// the written value and recomputes the flag that mirrors it.
pub open spec fn commit(pre: PanelV, w: PanelWriteV, ok: bool) -> PanelV {
    if !ok {
        pre
    } else {
        match w {
            PanelWriteV::Padding(p) => PanelV {
                geometry: match pre.geometry {
                    Some(g) => Some((p, g.1)),
                    None => None,
                },
                ..pre
            },
            PanelWriteV::Spacing(s) => PanelV {
                geometry: match pre.geometry {
                    Some(g) => Some((g.0, s)),
                    None => None,
                },
                ..pre
            },
            PanelWriteV::Entries(es) => PanelV {
                entries: es,
                show_panel: es.contains("Panel"@),
                ..pre
            },
            PanelWriteV::Overrides(os) => PanelV {
                overrides: os,
                force_icons: icon_forced(os, "Panel"@),
                ..pre
            },
        }
    }
}

impl Panel {
    /// State hydrated from the page's three stores. A store that failed to
    /// open contributes its empty default, and a geometry entry that is not
    /// the panel's own is discarded, so every cached field starts at the
    /// loaded value or at zero and false.
    pub fn new(
        has_panel_helper: bool,
        panel_entry: Option<PanelGeometry>,
        membership: Option<CosmicPanel>,
        overrides: Option<CosmicPanelButtonConfig>,
    ) -> (panel: Panel)
        ensures
            panel.has_panel_helper == has_panel_helper,
            panel.panel_config == (if geometry_named(panel_entry, "Panel"@) {
                panel_entry
            } else {
                None::<PanelGeometry>
            }),
            panel.padding == (if geometry_named(panel_entry, "Panel"@) {
                panel_entry->0.padding
            } else {
                0u32
            }),
            panel.spacing == (if geometry_named(panel_entry, "Panel"@) {
                panel_entry->0.spacing
            } else {
                0u32
            }),
            panel.has_cosmic_panel_config_helper == (membership is Some),
            panel@.entries == (match membership {
                Some(m) => m.names(),
                None => Seq::<Seq<char>>::empty(),
            }),
            membership matches Some(m) ==> panel.cosmic_panel_config == m,
            panel.show_panel == panel@.entries.contains("Panel"@),
            panel.has_cosmic_panel_button_config_helper == (overrides is Some),
            panel@.overrides == (match overrides {
                Some(o) => o.entries_view(),
                None => Seq::<OverrideEntry>::empty(),
            }),
            overrides matches Some(o) ==> panel.cosmic_panel_button_config == o,
            panel.force_icons == icon_forced(panel@.overrides, "Panel"@),
            membership is None ==> !panel.show_panel,
            overrides is None ==> !panel.force_icons,
            flags_mirror_stores(panel@),
    {
        let panel_name: String = "Panel".to_owned();
        let panel_config = accept_geometry(panel_entry, &panel_name);
        let (padding, spacing) = match &panel_config {
            Some(g) => (g.padding, g.spacing),
            None => (0u32, 0u32),
        };
        let (has_cosmic_panel_config_helper, cosmic_panel_config) = match membership {
            Some(m) => (true, m),
            None => (false, CosmicPanel::default()),
        };
        let show_panel = match find_name(&cosmic_panel_config.entries, &panel_name) {
            Some(i) => {
                proof {
                    assert(cosmic_panel_config.names()[i as int] == "Panel"@);
                }
                true
            },
            None => {
                proof {
                    assert(forall|j: int|
                        0 <= j < cosmic_panel_config.names().len()
                            ==> cosmic_panel_config.names()[j] != "Panel"@);
                }
                false
            },
        };
        let (has_cosmic_panel_button_config_helper, cosmic_panel_button_config) = match overrides {
            Some(o) => (true, o),
            None => (false, CosmicPanelButtonConfig::default()),
        };
        let force_icons = cosmic_panel_button_config.icon_forced_for(&panel_name);
        proof {
            if !has_cosmic_panel_button_config_helper {
                lemma_no_match_no_index(
                    names_of(cosmic_panel_button_config.entries_view()),
                    "Panel"@,
                );
            }
        }
        Panel {
            has_panel_helper,
            panel_config,
            padding,
            spacing,
            show_panel,
            cosmic_panel_config,
            has_cosmic_panel_config_helper,
            cosmic_panel_button_config,
            has_cosmic_panel_button_config_helper,
            force_icons,
        }
    }

    /// Handle one interaction message: update the cached fields the message
    /// addresses and return the store write the caller must perform, if
    /// any. The outcome of that write is handed back via `apply_write`.
    pub fn update(&mut self, message: TweakMessage) -> (write: Option<PanelWrite>)
        ensures
            ({
                let (post, w) = step(old(self)@, message);
                &&& final(self)@ == post
                &&& write_views(write) == w
            }),
    {
        if !self.has_panel_helper {
            return None;
        }
        if self.panel_config.is_none() {
            return None;
        }
        let panel_name: String = "Panel".to_owned();
        match message {
            TweakMessage::SetPanelPadding(p) => {
                self.padding = p;
                Some(PanelWrite::Padding(p))
            },
            TweakMessage::SetPanelSpacing(s) => {
                self.spacing = s;
                Some(PanelWrite::Spacing(s))
            },
            TweakMessage::ForceIcons(force) => {
                if self.has_cosmic_panel_button_config_helper {
                    let target = if force {
                        self.cosmic_panel_button_config.with_icon_override(&panel_name)
                    } else {
                        self.cosmic_panel_button_config.without_override(&panel_name)
                    };
                    Some(PanelWrite::Overrides(target))
                } else {
                    None
                }
            },
            TweakMessage::ShowPanel(show) => {
                if show {
                    match find_name(&self.cosmic_panel_config.entries, &panel_name) {
                        Some(i) => {
                            proof {
                                assert(self.cosmic_panel_config.names()[i as int] == "Panel"@);
                            }
                            None
                        },
                        None => {
                            if self.has_cosmic_panel_config_helper {
                                proof {
                                    assert(forall|j: int|
                                        0 <= j < self.cosmic_panel_config.names().len()
                                            ==> self.cosmic_panel_config.names()[j] != "Panel"@);
                                }
                                let mut es = cloned_strings(&self.cosmic_panel_config.entries);
                                es.push(panel_name);
                                proof {
                                    assert(string_views(es@) =~= old(self)@.entries.push(
                                        "Panel"@,
                                    ));
                                }
                                Some(PanelWrite::Entries(es))
                            } else {
                                None
                            }
                        },
                    }
                } else {
                    match find_name(&self.cosmic_panel_config.entries, &panel_name) {
                        Some(i) => {
                            proof {
                                lemma_first_match_is_index_of_first(
                                    self.cosmic_panel_config.names(),
                                    "Panel"@,
                                    i as int,
                                );
                            }
                            if self.has_cosmic_panel_config_helper {
                                let mut es = cloned_strings(&self.cosmic_panel_config.entries);
                                es.remove(i);
                                proof {
                                    assert(string_views(es@) =~= old(self)@.entries.remove(
                                        i as int,
                                    ));
                                }
                                Some(PanelWrite::Entries(es))
                            } else {
                                None
                            }
                        },
                        None => {
                            proof {
                                lemma_no_match_no_index(
                                    self.cosmic_panel_config.names(),
                                    "Panel"@,
                                );
                            }
                            None
                        },
                    }
                }
            },
            _ => None,
        }
    }

    /// Install the outcome of a store write requested by `update`: a failed
    /// write leaves the page as it is, a successful one installs the written
    /// value and recomputes the cached flag that mirrors it.
    pub fn apply_write(&mut self, write: PanelWrite, ok: bool)
        ensures
            final(self)@ == commit(old(self)@, write@, ok),
    {
        if !ok {
            return;
        }
        match write {
            PanelWrite::Padding(p) => {
                match self.panel_config.take() {
                    Some(g) => {
                        self.panel_config = Some(
                            PanelGeometry { name: g.name, padding: p, spacing: g.spacing },
                        );
                    },
                    None => {},
                }
            },
            PanelWrite::Spacing(s) => {
                match self.panel_config.take() {
                    Some(g) => {
                        self.panel_config = Some(
                            PanelGeometry { name: g.name, padding: g.padding, spacing: s },
                        );
                    },
                    None => {},
                }
            },
            PanelWrite::Entries(es) => {
                let panel_name: String = "Panel".to_owned();
                let shown = match find_name(&es, &panel_name) {
                    Some(i) => {
                        proof {
                            assert(string_views(es@)[i as int] == "Panel"@);
                        }
                        true
                    },
                    None => {
                        proof {
                            assert(forall|j: int|
                                0 <= j < string_views(es@).len()
                                    ==> string_views(es@)[j] != "Panel"@);
                        }
                        false
                    },
                };
                self.show_panel = shown;
                self.cosmic_panel_config = CosmicPanel { entries: es };
            },
            PanelWrite::Overrides(c) => {
                let panel_name: String = "Panel".to_owned();
                let forced = c.icon_forced_for(&panel_name);
                self.force_icons = forced;
                self.cosmic_panel_button_config = c;
            },
        }
    }
}

/// Law: for any padding value the panel's bounded control can produce,
/// setting it and committing a successful store write leaves exactly that
/// value in the cached field and in the mirrored geometry entry.
pub proof fn lemma_padding_round_trip(pre: PanelV, p: u32)
    requires
        pre.has_panel_helper,
        pre.geometry is Some,
        p <= 20,
    ensures
        ({
            let (mid, w) = step(pre, TweakMessage::SetPanelPadding(p));
            let post = commit(mid, PanelWriteV::Padding(p), true);
            &&& w == Some(PanelWriteV::Padding(p))
            &&& mid.padding == p
            &&& post.padding == p
            &&& (post.geometry->0).0 == p
        }),
{
}

/// Law: as `lemma_padding_round_trip`, for the panel's spacing field.
pub proof fn lemma_spacing_round_trip(pre: PanelV, s: u32)
    requires
        pre.has_panel_helper,
        pre.geometry is Some,
        s <= 28,
    ensures
        ({
            let (mid, w) = step(pre, TweakMessage::SetPanelSpacing(s));
            let post = commit(mid, PanelWriteV::Spacing(s), true);
            &&& w == Some(PanelWriteV::Spacing(s))
            &&& mid.spacing == s
            &&& post.spacing == s
            &&& (post.geometry->0).1 == s
        }),
{
}

/// Law: toggling the panel's shown flag on and then off, with both store
/// writes succeeding, returns the membership list to its original contents
/// and order. (Starting from a list that already holds the panel's name,
/// the opposite order of toggles re-appends the name at the end, so that
/// direction restores the list only when the name already stood last.)
pub proof fn lemma_show_panel_toggle_round_trip(pre: PanelV)
    requires
        pre.has_panel_helper,
        pre.geometry is Some,
        pre.has_entries_helper,
        !pre.entries.contains("Panel"@),
    ensures
        ({
            let (s1, w1) = step(pre, TweakMessage::ShowPanel(true));
            let s2 = commit(s1, w1->0, true);
            let (s3, w3) = step(s2, TweakMessage::ShowPanel(false));
            let s4 = commit(s3, w3->0, true);
            &&& w1 is Some
            &&& w3 is Some
            &&& s2.entries == pre.entries.push("Panel"@)
            &&& s2.show_panel
            &&& s4.entries == pre.entries
            &&& !s4.show_panel
        }),
{
    let pushed = pre.entries.push("Panel"@);
    assert(pushed[pre.entries.len() as int] == "Panel"@);
    assert(pushed.contains("Panel"@));
    assert(forall|j: int| 0 <= j < pre.entries.len() ==> pre.entries[j] != "Panel"@);
    lemma_first_match_is_index_of_first(pushed, "Panel"@, pre.entries.len() as int);
    assert(pushed.remove(pre.entries.len() as int) =~= pre.entries);
}

/// Law: forcing icons on and then off, with both store writes succeeding,
/// removes the page's override entry entirely — the map retains no stale
/// "no override" entry — and leaves every other page's entry as it was.
pub proof fn lemma_force_icons_toggle_removes_entry(pre: PanelV)
    requires
        pre.has_panel_helper,
        pre.geometry is Some,
        pre.has_overrides_helper,
        unique_names(pre.overrides),
    ensures
        ({
            let (s1, w1) = step(pre, TweakMessage::ForceIcons(true));
            let s2 = commit(s1, w1->0, true);
            let (s3, w3) = step(s2, TweakMessage::ForceIcons(false));
            let s4 = commit(s3, w3->0, true);
            &&& w1 is Some
            &&& w3 is Some
            &&& s2.force_icons
            &&& !has_entry(s4.overrides, "Panel"@)
            &&& s4.overrides == entries_without(pre.overrides, "Panel"@)
            &&& !s4.force_icons
        }),
{
    let name = "Panel"@;
    let up = entries_with_icon(pre.overrides, name);
    assert(forall|j: int|
        0 <= j < pre.overrides.len()
            ==> names_of(pre.overrides)[j] == pre.overrides[j].name);
    assert(forall|j: int| 0 <= j < up.len() ==> names_of(up)[j] == up[j].name);
    if has_entry(pre.overrides, name) {
        names_of(pre.overrides).index_of_first_ensures(name);
        let k = names_of(pre.overrides).index_of_first(name)->0;
        assert(names_of(up) =~= names_of(pre.overrides));
        names_of(up).index_of_first_ensures(name);
        assert(names_of(up).contains(name));
        assert(names_of(up).index_of_first(name) == Some(k));
        // with unique names only position k carries the page's name, so the
        // icon upsert changed no other entry and both removals agree
        assert(forall|j: int|
            0 <= j < pre.overrides.len() && j != k ==> pre.overrides[j].name != name);
        assert(up.remove(k) =~= pre.overrides.remove(k));
        let removed = pre.overrides.remove(k);
        assert(forall|j: int| 0 <= j < removed.len() ==> removed[j].name != name);
        assert(forall|j: int|
            0 <= j < names_of(removed).len() ==> names_of(removed)[j] != name);
        lemma_no_match_no_index(names_of(removed), name);
    } else {
        assert forall|j: int| 0 <= j < pre.overrides.len() implies pre.overrides[j].name
            != name by {
            if pre.overrides[j].name == name {
                assert(names_of(pre.overrides)[j] == name);
                assert(names_of(pre.overrides).contains(name));
            }
        };
        assert(up =~= pre.overrides.push(OverrideEntry { name, force: Some(Override::Icon) }));
        assert(names_of(up)[pre.overrides.len() as int] == name);
        lemma_first_match_is_index_of_first(names_of(up), name, pre.overrides.len() as int);
        assert(up.remove(pre.overrides.len() as int) =~= pre.overrides);
        lemma_no_match_no_index(names_of(pre.overrides), name);
    }
}

/// The panel page's cached flags agree with the store contents they
/// mirror: the shown flag with the membership list, the icon flag with the
/// override map.
pub open spec fn flags_mirror_stores(v: PanelV) -> bool {
    &&& v.show_panel == v.entries.contains("Panel"@)
    &&& v.force_icons == icon_forced(v.overrides, "Panel"@)
}

/// Law: handling a message keeps the cached flags in agreement with the
/// mirrored store contents — a flag changes only through a commit.
pub proof fn lemma_update_keeps_flags_mirrored(pre: PanelV, msg: TweakMessage)
    requires
        flags_mirror_stores(pre),
    ensures
        flags_mirror_stores(step(pre, msg).0),
{
}

/// Law: committing a write's outcome keeps the cached flags in agreement
/// with the mirrored store contents, whether the write succeeded or not.
pub proof fn lemma_commit_keeps_flags_mirrored(pre: PanelV, w: PanelWriteV, ok: bool)
    requires
        flags_mirror_stores(pre),
    ensures
        flags_mirror_stores(commit(pre, w, ok)),
{
}

/// Law: a message that addresses none of the panel page's fields leaves
/// the page state unchanged and requests no store write.
pub proof fn lemma_unrelated_message_ignored(pre: PanelV, msg: TweakMessage)
    requires
        !panel_message(msg),
    ensures
        step(pre, msg) == (pre, None::<PanelWriteV>),
{
}

} // verus!
