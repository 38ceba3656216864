use crate::color_schemes::ColorSchemes;
use crate::layouts::Layout;
use vstd::prelude::*;

verus! {

/// The flat set of interaction events shared by every tweak page. Each
/// page's handler reacts to the variants that address one of its own fields
/// and lets every other variant fall through unchanged.
#[derive(Clone)]
pub enum TweakMessage {
    ShowPanel(bool),
    ForceIcons(bool),
    SetPanelPadding(u32),
    SetPanelSpacing(u32),
    SetDockPadding(u32),
    SetDockSpacing(u32),
    ApplyThemePack(Layout, ColorSchemes),
    SelectThemePack(Layout, ColorSchemes),
    SaveThemePack,
    DeleteThemePack,
    SelectLayout(Layout),
    OpenAvailableThemes,
    OpenSaveDialog,
}

} // verus!
