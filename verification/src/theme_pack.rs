use crate::color_schemes::ColorSchemes;
use crate::dock::Dock;
use crate::layouts::Layouts;
use crate::message::TweakMessage;
use crate::panel::Panel;
use vstd::prelude::*;

verus! {

/// What the aggregate page reports for the actions whose handling is still
/// a placeholder: the caller prints one line per notice and persists
/// nothing.
#[derive(Clone, Copy, PartialEq, Eq, Structural, Debug)]
pub enum Notice {
    Applying,
    Selecting,
    Saving,
    Deleting,
    SelectingLayout,
}

/// The aggregate tweak page: one instance of each per-feature page state,
/// composed into a single view by the caller.
pub struct ThemePack {
    pub color_schemes: ColorSchemes,
    pub dock: Dock,
    pub panel: Panel,
    pub layouts: Layouts,
}

/// Whether a message is one the aggregate page handles itself.
pub open spec fn theme_pack_message(msg: TweakMessage) -> bool {
    ||| msg is ApplyThemePack
    ||| msg is SelectThemePack
    ||| msg is SaveThemePack
    ||| msg is DeleteThemePack
    ||| msg is SetDockPadding
    ||| msg is SetDockSpacing
    ||| msg is SetPanelPadding
    ||| msg is SetPanelSpacing
    ||| msg is SelectLayout
}

impl ThemePack {
    /// The aggregate page over its four sub-pages, each hydrated by the
    /// caller from its own stores.
    pub fn new(color_schemes: ColorSchemes, dock: Dock, panel: Panel, layouts: Layouts) -> (r:
        ThemePack)
        ensures
            r.color_schemes == color_schemes,
            r.dock == dock,
            r.panel == panel,
            r.layouts == layouts,
    {
        ThemePack { color_schemes, dock, panel, layouts }
    }

    /// Dispatch one message to the field it addresses. Applying or
    /// selecting a theme pack replaces the in-memory color-scheme state;
    /// saving and deleting are placeholders that only yield a notice; the
    /// dock and panel scalar fields are set directly, with no store write;
    /// every other variant falls through with nothing changed.
    pub fn update(&mut self, message: TweakMessage) -> (notice: Option<Notice>)
        ensures
            match message {
                TweakMessage::ApplyThemePack(_, cs) => *final(self) == (ThemePack {
                    color_schemes: cs,
                    ..*old(self)
                }) && notice == Some(Notice::Applying),
                TweakMessage::SelectThemePack(_, cs) => *final(self) == (ThemePack {
                    color_schemes: cs,
                    ..*old(self)
                }) && notice == Some(Notice::Selecting),
                TweakMessage::SaveThemePack => *final(self) == *old(self) && notice == Some(
                    Notice::Saving,
                ),
                TweakMessage::DeleteThemePack => *final(self) == *old(self) && notice == Some(
                    Notice::Deleting,
                ),
                TweakMessage::SetDockPadding(p) => *final(self) == (ThemePack {
                    dock: Dock { padding: p, spacing: old(self).dock.spacing },
                    ..*old(self)
                }) && notice is None,
                TweakMessage::SetDockSpacing(s) => *final(self) == (ThemePack {
                    dock: Dock { padding: old(self).dock.padding, spacing: s },
                    ..*old(self)
                }) && notice is None,
                TweakMessage::SetPanelPadding(p) => *final(self) == (ThemePack {
                    panel: Panel { padding: p, ..old(self).panel },
                    ..*old(self)
                }) && notice is None,
                TweakMessage::SetPanelSpacing(s) => *final(self) == (ThemePack {
                    panel: Panel { spacing: s, ..old(self).panel },
                    ..*old(self)
                }) && notice is None,
                TweakMessage::SelectLayout(_) => *final(self) == *old(self) && notice == Some(
                    Notice::SelectingLayout,
                ),
                _ => *final(self) == *old(self) && notice is None,
            },
            !theme_pack_message(message) ==> *final(self) == *old(self) && notice is None,
    {
        match message {
            TweakMessage::ApplyThemePack(_layout, color_schemes) => {
                self.color_schemes = color_schemes;
                Some(Notice::Applying)
            },
            TweakMessage::SelectThemePack(_layout, color_schemes) => {
                self.color_schemes = color_schemes;
                Some(Notice::Selecting)
            },
            TweakMessage::SaveThemePack => Some(Notice::Saving),
            TweakMessage::DeleteThemePack => Some(Notice::Deleting),
            TweakMessage::SetDockPadding(padding) => {
                self.dock.padding = padding;
                None
            },
            TweakMessage::SetDockSpacing(spacing) => {
                self.dock.spacing = spacing;
                None
            },
            TweakMessage::SetPanelPadding(padding) => {
                self.panel.padding = padding;
                None
            },
            TweakMessage::SetPanelSpacing(spacing) => {
                self.panel.spacing = spacing;
                None
            },
            TweakMessage::SelectLayout(_layout) => Some(Notice::SelectingLayout),
            _ => None,
        }
    }
}

} // verus!
