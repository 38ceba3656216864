use vstd::prelude::*;

verus! {

/// A selectable desktop layout preset.
#[derive(Clone, Copy, PartialEq, Eq, Structural, Debug)]
pub enum Layout {
    Cosmic,
    Mac,
    Windows,
    Ubuntu,
}

/// State of the layout-selection page: the presets on offer and the one
/// currently selected, if any.
pub struct Layouts {
    pub layouts: Vec<Layout>,
    pub selected_layout: Option<Layout>,
}

impl Default for Layouts {
    /// The state a failed load of the layout store falls back to: no presets
    /// and no selection.
    fn default() -> (r: Layouts)
        ensures
            r.layouts@ == Seq::<Layout>::empty(),
            r.selected_layout is None,
    {
        Layouts { layouts: Vec::new(), selected_layout: None }
    }
}

} // verus!
