use vstd::prelude::*;

verus! {

/// A named color-scheme preset.
#[derive(Clone)]
pub struct ColorScheme {
    pub name: String,
}

/// State of the color-scheme page: the installed presets and the one
/// currently selected, if any.
#[derive(Clone)]
pub struct ColorSchemes {
    pub installed: Vec<ColorScheme>,
    pub selected: Option<ColorScheme>,
}

impl Default for ColorSchemes {
    /// The state a failed load of the color-scheme store falls back to:
    /// nothing installed and nothing selected.
    fn default() -> (r: ColorSchemes)
        ensures
            r.installed@ == Seq::<ColorScheme>::empty(),
            r.selected is None,
    {
        ColorSchemes { installed: Vec::new(), selected: None }
    }
}

} // verus!
