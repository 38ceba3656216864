use crate::panel_config::{accept_geometry, geometry_named, PanelGeometry};
use vstd::prelude::*;

verus! {

/// State of the dock page: padding and spacing mirrored from the dock's
/// geometry store.
pub struct Dock {
    pub padding: u32,
    pub spacing: u32,
}

impl Dock {
    /// State hydrated from the dock's geometry store. A missing or misnamed
    /// entry (a failed load, or geometry that belongs to another panel)
    /// leaves both fields at zero.
    pub fn new(geometry: Option<PanelGeometry>, name: &String) -> (dock: Dock)
        ensures
            dock.padding == (if geometry_named(geometry, name@) {
                geometry->0.padding
            } else {
                0u32
            }),
            dock.spacing == (if geometry_named(geometry, name@) {
                geometry->0.spacing
            } else {
                0u32
            }),
    {
        match accept_geometry(geometry, name) {
            Some(g) => Dock { padding: g.padding, spacing: g.spacing },
            None => Dock { padding: 0, spacing: 0 },
        }
    }
}

} // verus!
