use vstd::prelude::*;

verus! {

/// Geometry entry of one panel configuration store: the entry's name (which
/// panel it configures) together with its padding and spacing values.
pub struct PanelGeometry {
    pub name: String,
    pub padding: u32,
    pub spacing: u32,
}

/// Whether a loaded geometry entry exists and carries the expected name.
pub open spec fn geometry_named(geometry: Option<PanelGeometry>, name: Seq<char>) -> bool {
    geometry matches Some(g) && g.name@ == name
}

/// A loaded geometry entry is kept only when it carries the expected name;
/// an entry for some other panel is discarded as if nothing had been loaded.
pub fn accept_geometry(geometry: Option<PanelGeometry>, name: &String) -> (r: Option<
    PanelGeometry,
>)
    ensures
        r == (if geometry_named(geometry, name@) {
            geometry
        } else {
            None::<PanelGeometry>
        }),
{
    match geometry {
        Some(g) => {
            if g.name == *name {
                Some(g)
            } else {
                None
            }
        },
        None => None,
    }
}

} // verus!
