use vstd::prelude::*;

verus! {

/// How far around the viewer chunks are kept in range, in chunks: the
/// horizontal radius first, the vertical radius second.
pub struct RenderSettings {
    pub render_distance: (u32, u32),
}

impl Default for RenderSettings {
    fn default() -> (settings: Self)
        ensures
            settings.render_distance == (2u32, 2u32),
    {
        Self { render_distance: (2, 2) }
    }
}

} // verus!
