//! Drawing of camera frusta: which corners each drawn line joins, which color
//! a frustum is drawn in, and which frusta are drawn.

use vstd::prelude::*;

verus! {

/// The frustum-drawing part of the simulator's debug view.
#[derive(Clone, Copy, Debug)]
pub struct FrustumGizmoPlugin;

impl Default for FrustumGizmoPlugin {
    fn default() -> (r: FrustumGizmoPlugin) {
        FrustumGizmoPlugin
    }
}

/// The line strip of a frustum outline: round the near face, over to the far
/// face and round it. Corners come as near top-left, near top-right, near
/// bottom-right, near bottom-left, then the same four of the far face.
pub open spec fn outline_strip<P>(c: Seq<P>) -> Seq<P> {
    seq![c[0], c[1], c[2], c[3], c[0], c[4], c[5], c[6], c[7], c[4]]
}

/// The three edges between the faces that the strip leaves out.
pub open spec fn outline_edges<P>(c: Seq<P>) -> Seq<(P, P)> {
    seq![(c[1], c[5]), (c[2], c[6]), (c[3], c[7])]
}

impl FrustumGizmoPlugin {
    /// The strip and the lines that together draw every edge of a frustum.
    pub fn outline<P: Copy>(corners: [P; 8]) -> (r: ([P; 10], [(P, P); 3]))
        ensures
            r.0@ == outline_strip(corners@),
            r.1@ == outline_edges(corners@),
    {
        let mut strip = [corners[0]; 10];
        strip[1] = corners[1];
        strip[2] = corners[2];
        strip[3] = corners[3];
        strip[5] = corners[4];
        strip[6] = corners[5];
        strip[7] = corners[6];
        strip[8] = corners[7];
        strip[9] = corners[4];
        let mut edges = [(corners[1], corners[5]); 3];
        edges[1] = (corners[2], corners[6]);
        edges[2] = (corners[3], corners[7]);
        assert(strip@ =~= outline_strip(corners@));
        assert(edges@ =~= outline_edges(corners@));
        (strip, edges)
    }

    /// The color of a frustum: its own, else the configured default, else
    /// the color derived from its entity.
    pub fn color<C: Copy>(own: Option<C>, default: Option<C>, entity_color: C) -> (r: C)
        ensures
            r == match (own, default) {
                (Some(c), _) => c,
                (None, Some(c)) => c,
                (None, None) => entity_color,
            },
    {
        match own {
            Some(c) => c,
            None => match default {
                Some(c) => c,
                None => entity_color,
            },
        }
    }

    /// Whether a frustum is drawn: its entity asks for it, or every frustum
    /// is to be drawn.
    pub fn draws(draw_all: bool, shown: bool) -> (r: bool)
        ensures
            r == (shown || draw_all),
    {
        shown || draw_all
    }
}

} // verus!
