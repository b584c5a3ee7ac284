//! The scene the window manager works on: surfaces, windows, layer
//! surfaces, outputs and the floating window stack.

use vstd::prelude::*;

pub mod layer;
pub mod output;
pub mod space;
pub mod window;

pub use layer::{KeyboardInteractivity, Layer, LayerMap, LayerSurface};
pub use output::Output;
pub use space::{MappedWindow, Space};
pub use window::{ToplevelState, Window, WindowId};

use crate::utils::{Point, Rectangle};

verus! {

/// Identity of a client surface.
#[derive(Clone, Copy, Debug, PartialEq, Eq, Structural)]
pub struct SurfaceId(pub u64);

/// One surface of a surface tree, with the area it accepts input on, in the
/// coordinates of the tree's owner (a window or a layer surface).
#[derive(Clone, Copy, Debug, PartialEq, Eq, Structural)]
pub struct SurfaceRegion {
    pub surface: SurfaceId,
    pub area: Rectangle,
}

/// A hit: the surface, and the origin of that surface.
#[derive(Clone, Copy, Debug, PartialEq, Eq, Structural)]
pub struct SurfaceHit {
    pub surface: SurfaceId,
    pub location: Point,
}

/// The index of the first region at or after `from` that contains `p`.
pub open spec fn first_region_from(regions: Seq<SurfaceRegion>, p: Point, from: int) -> Option<int>
    decreases regions.len() - from,
{
    if from < 0 || from >= regions.len() {
        None
    } else if regions[from].area.spec_contains(p) {
        Some(from)
    } else {
        first_region_from(regions, p, from + 1)
    }
}

/// The topmost surface of a tree under `p`: the first region in the list
/// that contains the point, with that region's origin.
pub open spec fn spec_region_under(regions: Seq<SurfaceRegion>, p: Point) -> Option<SurfaceHit> {
    match first_region_from(regions, p, 0) {
        Some(i) => Some(SurfaceHit { surface: regions[i].surface, location: regions[i].area.loc }),
        None => None,
    }
}

/// Moves a hit by `offset`, saturating.
pub open spec fn spec_offset_hit(hit: Option<SurfaceHit>, offset: Point) -> Option<SurfaceHit> {
    match hit {
        Some(h) => Some(SurfaceHit { surface: h.surface, location: h.location.plus(offset) }),
        None => None,
    }
}

pub fn region_under(regions: &Vec<SurfaceRegion>, p: Point) -> (hit: Option<SurfaceHit>)
    ensures
        hit == spec_region_under(regions@, p),
{
    let mut i: usize = 0;
    while i < regions.len()
        invariant
            i <= regions.len(),
            first_region_from(regions@, p, 0) == first_region_from(regions@, p, i as int),
        decreases regions.len() - i,
    {
        if regions[i].area.contains(p) {
            return Some(SurfaceHit { surface: regions[i].surface, location: regions[i].area.loc });
        }
        i += 1;
    }
    None
}

pub fn offset_hit(hit: Option<SurfaceHit>, offset: Point) -> (r: Option<SurfaceHit>)
    ensures
        r == spec_offset_hit(hit, offset),
{
    match hit {
        Some(h) => Some(
            SurfaceHit { surface: h.surface, location: h.location.saturating_add(offset) },
        ),
        None => None,
    }
}

/// A surface tree answers at `p` exactly if one of its regions contains the
/// point, and then with the surface and origin of the first such region.
pub proof fn lemma_region_under(regions: Seq<SurfaceRegion>, p: Point)
    ensures
        spec_region_under(regions, p) is Some <==> exists|i: int|
            0 <= i < regions.len() && (#[trigger] regions[i]).area.spec_contains(p),
        spec_region_under(regions, p) matches Some(hit) ==> exists|i: int|
            0 <= i < regions.len() && (#[trigger] regions[i]).area.spec_contains(p) && hit.surface
                == regions[i].surface && hit.location == regions[i].area.loc,
{
    lemma_first_region(regions, p, 0);
    if spec_region_under(regions, p) is Some {
        let i = first_region_from(regions, p, 0)->0;
        assert(regions[i].area.spec_contains(p));
    }
}

proof fn lemma_first_region(regions: Seq<SurfaceRegion>, p: Point, from: int)
    requires
        0 <= from <= regions.len(),
    ensures
        match first_region_from(regions, p, from) {
            Some(i) => from <= i < regions.len() && regions[i].area.spec_contains(p),
            None => forall|j: int|
                from <= j < regions.len() ==> !(#[trigger] regions[j]).area.spec_contains(p),
        },
    decreases regions.len() - from,
{
    if from < regions.len() && !regions[from].area.spec_contains(p) {
        lemma_first_region(regions, p, from + 1);
    }
}

} // verus!
