//! Layer surfaces: panels, backgrounds and overlays in four fixed bands.

use vstd::prelude::*;

use crate::desktop::{region_under, spec_region_under, SurfaceHit, SurfaceId, SurfaceRegion};
use crate::seqs::{lemma_filter_end, lemma_filter_start, lemma_filter_step};
use crate::utils::{Point, Rectangle};

verus! {

/// The four stacking bands of layer surfaces, lowest first. Windows sit
/// between `Bottom` and `Top`.
#[derive(Clone, Copy, Debug, PartialEq, Eq, Structural)]
pub enum Layer {
    Background,
    Bottom,
    Top,
    Overlay,
}

/// How a layer surface wants keyboard focus.
#[derive(Clone, Copy, Debug, PartialEq, Eq, Structural)]
pub enum KeyboardInteractivity {
    Never,
    Exclusive,
    OnDemand,
}

/// A mapped layer surface.
pub struct LayerSurface {
    /// Cleared when the owning client is gone.
    pub alive: bool,
    /// The root surface, which takes keyboard focus for the layer surface.
    pub surface: SurfaceId,
    pub layer: Layer,
    /// Where the surface was arranged, relative to its output.
    pub geometry: Rectangle,
    pub keyboard_interactivity: KeyboardInteractivity,
    /// The surface tree, topmost first, relative to the origin of `geometry`.
    pub surfaces: Vec<SurfaceRegion>,
}

impl LayerSurface {
    pub open spec fn spec_can_receive_keyboard_focus(self) -> bool {
        self.keyboard_interactivity != KeyboardInteractivity::Never
    }

    pub fn can_receive_keyboard_focus(&self) -> (b: bool)
        ensures
            b == self.spec_can_receive_keyboard_focus(),
    {
        match self.keyboard_interactivity {
            KeyboardInteractivity::Never => false,
            _ => true,
        }
    }

    /// Whether a new surface of this kind is given keyboard focus when it is
    /// mapped: it is above the windows and asks for the keyboard.
    pub open spec fn spec_wants_focus(self) -> bool {
        (self.layer == Layer::Top || self.layer == Layer::Overlay)
            && self.keyboard_interactivity != KeyboardInteractivity::Never
    }

    pub fn wants_focus(&self) -> (b: bool)
        ensures
            b == self.spec_wants_focus(),
    {
        let above = match self.layer {
            Layer::Top => true,
            Layer::Overlay => true,
            _ => false,
        };
        above && self.can_receive_keyboard_focus()
    }

    /// Whether this surface is a candidate at `p` in band `layer`: it is
    /// alive, in that band, and its geometry contains the point; with
    /// `focus_only`, it can also take keyboard focus.
    pub open spec fn is_candidate(self, layer: Layer, p: Point, focus_only: bool) -> bool {
        &&& self.alive
        &&& self.layer == layer
        &&& self.geometry.spec_contains(p)
        &&& focus_only ==> self.spec_can_receive_keyboard_focus()
    }

    /// The surface of this layer surface under `p`, given relative to the
    /// layer surface's origin.
    pub fn surface_under(&self, p: Point) -> (hit: Option<SurfaceHit>)
        ensures
            hit == spec_region_under(self.surfaces@, p),
    {
        region_under(&self.surfaces, p)
    }
}

/// The layer surfaces of one output, in mapping order, and the part of the
/// output they leave to windows.
pub struct LayerMap {
    pub layers: Vec<LayerSurface>,
    /// The output's area minus what layer surfaces reserve, relative to the
    /// output.
    pub zone: Rectangle,
}

/// The index of the last candidate below `upto`: the one mapped most recently.
pub open spec fn last_candidate(
    layers: Seq<LayerSurface>,
    layer: Layer,
    p: Point,
    focus_only: bool,
    upto: int,
) -> Option<int>
    decreases upto,
{
    if upto <= 0 || upto > layers.len() {
        None
    } else if layers[upto - 1].is_candidate(layer, p, focus_only) {
        Some(upto - 1)
    } else {
        last_candidate(layers, layer, p, focus_only, upto - 1)
    }
}

impl LayerMap {
    pub fn new(zone: Rectangle) -> (m: LayerMap)
        ensures
            m.layers@ == Seq::<LayerSurface>::empty(),
            m.zone == zone,
    {
        LayerMap { layers: Vec::new(), zone }
    }

    /// The layer surface of band `layer` under `p`: the most recently mapped
    /// one whose geometry contains the point, by its index.
    pub open spec fn spec_layer_under(self, layer: Layer, p: Point) -> Option<int> {
        last_candidate(self.layers@, layer, p, false, self.layers@.len() as int)
    }

    /// As `spec_layer_under`, among the surfaces that can take keyboard focus.
    pub open spec fn spec_focusable_layer_under(self, layer: Layer, p: Point) -> Option<int> {
        last_candidate(self.layers@, layer, p, true, self.layers@.len() as int)
    }

    /// The most recently mapped candidate at `p` in band `layer`, by its
    /// index.
    pub fn candidate_under(&self, layer: Layer, p: Point, focus_only: bool) -> (r: Option<usize>)
        ensures
            r is Some == last_candidate(self.layers@, layer, p, focus_only, self.layers@.len() as int) is Some,
            r matches Some(i) ==> i < self.layers.len() && last_candidate(
                self.layers@,
                layer,
                p,
                focus_only,
                self.layers@.len() as int,
            ) == Some(i as int),
    {
        let mut i: usize = self.layers.len();
        while i > 0
            invariant
                i <= self.layers.len(),
                last_candidate(self.layers@, layer, p, focus_only, self.layers@.len() as int)
                    == last_candidate(self.layers@, layer, p, focus_only, i as int),
            decreases i,
        {
            let l = &self.layers[i - 1];
            if l.alive && l.layer == layer && l.geometry.contains(p) && (!focus_only
                || l.can_receive_keyboard_focus()) {
                return Some(i - 1);
            }
            i -= 1;
        }
        None
    }

    pub fn layer_under(&self, layer: Layer, p: Point) -> (r: Option<usize>)
        ensures
            r is Some == self.spec_layer_under(layer, p) is Some,
            r matches Some(i) ==> i < self.layers.len() && self.spec_layer_under(layer, p) == Some(
                i as int,
            ),
    {
        self.candidate_under(layer, p, false)
    }

    pub fn focusable_layer_under(&self, layer: Layer, p: Point) -> (r: Option<usize>)
        ensures
            r is Some == self.spec_focusable_layer_under(layer, p) is Some,
            r matches Some(i) ==> i < self.layers.len() && self.spec_focusable_layer_under(layer, p)
                == Some(i as int),
    {
        self.candidate_under(layer, p, true)
    }

    /// Adds a layer surface on top of those already mapped.
    pub fn map_layer(&mut self, surface: LayerSurface)
        ensures
            final(self).layers@ == old(self).layers@.push(surface),
            final(self).zone == old(self).zone,
    {
        self.layers.push(surface);
    }

    /// Drops the layer surfaces that are gone.
    pub fn cleanup(&mut self)
        ensures
            final(self).zone == old(self).zone,
            final(self).layers@ == old(self).layers@.filter(|l: LayerSurface| l.alive),
    {
        let ghost pred = |l: LayerSurface| l.alive;
        let ghost before = self.layers@;
        let ghost mut k: int = 0;
        let mut i: usize = 0;
        proof {
            lemma_filter_start(before, pred);
        }
        while i < self.layers.len()
            invariant
                0 <= k <= before.len(),
                i == before.take(k).filter(pred).len(),
                pred == (|l: LayerSurface| l.alive),
                self.layers@ == before.take(k).filter(pred) + before.skip(k),
                self.zone == old(self).zone,
            decreases before.len() - k,
        {
            proof {
                lemma_filter_step(before, pred, k);
            }
            if !self.layers[i].alive {
                self.layers.remove(i);
                proof {
                    k = k + 1;
                }
            } else {
                proof {
                    k = k + 1;
                }
                i += 1;
            }
        }
        proof {
            lemma_filter_end(before, pred);
        }
    }

    pub fn non_exclusive_zone(&self) -> (r: Rectangle)
        ensures
            r == self.zone,
    {
        self.zone
    }
}

/// The last candidate is a candidate, and nothing mapped after it is.
pub proof fn lemma_last_candidate(
    layers: Seq<LayerSurface>,
    layer: Layer,
    p: Point,
    focus_only: bool,
    upto: int,
)
    requires
        0 <= upto <= layers.len(),
    ensures
        match last_candidate(layers, layer, p, focus_only, upto) {
            Some(i) => 0 <= i < upto && layers[i].is_candidate(layer, p, focus_only) && forall|j: int|
                i < j < upto ==> !(#[trigger] layers[j]).is_candidate(layer, p, focus_only),
            None => forall|j: int|
                0 <= j < upto ==> !(#[trigger] layers[j]).is_candidate(layer, p, focus_only),
        },
    decreases upto,
{
    if upto > 0 && !layers[upto - 1].is_candidate(layer, p, focus_only) {
        lemma_last_candidate(layers, layer, p, focus_only, upto - 1);
    }
}

} // verus!
