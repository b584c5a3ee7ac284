//! Which surface is under the pointer, and which one a click focuses.

use vstd::prelude::*;

use crate::desktop::layer::last_candidate;
use crate::desktop::{
    offset_hit, spec_offset_hit, spec_region_under, Layer, LayerMap, Output, SurfaceHit, SurfaceId,
    Window,
};
use crate::shell::workspace::Workspace;
use crate::utils::{Point, Rectangle};

verus! {

/// The layer surface picked at `p` from two bands, the first band before
/// the second, by its index; with `focus_only`, among those that can take
/// keyboard focus.
pub open spec fn pick_layer(map: LayerMap, first: Layer, second: Layer, p: Point, focus_only: bool) -> Option<
    int,
> {
    match last_candidate(map.layers@, first, p, focus_only, map.layers@.len() as int) {
        Some(i) => Some(i),
        None => last_candidate(map.layers@, second, p, focus_only, map.layers@.len() as int),
    }
}

/// What layer surface `i` of the output answers at the global position: the
/// hit in its surface tree, given in global coordinates.
pub open spec fn layer_hit(output: Output, geo: Rectangle, i: int, global: Point) -> Option<SurfaceHit> {
    let layer = output.layer_map.layers[i];
    spec_offset_hit(
        spec_region_under(layer.surfaces@, global.minus(geo.loc).minus(layer.geometry.loc)),
        layer.geometry.loc.plus(geo.loc),
    )
}

/// What a fullscreen window answers at the global position.
pub open spec fn fullscreen_hit(window: Window, geo: Rectangle, global: Point) -> Option<SurfaceHit> {
    spec_offset_hit(spec_region_under(window.surfaces@, global.minus(geo.loc)), geo.loc)
}

/// The surface under the pointer. Overlay and top layer surfaces come
/// first, and a layer surface that is picked answers for itself. Below them
/// is the output's fullscreen window, if it has one, and nothing else; else
/// the floating windows from the top down, then bottom and background layer
/// surfaces.
pub open spec fn spec_surface_under(
    global: Point,
    relative: Point,
    output: Output,
    geo: Rectangle,
    workspace: Workspace,
    windows: Seq<Window>,
) -> Option<SurfaceHit> {
    match pick_layer(output.layer_map, Layer::Overlay, Layer::Top, relative, false) {
        Some(i) => layer_hit(output, geo, i, global),
        None => match workspace.spec_get_fullscreen(output.name@, windows) {
            Some(w) => fullscreen_hit(windows[w.0 as int], geo, global),
            None => match workspace.space.spec_surface_under(windows, relative) {
                Some((_, surface, loc)) => Some(
                    SurfaceHit { surface, location: loc.plus(global.minus(relative)) },
                ),
                None => match pick_layer(
                    output.layer_map,
                    Layer::Bottom,
                    Layer::Background,
                    relative,
                    false,
                ) {
                    Some(i) => layer_hit(output, geo, i, global),
                    None => None,
                },
            },
        },
    }
}

/// The root surface of layer surface `i`, if its surface tree answers at
/// the global position.
pub open spec fn layer_focus(output: Output, geo: Rectangle, i: int, global: Point) -> Option<SurfaceId> {
    if layer_hit(output, geo, i, global) is Some {
        Some(output.layer_map.layers[i].surface)
    } else {
        None
    }
}

/// The surface a click gives keyboard focus. Only layer surfaces that can
/// take keyboard focus count. Over a fullscreen window the overlay band
/// comes first, then the window. Else overlay and top come first, then the
/// topmost floating window under the pointer, then bottom and background,
/// which are looked up at the global position, unlike everything else.
/// Focus always goes to a root surface.
pub open spec fn spec_focus_under(
    global: Point,
    relative: Point,
    output: Output,
    geo: Rectangle,
    workspace: Workspace,
    windows: Seq<Window>,
) -> Option<SurfaceId> {
    match workspace.spec_get_fullscreen(output.name@, windows) {
        Some(w) => match last_candidate(
            output.layer_map.layers@,
            Layer::Overlay,
            relative,
            true,
            output.layer_map.layers@.len() as int,
        ) {
            Some(i) => layer_focus(output, geo, i, global),
            None => if fullscreen_hit(windows[w.0 as int], geo, global) is Some {
                Some(windows[w.0 as int].toplevel)
            } else {
                None
            },
        },
        None => match pick_layer(output.layer_map, Layer::Overlay, Layer::Top, relative, true) {
            Some(i) => layer_focus(output, geo, i, global),
            None => match workspace.space.spec_surface_under(windows, relative) {
                Some((w, _, _)) => Some(windows[w.0 as int].toplevel),
                None => match pick_layer(
                    output.layer_map,
                    Layer::Bottom,
                    Layer::Background,
                    global,
                    true,
                ) {
                    Some(i) => layer_focus(output, geo, i, global),
                    None => None,
                },
            },
        },
    }
}

fn pick(map: &LayerMap, first: Layer, second: Layer, p: Point, focus_only: bool) -> (r: Option<usize>)
    ensures
        r is Some == pick_layer(*map, first, second, p, focus_only) is Some,
        r matches Some(i) ==> i < map.layers.len() && pick_layer(*map, first, second, p, focus_only)
            == Some(i as int),
{
    match map.candidate_under(first, p, focus_only) {
        Some(i) => Some(i),
        None => map.candidate_under(second, p, focus_only),
    }
}

fn hit_layer(output: &Output, geo: Rectangle, i: usize, global: Point) -> (r: Option<SurfaceHit>)
    requires
        i < output.layer_map.layers.len(),
    ensures
        r == layer_hit(*output, geo, i as int, global),
{
    let layer = &output.layer_map.layers[i];
    offset_hit(
        layer.surface_under(global.saturating_sub(geo.loc).saturating_sub(layer.geometry.loc)),
        layer.geometry.loc.saturating_add(geo.loc),
    )
}

fn focus_layer(output: &Output, geo: Rectangle, i: usize, global: Point) -> (r: Option<SurfaceId>)
    requires
        i < output.layer_map.layers.len(),
    ensures
        r == layer_focus(*output, geo, i as int, global),
{
    match hit_layer(output, geo, i, global) {
        Some(_) => Some(output.layer_map.layers[i].surface),
        None => None,
    }
}

/// Resolves the surface under the pointer, with the surface's origin in
/// global coordinates.
pub fn surface_under(
    global_pos: Point,
    relative_pos: Point,
    output: &Output,
    output_geo: Rectangle,
    workspace: &Workspace,
    windows: &Vec<Window>,
) -> (hit: Option<SurfaceHit>)
    ensures
        hit == spec_surface_under(
            global_pos,
            relative_pos,
            *output,
            output_geo,
            *workspace,
            windows@,
        ),
{
    match pick(&output.layer_map, Layer::Overlay, Layer::Top, relative_pos, false) {
        Some(i) => {
            return hit_layer(output, output_geo, i, global_pos);
        },
        None => {},
    }
    match workspace.get_fullscreen(output, windows) {
        Some(w) => {
            return offset_hit(
                windows[w.0].surface_under(global_pos.saturating_sub(output_geo.loc)),
                output_geo.loc,
            );
        },
        None => {},
    }
    match workspace.space.surface_under(windows, relative_pos) {
        Some((_, surface, loc)) => {
            return Some(
                SurfaceHit {
                    surface,
                    location: loc.saturating_add(global_pos.saturating_sub(relative_pos)),
                },
            );
        },
        None => {},
    }
    match pick(&output.layer_map, Layer::Bottom, Layer::Background, relative_pos, false) {
        Some(i) => hit_layer(output, output_geo, i, global_pos),
        None => None,
    }
}

/// Resolves the surface that a click at the pointer's position focuses.
pub fn focus_under(
    global_pos: Point,
    relative_pos: Point,
    output: &Output,
    output_geo: Rectangle,
    workspace: &Workspace,
    windows: &Vec<Window>,
) -> (focus: Option<SurfaceId>)
    ensures
        focus == spec_focus_under(
            global_pos,
            relative_pos,
            *output,
            output_geo,
            *workspace,
            windows@,
        ),
{
    match workspace.get_fullscreen(output, windows) {
        Some(w) => {
            match output.layer_map.candidate_under(Layer::Overlay, relative_pos, true) {
                Some(i) => focus_layer(output, output_geo, i, global_pos),
                None => {
                    let hit = offset_hit(
                        windows[w.0].surface_under(global_pos.saturating_sub(output_geo.loc)),
                        output_geo.loc,
                    );
                    match hit {
                        Some(_) => Some(windows[w.0].toplevel),
                        None => None,
                    }
                },
            }
        },
        None => {
            match pick(&output.layer_map, Layer::Overlay, Layer::Top, relative_pos, true) {
                Some(i) => {
                    return focus_layer(output, output_geo, i, global_pos);
                },
                None => {},
            }
            match workspace.space.surface_under(windows, relative_pos) {
                Some((w, _, _)) => {
                    proof {
                        crate::desktop::space::lemma_stack_hit_in_table(
                            workspace.space.windows@,
                            windows@,
                            relative_pos,
                            workspace.space.windows@.len() as int,
                        );
                    }
                    return Some(windows[w.0].toplevel);
                },
                None => {},
            }
            match pick(&output.layer_map, Layer::Bottom, Layer::Background, global_pos, true) {
                Some(i) => focus_layer(output, output_geo, i, global_pos),
                None => None,
            }
        },
    }
}

/// An overlay layer surface under the pointer wins over everything else:
/// whatever is fullscreen or floating there, the pointer gets what the
/// topmost such layer surface answers, which is a surface of its own if any.
pub proof fn lemma_overlay_wins(
    global: Point,
    relative: Point,
    output: Output,
    geo: Rectangle,
    workspace: Workspace,
    windows: Seq<Window>,
    i: int,
)
    requires
        0 <= i < output.layer_map.layers@.len(),
        output.layer_map.layers@[i].is_candidate(Layer::Overlay, relative, false),
    ensures
        last_candidate(
            output.layer_map.layers@,
            Layer::Overlay,
            relative,
            false,
            output.layer_map.layers@.len() as int,
        ) matches Some(top) && top >= i && output.layer_map.layers@[top].layer == Layer::Overlay
            && spec_surface_under(global, relative, output, geo, workspace, windows) == layer_hit(
            output,
            geo,
            top,
            global,
        ) && (layer_hit(output, geo, top, global) matches Some(hit) ==> exists|r: int|
            0 <= r < output.layer_map.layers@[top].surfaces@.len() && (
            #[trigger] output.layer_map.layers@[top].surfaces@[r]).surface == hit.surface),
{
    crate::desktop::layer::lemma_last_candidate(
        output.layer_map.layers@,
        Layer::Overlay,
        relative,
        false,
        output.layer_map.layers@.len() as int,
    );
    let top = last_candidate(
        output.layer_map.layers@,
        Layer::Overlay,
        relative,
        false,
        output.layer_map.layers@.len() as int,
    )->0;
    let layer = output.layer_map.layers@[top];
    crate::desktop::lemma_region_under(
        layer.surfaces@,
        global.minus(geo.loc).minus(layer.geometry.loc),
    );
}

} // verus!
