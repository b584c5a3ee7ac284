//! The floating window stack: which windows are mapped, where, and in what
//! order, and which outputs the space spans.

use vstd::prelude::*;

use crate::desktop::{spec_offset_hit, spec_region_under, SurfaceId, Window, WindowId};
use crate::seqs::{lemma_filter_all, lemma_filter_end, lemma_filter_start, lemma_filter_step};
use crate::utils::Point;

verus! {

/// A window's entry in the stack.
#[derive(Clone, Copy, Debug, PartialEq, Eq, Structural)]
pub struct MappedWindow {
    pub window: WindowId,
    /// Where the window's content starts, in the space.
    pub location: Point,
    /// Stacking band: entries are kept in the order of their bands.
    pub z_index: u8,
}

/// The stack, lowest entry first, and the names of the outputs mapped into
/// the space.
pub struct Space {
    pub outputs: Vec<String>,
    pub windows: Vec<MappedWindow>,
}

/// A hit in the stack: the window, the surface, and the surface's origin in
/// the space.
pub type StackHit = (WindowId, SurfaceId, Point);

/// The index of the first entry at or after `from` that belongs to `window`.
pub open spec fn entry_of_from(entries: Seq<MappedWindow>, window: WindowId, from: int) -> Option<int>
    decreases entries.len() - from,
{
    if from < 0 || from >= entries.len() {
        None
    } else if entries[from].window == window {
        Some(from)
    } else {
        entry_of_from(entries, window, from + 1)
    }
}

/// Where the first entry at or after `from` in a higher band than `z` is;
/// the length if there is none.
pub open spec fn band_end_from(entries: Seq<MappedWindow>, z: u8, from: int) -> int
    decreases entries.len() - from,
{
    if from < 0 || from >= entries.len() {
        entries.len() as int
    } else if entries[from].z_index > z {
        from
    } else {
        band_end_from(entries, z, from + 1)
    }
}

/// What one entry answers at `p`: the hit in its window's surface tree,
/// moved to the space. An entry whose window is gone or not in the table
/// answers nothing.
pub open spec fn entry_hit(entry: MappedWindow, windows: Seq<Window>, p: Point) -> Option<StackHit> {
    if entry.window.0 < windows.len() && windows[entry.window.0 as int].alive {
        let w = windows[entry.window.0 as int];
        let origin = entry.location.minus(w.geometry.loc);
        match spec_offset_hit(spec_region_under(w.surfaces@, p.minus(origin)), origin) {
            Some(h) => Some((entry.window, h.surface, h.location)),
            None => None,
        }
    } else {
        None
    }
}

/// The hit of the topmost entry below `upto` that answers at `p`.
pub open spec fn stack_hit_below(
    entries: Seq<MappedWindow>,
    windows: Seq<Window>,
    p: Point,
    upto: int,
) -> Option<StackHit>
    decreases upto,
{
    if upto <= 0 || upto > entries.len() {
        None
    } else if entry_hit(entries[upto - 1], windows, p) is Some {
        entry_hit(entries[upto - 1], windows, p)
    } else {
        stack_hit_below(entries, windows, p, upto - 1)
    }
}

impl Space {
    pub fn new() -> (s: Space)
        ensures
            s.outputs@ == Seq::<String>::empty(),
            s.windows@ == Seq::<MappedWindow>::empty(),
    {
        Space { outputs: Vec::new(), windows: Vec::new() }
    }

    /// The names of the outputs mapped into the space.
    pub open spec fn output_names(self) -> Seq<Seq<char>> {
        self.outputs@.map_values(|s: String| s@)
    }

    pub open spec fn spec_has_output(self, name: Seq<char>) -> bool {
        self.output_names().contains(name)
    }

    pub open spec fn spec_window_location(self, window: WindowId) -> Option<Point> {
        match entry_of_from(self.windows@, window, 0) {
            Some(i) => Some(self.windows@[i].location),
            None => None,
        }
    }

    /// The stack without the entries of `window`.
    pub open spec fn without(self, window: WindowId) -> Seq<MappedWindow> {
        self.windows@.filter(|m: MappedWindow| m.window != window)
    }

    /// The stack after `window` is mapped at `location` in band `z_index`:
    /// any earlier entry of it is gone, and the new one is on top of its
    /// band.
    pub open spec fn with_mapped(self, window: WindowId, location: Point, z_index: u8) -> Seq<
        MappedWindow,
    > {
        let rest = self.without(window);
        rest.insert(band_end_from(rest, z_index, 0), MappedWindow { window, location, z_index })
    }

    pub open spec fn spec_surface_under(self, windows: Seq<Window>, p: Point) -> Option<StackHit> {
        stack_hit_below(self.windows@, windows, p, self.windows@.len() as int)
    }

    pub fn has_output(&self, name: &String) -> (b: bool)
        ensures
            b == self.spec_has_output(name@),
    {
        let mut i: usize = 0;
        while i < self.outputs.len()
            invariant
                i <= self.outputs.len(),
                forall|j: int| 0 <= j < i ==> self.output_names()[j] != name@,
            decreases self.outputs.len() - i,
        {
            if self.outputs[i] == *name {
                assert(self.output_names()[i as int] == name@);
                return true;
            }
            i += 1;
        }
        false
    }

    /// Maps an output into the space; one that is mapped already stays once.
    pub fn map_output(&mut self, name: &String)
        ensures
            final(self).windows == old(self).windows,
            final(self).output_names() == if old(self).spec_has_output(name@) {
                old(self).output_names()
            } else {
                old(self).output_names().push(name@)
            },
    {
        if !self.has_output(name) {
            self.outputs.push(name.clone());
        }
    }

    /// Takes an output out of the space.
    pub fn unmap_output(&mut self, name: &String)
        ensures
            final(self).windows == old(self).windows,
            final(self).output_names() == old(self).output_names().filter(
                |n: Seq<char>| n != name@,
            ),
    {
        let ghost pred = |n: Seq<char>| n != name@;
        let ghost names = self.output_names();
        let mut kept: Vec<String> = Vec::new();
        let mut i: usize = 0;
        proof {
            lemma_filter_start(names, pred);
        }
        while i < self.outputs.len()
            invariant
                i <= self.outputs.len(),
                names == self.output_names(),
                pred == (|n: Seq<char>| n != name@),
                kept@.map_values(|s: String| s@) == names.take(i as int).filter(pred),
            decreases self.outputs.len() - i,
        {
            proof {
                lemma_filter_step(names, pred, i as int);
            }
            if self.outputs[i] != *name {
                kept.push(self.outputs[i].clone());
                assert(kept@.map_values(|s: String| s@) =~= names.take(i as int).filter(pred).push(
                    names[i as int],
                ));
            }
            i += 1;
        }
        proof {
            lemma_filter_end(names, pred);
        }
        self.outputs = kept;
    }

    pub fn window_location(&self, window: WindowId) -> (r: Option<Point>)
        ensures
            r == self.spec_window_location(window),
    {
        let mut i: usize = 0;
        while i < self.windows.len()
            invariant
                i <= self.windows.len(),
                entry_of_from(self.windows@, window, 0) == entry_of_from(
                    self.windows@,
                    window,
                    i as int,
                ),
            decreases self.windows.len() - i,
        {
            if self.windows[i].window.0 == window.0 {
                return Some(self.windows[i].location);
            }
            i += 1;
        }
        None
    }

    /// Takes a window out of the stack.
    pub fn unmap_window(&mut self, window: WindowId)
        ensures
            final(self).outputs == old(self).outputs,
            final(self).windows@ == old(self).without(window),
    {
        let ghost pred = |m: MappedWindow| m.window != window;
        let ghost entries = self.windows@;
        let mut kept: Vec<MappedWindow> = Vec::new();
        let mut i: usize = 0;
        proof {
            lemma_filter_start(entries, pred);
        }
        while i < self.windows.len()
            invariant
                i <= self.windows.len(),
                entries == self.windows@,
                pred == (|m: MappedWindow| m.window != window),
                kept@ == entries.take(i as int).filter(pred),
            decreases self.windows.len() - i,
        {
            proof {
                lemma_filter_step(entries, pred, i as int);
            }
            if self.windows[i].window.0 != window.0 {
                kept.push(self.windows[i]);
            }
            i += 1;
        }
        proof {
            lemma_filter_end(entries, pred);
        }
        self.windows = kept;
    }

    /// Maps a window at `location`, on top of its band. A window that is
    /// mapped already moves there.
    pub fn map_window(&mut self, window: WindowId, location: Point, z_index: u8)
        ensures
            final(self).outputs == old(self).outputs,
            final(self).windows@ == old(self).with_mapped(window, location, z_index),
    {
        self.unmap_window(window);
        let mut i: usize = 0;
        while i < self.windows.len() && self.windows[i].z_index <= z_index
            invariant
                i <= self.windows.len(),
                band_end_from(self.windows@, z_index, 0) == band_end_from(
                    self.windows@,
                    z_index,
                    i as int,
                ),
            decreases self.windows.len() - i,
        {
            i += 1;
        }
        self.windows.insert(i, MappedWindow { window, location, z_index });
    }

    /// The stack without the entries of windows that are gone.
    pub open spec fn of_alive(self, windows: Seq<Window>) -> Seq<MappedWindow> {
        self.windows@.filter(
            |m: MappedWindow| m.window.0 < windows.len() && windows[m.window.0 as int].alive,
        )
    }

    /// Drops the entries of windows that are gone.
    pub fn refresh(&mut self, windows: &Vec<Window>)
        ensures
            final(self).outputs == old(self).outputs,
            final(self).windows@ == old(self).of_alive(windows@),
    {
        let ghost pred = |m: MappedWindow| m.window.0 < windows.len() && windows[m.window.0 as int].alive;
        let ghost entries = self.windows@;
        let mut kept: Vec<MappedWindow> = Vec::new();
        let mut i: usize = 0;
        proof {
            lemma_filter_start(entries, pred);
        }
        while i < self.windows.len()
            invariant
                i <= self.windows.len(),
                entries == self.windows@,
                pred == (|m: MappedWindow|
                    m.window.0 < windows.len() && windows[m.window.0 as int].alive),
                kept@ == entries.take(i as int).filter(pred),
            decreases self.windows.len() - i,
        {
            proof {
                lemma_filter_step(entries, pred, i as int);
            }
            let w = self.windows[i].window.0;
            if w < windows.len() && windows[w].alive {
                kept.push(self.windows[i]);
            }
            i += 1;
        }
        proof {
            lemma_filter_end(entries, pred);
        }
        self.windows = kept;
    }

    /// The topmost surface of the stack under `p`, with the window it
    /// belongs to and its origin in the space.
    pub fn surface_under(&self, windows: &Vec<Window>, p: Point) -> (hit: Option<StackHit>)
        ensures
            hit == self.spec_surface_under(windows@, p),
    {
        let mut i: usize = self.windows.len();
        while i > 0
            invariant
                i <= self.windows.len(),
                self.spec_surface_under(windows@, p) == stack_hit_below(
                    self.windows@,
                    windows@,
                    p,
                    i as int,
                ),
            decreases i,
        {
            let entry = self.windows[i - 1];
            if entry.window.0 < windows.len() && windows[entry.window.0].alive {
                let w = &windows[entry.window.0];
                let origin = entry.location.saturating_sub(w.geometry.loc);
                match w.surface_under(p.saturating_sub(origin)) {
                    Some(h) => {
                        return Some((entry.window, h.surface, h.location.saturating_add(origin)));
                    },
                    None => {},
                }
            }
            i -= 1;
        }
        None
    }
}

/// A window that was just mapped is found where it was put.
pub proof fn lemma_mapped_location(space: Space, window: WindowId, location: Point, z_index: u8)
    ensures
        entry_of_from(space.with_mapped(window, location, z_index), window, 0) matches Some(i)
            && space.with_mapped(window, location, z_index)[i].location == location,
{
    let pred = |m: MappedWindow| m.window != window;
    let rest = space.without(window);
    let at = band_end_from(rest, z_index, 0);
    let all = space.with_mapped(window, location, z_index);
    lemma_band_end_range(rest, z_index, 0);
    lemma_filter_all(space.windows@, pred);
    lemma_entry_found(all, window, 0, at);
}

pub proof fn lemma_band_end_range(entries: Seq<MappedWindow>, z: u8, from: int)
    requires
        0 <= from <= entries.len(),
    ensures
        from <= band_end_from(entries, z, from) <= entries.len(),
    decreases entries.len() - from,
{
    if from < entries.len() && entries[from].z_index <= z {
        lemma_band_end_range(entries, z, from + 1);
    }
}

proof fn lemma_entry_found(entries: Seq<MappedWindow>, window: WindowId, from: int, at: int)
    requires
        0 <= from <= at < entries.len(),
        entries[at].window == window,
        forall|j: int| from <= j < at ==> entries[j].window != window,
    ensures
        entry_of_from(entries, window, from) == Some(at),
    decreases at - from,
{
    if from < at {
        lemma_entry_found(entries, window, from + 1, at);
    }
}

/// A hit in the stack names a window of the table.
pub proof fn lemma_stack_hit_in_table(
    entries: Seq<MappedWindow>,
    windows: Seq<Window>,
    p: Point,
    upto: int,
)
    ensures
        stack_hit_below(entries, windows, p, upto) matches Some((w, _, _)) ==> w.0 < windows.len(),
    decreases upto,
{
    if 0 < upto <= entries.len() && entry_hit(entries[upto - 1], windows, p) is None {
        lemma_stack_hit_in_table(entries, windows, p, upto - 1);
    }
}

} // verus!
