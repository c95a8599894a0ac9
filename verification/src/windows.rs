//! Moving a window while the pointer drags it.

use vstd::prelude::*;
use crate::geometry::{Point, Rect};
use crate::scene::{Space, SurfaceRegion, Window};

verus! {

/// The place of the first region at or after `from` that belongs to the
/// surface `surface`.
pub open spec fn region_of_surface_from(regions: Seq<SurfaceRegion>, surface: u64, from: int) -> Option<
    int,
>
    decreases regions.len() - from,
{
    if from < 0 || from >= regions.len() {
        None
    } else if regions[from].surface == surface {
        Some(from)
    } else {
        region_of_surface_from(regions, surface, from + 1)
    }
}

/// Whether `surface` is one of the surfaces of `window`.
pub open spec fn window_holds(window: Window, surface: u64) -> bool {
    region_of_surface_from(window.regions@, surface, 0).is_some()
}

/// The place of the first window at or after `from` that `surface` belongs
/// to.
pub open spec fn window_of_surface_from(windows: Seq<Window>, surface: u64, from: int) -> Option<int>
    decreases windows.len() - from,
{
    if from < 0 || from >= windows.len() {
        None
    } else if window_holds(windows[from], surface) {
        Some(from)
    } else {
        window_of_surface_from(windows, surface, from + 1)
    }
}

/// `window` with its corner at `to`.
pub open spec fn spec_window_at(window: Window, to: Point) -> Window {
    Window {
        geometry: Rect { x: to.x, y: to.y, w: window.geometry.w, h: window.geometry.h },
        ..window
    }
}

/// The stacking order after the pointer has come over `surface`: where the
/// surface belongs to a window that is being moved, that window stands where
/// the move wants it and on top of all others; else nothing has changed.
pub open spec fn spec_windows_after_move(windows: Seq<Window>, surface: Option<u64>) -> Seq<Window> {
    match surface {
        None => windows,
        Some(surface) => match window_of_surface_from(windows, surface, 0) {
            None => windows,
            Some(i) => match windows[i].pending_move {
                None => windows,
                Some(to) => windows.remove(i).push(spec_window_at(windows[i], to)),
            },
        },
    }
}

/// Tests whether `surface` is one of the surfaces of `window`.
pub fn has_surface(window: &Window, surface: u64) -> (found: bool)
    ensures
        found == window_holds(*window, surface),
{
    let mut i: usize = 0;
    while i < window.regions.len()
        invariant
            i <= window.regions.len(),
            region_of_surface_from(window.regions@, surface, 0) == region_of_surface_from(
                window.regions@,
                surface,
                i as int,
            ),
        decreases window.regions.len() - i,
    {
        if window.regions[i].surface == surface {
            return true;
        }
        i += 1;
    }
    false
}

impl Space {
    /// Finds the first window that `surface` belongs to.
    pub fn window_for_surface(&self, surface: u64) -> (place: Option<usize>)
        ensures
            match place {
                Some(i) => i < self.windows@.len() && window_of_surface_from(
                    self.windows@,
                    surface,
                    0,
                ) == Some(i as int),
                None => window_of_surface_from(self.windows@, surface, 0).is_none(),
            },
    {
        let mut i: usize = 0;
        while i < self.windows.len()
            invariant
                i <= self.windows.len(),
                window_of_surface_from(self.windows@, surface, 0) == window_of_surface_from(
                    self.windows@,
                    surface,
                    i as int,
                ),
            decreases self.windows.len() - i,
        {
            if has_surface(&self.windows[i], surface) {
                return Some(i);
            }
            i += 1;
        }
        None
    }
}

/// Carries out a pending move of the window that `surface` belongs to, if
/// the pointer is over a surface, the surface belongs to a window of `space`
/// and that window is being moved. The window then stands where the move
/// wants it, on top of all others.
pub fn handle_window_movement(surface: Option<u64>, space: &mut Space)
    ensures
        final(space).windows@ == spec_windows_after_move(old(space).windows@, surface),
        final(space).output_geometry == old(space).output_geometry,
{
    let surface = match surface {
        Some(surface) => surface,
        None => {
            return ;
        },
    };
    let place = match space.window_for_surface(surface) {
        Some(place) => place,
        None => {
            return ;
        },
    };
    let to = match space.windows[place].pending_move {
        Some(to) => to,
        None => {
            return ;
        },
    };
    let mut window = space.windows.remove(place);
    window.geometry.x = to.x;
    window.geometry.y = to.y;
    space.windows.push(window);
}

} // verus!
