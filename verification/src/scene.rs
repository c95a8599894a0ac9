//! What an output shows, as far as routing input needs to know it: the
//! surfaces of its four layers and the windows of the workspace on it, each
//! with its place.

use vstd::prelude::*;
use crate::geometry::{Point, Rect};

verus! {

/// The four bands of layer surfaces, from the lowest to the topmost. Windows
/// lie between `Bottom` and `Top`.
#[derive(Clone, Copy, Debug, PartialEq, Eq, Structural)]
pub enum Layer {
    Background,
    Bottom,
    Top,
    Overlay,
}

/// The part that a surface plays within a window or a layer surface.
#[derive(Clone, Copy, Debug, PartialEq, Eq, Structural)]
pub enum SurfaceKind {
    Toplevel,
    Subsurface,
    Popup,
}

/// One client surface of a window or layer surface, and the area in which it
/// takes input. The area is given from the origin of the item it belongs to.
#[derive(Clone, Copy, Debug, PartialEq, Eq, Structural)]
pub struct SurfaceRegion {
    pub surface: u64,
    pub kind: SurfaceKind,
    pub area: Rect,
}

/// A surface of one of the four layers.
#[derive(Clone, Debug, PartialEq, Eq)]
pub struct LayerSurface {
    pub layer: Layer,
    /// The place and extent, from the output's origin.
    pub geometry: Rect,
    pub accepts_keyboard_focus: bool,
    /// The client surfaces, the topmost first.
    pub regions: Vec<SurfaceRegion>,
}

/// The layer surfaces of one output, from the lowest to the topmost within
/// each layer.
#[derive(Clone, Debug, PartialEq, Eq)]
pub struct LayerMap {
    pub surfaces: Vec<LayerSurface>,
}

/// A window of a workspace.
#[derive(Clone, Debug, PartialEq, Eq)]
pub struct Window {
    /// The place and extent, in the workspace's coordinates.
    pub geometry: Rect,
    /// The client surfaces, the topmost first.
    pub regions: Vec<SurfaceRegion>,
    /// Where a move in progress wants the window to be, if one is in progress.
    pub pending_move: Option<Point>,
}

/// The workspace that an output shows.
#[derive(Clone, Debug, PartialEq, Eq)]
pub struct Space {
    /// The part of the workspace's coordinates that the output shows.
    pub output_geometry: Rect,
    /// The windows in stacking order, from the lowest to the topmost.
    pub windows: Vec<Window>,
}

/// A monitor.
#[derive(Clone, Debug, PartialEq, Eq)]
pub struct Output {
    pub id: u64,
    /// The place and extent in the coordinates that all outputs share.
    pub geometry: Rect,
    pub layers: LayerMap,
}

/// An output together with the workspace that it shows.
#[derive(Clone, Debug, PartialEq, Eq)]
pub struct Screen {
    pub output: Output,
    pub space: Space,
}

} // verus!
