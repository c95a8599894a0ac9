use input_routing::geometry::{Location, Point, Position, Rect};
use input_routing::hit_test::{
    region_under, target_origin, target_region, target_regions, target_under, Hit, Target,
};
use input_routing::scene::{
    Layer, LayerMap, LayerSurface, Output, Space, SurfaceKind, SurfaceRegion, Window,
};
use input_routing::state::Common;
use input_routing::windows::{handle_window_movement, has_surface};

fn px(x: i64, y: i64) -> Position {
    Position { x: x * 256, y: y * 256 }
}

fn rect(x: i32, y: i32, w: u32, h: u32) -> Rect {
    Rect { x, y, w, h }
}

fn whole(surface: u64, w: u32, h: u32) -> Vec<SurfaceRegion> {
    vec![SurfaceRegion { surface, kind: SurfaceKind::Toplevel, area: rect(0, 0, w, h) }]
}

fn layer(layer: Layer, surface: u64, geometry: Rect, focus: bool) -> LayerSurface {
    LayerSurface {
        layer,
        geometry,
        accepts_keyboard_focus: focus,
        regions: whole(surface, geometry.w, geometry.h),
    }
}

fn window(surface: u64, geometry: Rect) -> Window {
    Window { geometry, regions: whole(surface, geometry.w, geometry.h), pending_move: None }
}

fn output(surfaces: Vec<LayerSurface>) -> Output {
    Output { id: 1, geometry: rect(0, 0, 1920, 1080), layers: LayerMap { surfaces } }
}

fn space(windows: Vec<Window>) -> Space {
    Space { output_geometry: rect(0, 0, 1920, 1080), windows }
}

fn under(p: Position, output: &Output, space: &Space) -> Option<Hit> {
    Common::surface_under(p, p, output, space)
}

#[test]
fn overlay_surface_is_returned_over_a_window() {
    let o = output(vec![layer(Layer::Overlay, 100, rect(0, 0, 500, 500), true)]);
    let s = space(vec![window(200, rect(0, 0, 500, 500))]);
    let hit = under(px(50, 50), &o, &s).unwrap();
    assert_eq!(hit.surface, 100);
    assert_eq!(target_under(&o.layers, &s, px(50, 50)), Some(Target::Layer(0)));
}

#[test]
fn window_is_returned_over_a_background_surface() {
    let o = output(vec![
        layer(Layer::Background, 100, rect(0, 0, 1920, 1080), false),
        layer(Layer::Bottom, 101, rect(0, 0, 1920, 1080), false),
    ]);
    let s = space(vec![window(200, rect(100, 100, 300, 300))]);
    assert_eq!(under(px(150, 150), &o, &s).unwrap().surface, 200);
    assert_eq!(under(px(50, 50), &o, &s).unwrap().surface, 101);
}

#[test]
fn bottom_is_asked_before_background() {
    let o = output(vec![
        layer(Layer::Bottom, 101, rect(0, 0, 100, 100), false),
        layer(Layer::Background, 100, rect(0, 0, 1920, 1080), false),
    ]);
    let s = space(Vec::new());
    assert_eq!(under(px(50, 50), &o, &s).unwrap().surface, 101);
    assert_eq!(under(px(500, 500), &o, &s).unwrap().surface, 100);
}

#[test]
fn overlay_is_asked_before_top() {
    let o = output(vec![
        layer(Layer::Overlay, 1, rect(0, 0, 100, 100), true),
        layer(Layer::Top, 2, rect(0, 0, 200, 200), true),
    ]);
    let s = space(vec![window(3, rect(0, 0, 300, 300))]);
    assert_eq!(under(px(50, 50), &o, &s).unwrap().surface, 1);
    assert_eq!(under(px(150, 150), &o, &s).unwrap().surface, 2);
    assert_eq!(under(px(250, 250), &o, &s).unwrap().surface, 3);
}

#[test]
fn topmost_window_wins() {
    let o = output(Vec::new());
    let s = space(vec![window(1, rect(0, 0, 300, 300)), window(2, rect(100, 100, 300, 300))]);
    assert_eq!(under(px(150, 150), &o, &s).unwrap().surface, 2);
    assert_eq!(under(px(50, 50), &o, &s).unwrap().surface, 1);
    assert_eq!(s.window_under(px(150, 150)), Some(1));
    assert_eq!(s.window_under(px(1000, 1000)), None);
}

#[test]
fn topmost_surface_of_a_layer_wins() {
    let o = output(vec![
        layer(Layer::Top, 1, rect(0, 0, 300, 300), true),
        layer(Layer::Top, 2, rect(0, 0, 300, 300), true),
        layer(Layer::Bottom, 3, rect(0, 0, 300, 300), true),
    ]);
    let origin = Location { x: 0, y: 0 };
    assert_eq!(o.layers.layer_under(Layer::Top, origin, px(1, 1)), Some(1));
    assert_eq!(o.layers.layer_under(Layer::Bottom, origin, px(1, 1)), Some(2));
    assert_eq!(o.layers.layer_under(Layer::Overlay, origin, px(1, 1)), None);
    assert_eq!(o.layers.layer_under_either(Layer::Overlay, Layer::Top, origin, px(1, 1)), Some(1));
}

#[test]
fn nothing_under_the_pointer_is_no_error() {
    let o = output(Vec::new());
    let s = space(vec![window(1, rect(10, 10, 10, 10))]);
    assert_eq!(under(px(500, 500), &o, &s), None);
    assert_eq!(target_under(&o.layers, &s, px(500, 500)), None);
}

#[test]
fn an_item_without_a_surface_at_the_place_ends_the_search() {
    let mut panel = layer(Layer::Top, 1, rect(0, 0, 400, 400), true);
    panel.regions = vec![SurfaceRegion {
        surface: 1,
        kind: SurfaceKind::Toplevel,
        area: rect(0, 0, 100, 100),
    }];
    let o = output(vec![panel]);
    let s = space(vec![window(2, rect(0, 0, 400, 400))]);
    assert_eq!(under(px(50, 50), &o, &s).unwrap().surface, 1);
    assert_eq!(under(px(200, 200), &o, &s), None);
}

#[test]
fn location_composes_the_origins() {
    let mut panel = layer(Layer::Top, 7, rect(100, 200, 400, 50), true);
    panel.regions = vec![
        SurfaceRegion { surface: 8, kind: SurfaceKind::Popup, area: rect(10, 50, 100, 100) },
        SurfaceRegion { surface: 7, kind: SurfaceKind::Toplevel, area: rect(0, 0, 400, 50) },
    ];
    panel.geometry = rect(100, 200, 400, 150);
    let o = output(vec![panel]);
    let s = space(Vec::new());
    let hit = under(px(120, 210), &o, &s).unwrap();
    assert_eq!(hit, Hit { surface: 7, offset: px(20, 10), location: Location { x: 100, y: 200 } });
    let hit = under(px(120, 260), &o, &s).unwrap();
    assert_eq!(hit, Hit { surface: 8, offset: px(10, 10), location: Location { x: 110, y: 250 } });
}

#[test]
fn location_is_seen_from_the_anchor() {
    let o = output(Vec::new());
    let s = space(vec![window(5, rect(30, 40, 100, 100))]);
    let relative = px(50, 50);
    let anchor = Position { x: relative.x + 1920 * 256 + 100, y: relative.y - 128 };
    let hit = Common::surface_under(anchor, relative, &o, &s).unwrap();
    assert_eq!(hit.surface, 5);
    assert_eq!(hit.offset, px(20, 10));
    assert_eq!(hit.location, Location { x: 30 + 1920, y: 40 - 1 });
}

#[test]
fn layers_lie_in_the_coordinates_of_the_output() {
    let o = output(vec![layer(Layer::Top, 1, rect(0, 0, 100, 100), true)]);
    let s = Space {
        output_geometry: rect(1000, 0, 1920, 1080),
        windows: vec![window(2, rect(0, 0, 100, 100))],
    };
    assert_eq!(
        under(px(1050, 50), &o, &s),
        Some(Hit { surface: 1, offset: px(50, 50), location: Location { x: 1000, y: 0 } })
    );
    assert_eq!(under(px(50, 50), &o, &s).unwrap().surface, 2);
    assert_eq!(under(px(150, 50), &o, &s), None);
}

#[test]
fn offset_counts_sub_pixels_from_the_corner_of_the_surface() {
    let o = output(Vec::new());
    let s = space(vec![window(5, rect(-30, 40, 100, 100))]);
    let p = Position { x: -30 * 256 + 1, y: 40 * 256 + 255 };
    let hit = under(p, &o, &s).unwrap();
    assert_eq!(hit.offset, Position { x: 1, y: 255 });
    assert_eq!(hit.location, Location { x: -30, y: 40 });
    assert_eq!(target_origin(&o.layers, &s, Target::Window(0)), Location { x: -30, y: 40 });
    assert_eq!(target_regions(&o.layers, &s, Target::Window(0)).len(), 1);
    assert_eq!(target_region(&o.layers, &s, p, Target::Window(0), false), Some(0));
}

#[test]
fn focus_goes_to_the_topmost_hit_if_it_accepts_it() {
    let o = output(vec![
        layer(Layer::Top, 1, rect(0, 0, 100, 100), false),
        layer(Layer::Top, 2, rect(200, 0, 100, 100), true),
        layer(Layer::Background, 3, rect(0, 0, 1920, 1080), true),
    ]);
    let s = space(vec![window(4, rect(0, 0, 150, 150))]);
    assert_eq!(Common::focus_under(px(50, 50), &o, &s), None);
    assert_eq!(Common::focus_under(px(250, 50), &o, &s), Some(2));
    assert_eq!(Common::focus_under(px(120, 120), &o, &s), Some(4));
    assert_eq!(Common::focus_under(px(500, 500), &o, &s), Some(3));
}

#[test]
fn focus_passes_over_the_popups_of_a_window() {
    let mut w = window(4, rect(0, 0, 300, 300));
    w.regions = vec![
        SurfaceRegion { surface: 5, kind: SurfaceKind::Popup, area: rect(0, 0, 50, 50) },
        SurfaceRegion { surface: 6, kind: SurfaceKind::Subsurface, area: rect(0, 0, 20, 20) },
        SurfaceRegion { surface: 4, kind: SurfaceKind::Toplevel, area: rect(0, 0, 300, 300) },
    ];
    let o = output(Vec::new());
    let s = space(vec![w]);
    assert_eq!(under(px(10, 10), &o, &s).unwrap().surface, 5);
    assert_eq!(Common::focus_under(px(10, 10), &o, &s), Some(6));
    assert_eq!(Common::focus_under(px(30, 30), &o, &s), Some(4));
    let origin = Location { x: 0, y: 0 };
    assert_eq!(region_under(&s.windows[0].regions, true, origin, px(10, 10)), Some(0));
    assert_eq!(region_under(&s.windows[0].regions, false, origin, px(10, 10)), Some(1));
    assert_eq!(region_under(&s.windows[0].regions, false, origin, px(400, 10)), None);
}

#[test]
fn a_pending_move_puts_the_window_on_top() {
    let mut a = window(1, rect(0, 0, 100, 100));
    a.pending_move = Some(Point { x: 500, y: 600 });
    let b = window(2, rect(50, 50, 100, 100));
    let mut s = space(vec![a, b]);
    handle_window_movement(Some(1), &mut s);
    assert_eq!(s.windows.len(), 2);
    assert_eq!(s.windows[0].regions[0].surface, 2);
    assert_eq!(s.windows[1].regions[0].surface, 1);
    assert_eq!(s.windows[1].geometry, rect(500, 600, 100, 100));
    assert_eq!(s.windows[1].pending_move, Some(Point { x: 500, y: 600 }));
}

#[test]
fn window_movement_without_cause_changes_nothing() {
    let mut a = window(1, rect(0, 0, 100, 100));
    a.pending_move = Some(Point { x: 500, y: 600 });
    let b = window(2, rect(50, 50, 100, 100));
    let before = space(vec![a, b]);
    let mut s = before.clone();
    handle_window_movement(None, &mut s);
    assert_eq!(s, before);
    handle_window_movement(Some(2), &mut s);
    assert_eq!(s, before);
    handle_window_movement(Some(99), &mut s);
    assert_eq!(s, before);
    assert_eq!(s.window_for_surface(2), Some(1));
    assert_eq!(s.window_for_surface(99), None);
    assert!(has_surface(&s.windows[0], 1));
    assert!(!has_surface(&s.windows[0], 2));
}
