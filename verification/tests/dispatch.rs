use input_routing::bindings::{Action, FocusDirection, KeyBinding, Modifiers, Orientation};
use input_routing::devices::CapabilitySet;
use input_routing::events::{DispatchError, Effect, InputEvent, KEY_REPEAT_DELAY, KEY_REPEAT_RATE};
use input_routing::geometry::{Location, Point, Position, Rect};
use input_routing::hit_test::Hit;
use input_routing::keyboard::KeyVerdict;
use input_routing::scene::{
    Layer, LayerMap, LayerSurface, Output, Screen, Space, SurfaceKind, SurfaceRegion, Window,
};
use input_routing::scroll::{AxisFrame, AxisInput, AxisReport, AxisSource, FrameSource};
use input_routing::seat::{add_seat, ActiveOutput};
use input_routing::state::{Common, Interceptor, Overlay};

const KEY_Q: u32 = 0x71;
const KEY_1: u32 = 0x31;
const CODE_Q: u32 = 24;

fn px(x: i64, y: i64) -> Position {
    Position { x: x * 256, y: y * 256 }
}

fn logo() -> Modifiers {
    Modifiers { ctrl: false, alt: false, shift: false, logo: true }
}

fn window(surface: u64, x: i32, y: i32, w: u32, h: u32) -> Window {
    Window {
        geometry: Rect { x, y, w, h },
        regions: vec![SurfaceRegion {
            surface,
            kind: SurfaceKind::Toplevel,
            area: Rect { x: 0, y: 0, w, h },
        }],
        pending_move: None,
    }
}

fn screen(id: u64, x: i32, windows: Vec<Window>) -> Screen {
    Screen {
        output: Output {
            id,
            geometry: Rect { x, y: 0, w: 1000, h: 800 },
            layers: LayerMap { surfaces: Vec::new() },
        },
        space: Space { output_geometry: Rect { x: 0, y: 0, w: 1000, h: 800 }, windows },
    }
}

fn bindings() -> Vec<KeyBinding> {
    vec![
        KeyBinding { modifiers: logo(), key: KEY_Q, action: Action::CloseFocused },
        KeyBinding { modifiers: logo(), key: KEY_1, action: Action::SwitchWorkspace(1) },
    ]
}

fn state() -> Common {
    Common::new(
        vec![add_seat(String::from("seat-0")), add_seat(String::from("seat-1"))],
        0,
        vec![screen(1, 0, vec![window(10, 100, 100, 200, 200)]), screen(2, 1000, Vec::new())],
        bindings(),
        Overlay::absent(),
    )
}

fn attach(state: &mut Common, device: &str, keyboard: bool, pointer: bool) -> Vec<Effect> {
    state
        .process_input_event(InputEvent::DeviceAdded {
            device: String::from(device),
            capabilities: CapabilitySet { keyboard, pointer },
        })
        .unwrap()
}

fn key(state: &mut Common, device: &str, keycode: u32, pressed: bool, modifiers: Modifiers, sym: u32) -> Vec<Effect> {
    state
        .process_input_event(InputEvent::Keyboard {
            device: String::from(device),
            keycode,
            pressed,
            time: 5,
            modifiers,
            syms: vec![sym],
        })
        .unwrap()
}

fn motion(state: &mut Common, device: &str, dx: i64, dy: i64) -> Vec<Effect> {
    state
        .process_input_event(InputEvent::PointerMotion {
            device: String::from(device),
            delta: Position { x: dx, y: dy },
            time: 9,
        })
        .unwrap()
}

fn button(state: &mut Common, device: &str, pressed: bool) -> Vec<Effect> {
    state
        .process_input_event(InputEvent::PointerButton {
            device: String::from(device),
            button: 0x110,
            pressed,
            time: 11,
        })
        .unwrap()
}

#[test]
fn first_keyboard_device_creates_the_keyboard() {
    let mut s = state();
    let effects = attach(&mut s, "kbd0", true, false);
    assert_eq!(
        effects,
        vec![Effect::AddKeyboard { seat: 0, repeat_delay: 200, repeat_rate: 25 }]
    );
    assert_eq!(KEY_REPEAT_DELAY, 200);
    assert_eq!(KEY_REPEAT_RATE, 25);
    assert!(s.seats[0].keyboard);
    assert!(!s.seats[0].pointer);
    assert_eq!(s.seats[0].active_output, Some(ActiveOutput(1)));
    assert!(s.seats[0].devices.has_device(&String::from("kbd0")));
    assert_eq!(attach(&mut s, "kbd1", true, false), Vec::new());
}

#[test]
fn a_device_with_both_capabilities_creates_keyboard_then_pointer() {
    let mut s = state();
    let effects = attach(&mut s, "combo", true, true);
    assert_eq!(
        effects,
        vec![
            Effect::AddKeyboard { seat: 0, repeat_delay: 200, repeat_rate: 25 },
            Effect::AddPointer { seat: 0 },
        ]
    );
    assert!(s.seats[0].keyboard && s.seats[0].pointer);
}

#[test]
fn devices_go_to_the_seat_that_receives_new_devices() {
    let mut s = state();
    s.last_active_seat = 1;
    assert_eq!(attach(&mut s, "mouse", false, true), vec![Effect::AddPointer { seat: 1 }]);
    assert!(s.seats[1].pointer);
    assert!(!s.seats[0].pointer);
    assert_eq!(s.seat_of_device(&String::from("mouse")), Some(1));
    assert_eq!(s.seat_of_device(&String::from("other")), None);
}

#[test]
fn a_device_without_capabilities_changes_no_capability() {
    let mut s = state();
    assert_eq!(attach(&mut s, "touch", false, false), Vec::new());
    assert_eq!(s.seats[0].active_output, None);
    assert!(s.seats[0].devices.has_device(&String::from("touch")));
}

#[test]
fn last_device_tears_the_capability_down() {
    let mut s = state();
    attach(&mut s, "kbd0", true, false);
    attach(&mut s, "kbd1", true, false);
    attach(&mut s, "mouse", false, true);
    let gone = |s: &mut Common, d: &str| {
        s.process_input_event(InputEvent::DeviceRemoved { device: String::from(d) }).unwrap()
    };
    assert_eq!(gone(&mut s, "kbd0"), Vec::new());
    assert!(s.seats[0].keyboard);
    assert_eq!(gone(&mut s, "kbd1"), vec![Effect::RemoveKeyboard { seat: 0 }]);
    assert!(!s.seats[0].keyboard);
    assert!(s.seats[0].pointer);
    assert_eq!(gone(&mut s, "mouse"), vec![Effect::RemovePointer { seat: 0 }]);
    assert!(!s.seats[0].pointer);
    assert_eq!(gone(&mut s, "mouse"), Vec::new());
}

#[test]
fn super_q_closes_the_focused_window_and_swallows_the_release() {
    let mut s = state();
    attach(&mut s, "kbd0", true, false);
    s.seats[0].keyboard_focus = Some(10);
    let effects = key(&mut s, "kbd0", CODE_Q, true, logo(), KEY_Q);
    assert_eq!(effects, vec![Effect::CloseFocused { seat: 0, output: 1 }]);
    assert!(s.seats[0].suppressed_keys.contains(CODE_Q));
    assert_eq!(s.seats[0].suppressed_keys.len(), 1);
    let effects = key(&mut s, "kbd0", CODE_Q, false, Modifiers::none(), KEY_Q);
    assert_eq!(effects, Vec::new());
    assert_eq!(s.seats[0].suppressed_keys.len(), 0);
    let effects = key(&mut s, "kbd0", CODE_Q, false, Modifiers::none(), KEY_Q);
    assert_eq!(effects, vec![Effect::Key { seat: 0, keycode: CODE_Q, pressed: false, time: 5 }]);
}

#[test]
fn an_unbound_key_goes_to_the_client() {
    let mut s = state();
    attach(&mut s, "kbd0", true, false);
    let effects = key(&mut s, "kbd0", CODE_Q, true, Modifiers::none(), KEY_Q);
    assert_eq!(effects, vec![Effect::Key { seat: 0, keycode: CODE_Q, pressed: true, time: 5 }]);
    assert_eq!(s.seats[0].suppressed_keys.len(), 0);
    let effects = key(&mut s, "kbd0", CODE_Q, false, Modifiers::none(), KEY_Q);
    assert_eq!(effects, vec![Effect::Key { seat: 0, keycode: CODE_Q, pressed: false, time: 5 }]);
    assert_eq!(s.seats[0].suppressed_keys.len(), 0);
}

#[test]
fn a_binding_does_not_match_a_release() {
    let mut s = state();
    attach(&mut s, "kbd0", true, false);
    let effects = key(&mut s, "kbd0", CODE_Q, false, logo(), KEY_Q);
    assert_eq!(effects, vec![Effect::Key { seat: 0, keycode: CODE_Q, pressed: false, time: 5 }]);
}

#[test]
fn super_1_switches_to_the_first_workspace() {
    let mut s = state();
    attach(&mut s, "kbd0", true, false);
    let effects = key(&mut s, "kbd0", 10, true, logo(), KEY_1);
    assert_eq!(effects, vec![Effect::ActivateWorkspace { seat: 0, output: 1, workspace: 0 }]);
    let held = Modifiers { ctrl: true, ..logo() };
    let effects = key(&mut s, "kbd0", 10, true, held, KEY_1);
    assert_eq!(effects, vec![Effect::Key { seat: 0, keycode: 10, pressed: true, time: 5 }]);
}

#[test]
fn actions_ask_for_their_effects() {
    let mut s = state();
    attach(&mut s, "kbd0", true, false);
    s.seats[0].active_output = Some(ActiveOutput(2));
    let run = |s: &mut Common, a: Action| s.run_action(0, &a);
    assert_eq!(run(&mut s, Action::CloseFocused), vec![Effect::CloseFocused { seat: 0, output: 2 }]);
    assert_eq!(
        run(&mut s, Action::SwitchWorkspace(0)),
        vec![Effect::ActivateWorkspace { seat: 0, output: 2, workspace: 9 }]
    );
    assert_eq!(
        run(&mut s, Action::MoveWindowToWorkspace(4)),
        vec![Effect::MoveWindowToWorkspace { seat: 0, output: 2, workspace: 3 }]
    );
    assert_eq!(
        run(&mut s, Action::MoveFocus(FocusDirection::Up)),
        vec![Effect::MoveFocus { seat: 0, output: 2, direction: FocusDirection::Up }]
    );
    assert_eq!(
        run(&mut s, Action::SetOutputOrientation(Orientation::Vertical)),
        vec![Effect::SetOrientation { seat: 0, output: 2, orientation: Orientation::Vertical }]
    );
    assert_eq!(
        run(&mut s, Action::SpawnCommand(String::from("foot"))),
        vec![Effect::Spawn { command: String::from("foot") }]
    );
    assert!(!s.should_stop);
    assert!(!s.overlay.active);
    assert_eq!(run(&mut s, Action::ToggleDebug), Vec::new());
    assert!(s.overlay.active);
    assert_eq!(run(&mut s, Action::ToggleDebug), Vec::new());
    assert!(!s.overlay.active);
    assert_eq!(run(&mut s, Action::Terminate), Vec::new());
    assert!(s.should_stop);
}

#[test]
fn the_overlay_takes_keys_of_the_first_seat_while_shown() {
    let mut s = state();
    attach(&mut s, "kbd0", true, false);
    s.last_active_seat = 1;
    attach(&mut s, "kbd1", true, false);
    s.overlay = Overlay {
        active: true,
        interceptors: vec![
            Interceptor { wants_keyboard: false, wants_pointer: false },
            Interceptor { wants_keyboard: true, wants_pointer: false },
        ],
    };
    let effects = key(&mut s, "kbd0", CODE_Q, true, logo(), KEY_Q);
    assert_eq!(
        effects,
        vec![Effect::OverlayKey { interceptor: 1, keycode: CODE_Q, pressed: true, modifiers: logo() }]
    );
    assert!(s.seats[0].suppressed_keys.contains(CODE_Q));
    assert_eq!(key(&mut s, "kbd0", CODE_Q, false, logo(), KEY_Q), Vec::new());
    assert_eq!(s.seats[0].suppressed_keys.len(), 0);
    let effects = key(&mut s, "kbd1", CODE_Q, true, logo(), KEY_Q);
    assert_eq!(effects, vec![Effect::CloseFocused { seat: 1, output: 1 }]);
    s.overlay.active = false;
    let effects = key(&mut s, "kbd0", CODE_Q, true, logo(), KEY_Q);
    assert_eq!(effects, vec![Effect::CloseFocused { seat: 0, output: 1 }]);
}

#[test]
fn filter_key_gives_the_verdict() {
    let mut s = state();
    attach(&mut s, "kbd0", true, false);
    let syms = vec![KEY_Q];
    assert_eq!(s.filter_key(0, CODE_Q, true, &logo(), &syms), KeyVerdict::Bound(0));
    assert_eq!(s.filter_key(0, CODE_Q, false, &logo(), &syms), KeyVerdict::Suppressed);
    assert_eq!(s.filter_key(0, CODE_Q, false, &logo(), &syms), KeyVerdict::Forward);
    assert_eq!(s.filter_key(0, CODE_Q, true, &Modifiers::none(), &syms), KeyVerdict::Forward);
    assert_eq!(s.filter_key(0, 10, true, &logo(), &vec![KEY_1]), KeyVerdict::Bound(1));
}

#[test]
fn events_of_unknown_devices_are_dropped() {
    let mut s = state();
    attach(&mut s, "kbd0", true, true);
    assert_eq!(key(&mut s, "ghost", CODE_Q, true, logo(), KEY_Q), Vec::new());
    assert_eq!(motion(&mut s, "ghost", 10, 10), Vec::new());
    assert_eq!(button(&mut s, "ghost", true), Vec::new());
    assert_eq!(s.seats[0].suppressed_keys.len(), 0);
    assert_eq!(s.seats[0].pointer_location, px(0, 0));
    assert_eq!(s.process_input_event(InputEvent::Other), Ok(Vec::new()));
}

#[test]
fn a_missing_capability_is_a_fault() {
    let mut s = state();
    attach(&mut s, "kbd0", true, false);
    let result = s.process_input_event(InputEvent::PointerMotion {
        device: String::from("kbd0"),
        delta: px(1, 1),
        time: 0,
    });
    assert_eq!(result, Err(DispatchError::MissingPointer { seat: 0 }));
    let result = s.process_input_event(InputEvent::PointerButton {
        device: String::from("kbd0"),
        button: 1,
        pressed: true,
        time: 0,
    });
    assert_eq!(result, Err(DispatchError::MissingPointer { seat: 0 }));
    s.last_active_seat = 1;
    attach(&mut s, "mouse", false, true);
    let result = s.process_input_event(InputEvent::Keyboard {
        device: String::from("mouse"),
        keycode: 1,
        pressed: true,
        time: 0,
        modifiers: Modifiers::none(),
        syms: Vec::new(),
    });
    assert_eq!(result, Err(DispatchError::MissingKeyboard { seat: 1 }));
}

#[test]
fn motion_reports_the_surface_under_the_pointer() {
    let mut s = state();
    attach(&mut s, "mouse", false, true);
    let effects = motion(&mut s, "mouse", 150 * 256, 150 * 256 + 64);
    let position = Position { x: 150 * 256, y: 150 * 256 + 64 };
    assert_eq!(
        effects,
        vec![Effect::Motion {
            seat: 0,
            position,
            under: Some(Hit {
                surface: 10,
                offset: Position { x: 50 * 256, y: 50 * 256 + 64 },
                location: Location { x: 100, y: 100 },
            }),
            time: 9,
        }]
    );
    assert_eq!(s.seats[0].pointer_location, position);
    let effects = motion(&mut s, "mouse", 500 * 256, 0);
    assert_eq!(
        effects,
        vec![Effect::Motion {
            seat: 0,
            position: Position { x: 650 * 256, y: 150 * 256 + 64 },
            under: None,
            time: 9,
        }]
    );
}

#[test]
fn the_pointer_is_clamped_to_the_output() {
    let mut s = state();
    attach(&mut s, "mouse", false, true);
    motion(&mut s, "mouse", i64::MIN, i64::MIN);
    assert_eq!(s.seats[0].pointer_location, px(0, 0));
    motion(&mut s, "mouse", 10 * 256, i64::MAX);
    assert_eq!(s.seats[0].pointer_location, px(10, 800));
    motion(&mut s, "mouse", i64::MAX, i64::MAX);
    assert_eq!(s.seats[0].pointer_location, px(1000, 800));
    assert_eq!(s.seats[0].active_output, Some(ActiveOutput(1)));
    motion(&mut s, "mouse", -1_000_000 * 256, -5);
    assert_eq!(s.seats[0].pointer_location, Position { x: 0, y: 800 * 256 - 5 });
}

#[test]
fn crossing_into_another_output_makes_it_the_active_one() {
    let mut s = state();
    attach(&mut s, "mouse", false, true);
    assert_eq!(s.seats[0].active_output, Some(ActiveOutput(1)));
    motion(&mut s, "mouse", 1500 * 256, 10 * 256);
    assert_eq!(s.seats[0].active_output, Some(ActiveOutput(2)));
    assert_eq!(s.seats[0].pointer_location, px(1500, 10));
    motion(&mut s, "mouse", 5000 * 256, 0);
    assert_eq!(s.seats[0].pointer_location, px(2000, 10));
    assert_eq!(s.seats[0].active_output, Some(ActiveOutput(2)));
    motion(&mut s, "mouse", -1500 * 256, 0);
    assert_eq!(s.seats[0].active_output, Some(ActiveOutput(1)));
    assert_eq!(s.seats[0].pointer_location, px(500, 10));
}

#[test]
fn motion_on_the_second_output_is_seen_in_its_workspace() {
    let mut s = state();
    s.screens[1].space.windows.push(window(20, 0, 0, 300, 300));
    attach(&mut s, "mouse", false, true);
    let effects = motion(&mut s, "mouse", 1100 * 256, 50 * 256);
    assert_eq!(
        effects,
        vec![Effect::Motion {
            seat: 0,
            position: px(1100, 50),
            under: Some(Hit {
                surface: 20,
                offset: px(100, 50),
                location: Location { x: 1000, y: 0 },
            }),
            time: 9,
        }]
    );
}

#[test]
fn absolute_motion_stays_on_the_active_output() {
    let mut s = state();
    attach(&mut s, "tablet", false, true);
    s.seats[0].active_output = Some(ActiveOutput(2));
    let effects = s
        .process_input_event(InputEvent::PointerMotionAbsolute {
            device: String::from("tablet"),
            position: px(250, 300),
            time: 3,
        })
        .unwrap();
    assert_eq!(
        effects,
        vec![Effect::Motion { seat: 0, position: px(1250, 300), under: None, time: 3 }]
    );
    assert_eq!(s.seats[0].pointer_location, px(1250, 300));
    assert_eq!(s.seats[0].active_output, Some(ActiveOutput(2)));
}

#[test]
fn motion_carries_a_moving_window_along() {
    let mut s = state();
    s.screens[0].space.windows.push(window(11, 0, 0, 50, 50));
    s.screens[0].space.windows[0].pending_move = Some(Point { x: 300, y: 400 });
    attach(&mut s, "mouse", false, true);
    motion(&mut s, "mouse", 150 * 256, 150 * 256);
    let windows = &s.screens[0].space.windows;
    assert_eq!(windows[0].regions[0].surface, 11);
    assert_eq!(windows[1].regions[0].surface, 10);
    assert_eq!(windows[1].geometry, Rect { x: 300, y: 400, w: 200, h: 200 });
}

#[test]
fn the_first_seat_reports_motion_to_the_overlay() {
    let mut s = state();
    s.overlay.interceptors.push(Interceptor { wants_keyboard: false, wants_pointer: false });
    attach(&mut s, "mouse", false, true);
    let effects = motion(&mut s, "mouse", 600 * 256 + 128, 20 * 256 + 127);
    assert_eq!(
        effects,
        vec![
            Effect::Motion {
                seat: 0,
                position: Position { x: 600 * 256 + 128, y: 20 * 256 + 127 },
                under: None,
                time: 9,
            },
            Effect::OverlayMotion { location: Location { x: 601, y: 20 } },
        ]
    );
}

#[test]
fn a_press_moves_the_keyboard_focus() {
    let mut s = state();
    attach(&mut s, "mouse", false, true);
    motion(&mut s, "mouse", 150 * 256, 150 * 256);
    let effects = button(&mut s, "mouse", true);
    assert_eq!(
        effects,
        vec![
            Effect::KeyboardFocus { seat: 0, surface: 10 },
            Effect::Button { seat: 0, button: 0x110, pressed: true, time: 11 },
        ]
    );
    assert_eq!(s.seats[0].keyboard_focus, Some(10));
    let effects = button(&mut s, "mouse", false);
    assert_eq!(effects, vec![Effect::Button { seat: 0, button: 0x110, pressed: false, time: 11 }]);
}

#[test]
fn a_press_on_nothing_leaves_the_focus() {
    let mut s = state();
    attach(&mut s, "mouse", false, true);
    s.seats[0].keyboard_focus = Some(10);
    motion(&mut s, "mouse", 700 * 256, 700 * 256);
    let effects = button(&mut s, "mouse", true);
    assert_eq!(effects, vec![Effect::Button { seat: 0, button: 0x110, pressed: true, time: 11 }]);
    assert_eq!(s.seats[0].keyboard_focus, Some(10));
}

#[test]
fn a_press_on_a_layer_that_refuses_focus_leaves_the_focus() {
    let mut s = state();
    s.screens[0].output.layers.surfaces.push(LayerSurface {
        layer: Layer::Top,
        geometry: Rect { x: 0, y: 0, w: 1000, h: 30 },
        accepts_keyboard_focus: false,
        regions: vec![SurfaceRegion {
            surface: 50,
            kind: SurfaceKind::Toplevel,
            area: Rect { x: 0, y: 0, w: 1000, h: 30 },
        }],
    });
    attach(&mut s, "mouse", false, true);
    s.seats[0].keyboard_focus = Some(10);
    motion(&mut s, "mouse", 10 * 256, 10 * 256);
    let effects = button(&mut s, "mouse", true);
    assert_eq!(effects, vec![Effect::Button { seat: 0, button: 0x110, pressed: true, time: 11 }]);
    assert_eq!(s.seats[0].keyboard_focus, Some(10));
}

#[test]
fn a_press_under_a_grab_leaves_the_focus() {
    let mut s = state();
    attach(&mut s, "mouse", false, true);
    motion(&mut s, "mouse", 150 * 256, 150 * 256);
    s.seats[0].pointer_grabbed = true;
    let effects = button(&mut s, "mouse", true);
    assert_eq!(effects, vec![Effect::Button { seat: 0, button: 0x110, pressed: true, time: 11 }]);
    assert_eq!(s.seats[0].keyboard_focus, None);
}

#[test]
fn the_overlay_takes_buttons_and_scrolling_of_the_first_seat() {
    let mut s = state();
    attach(&mut s, "mouse", false, true);
    s.overlay = Overlay {
        active: true,
        interceptors: vec![Interceptor { wants_keyboard: false, wants_pointer: true }],
    };
    motion(&mut s, "mouse", 150 * 256, 150 * 256);
    let effects = button(&mut s, "mouse", true);
    assert_eq!(effects, vec![Effect::OverlayButton { interceptor: 0, button: 0x110, pressed: true }]);
    assert_eq!(s.seats[0].keyboard_focus, None);
    let steps = AxisInput { amount: None, discrete: Some(1) };
    let none = AxisInput { amount: None, discrete: None };
    let effects = s
        .process_input_event(InputEvent::PointerAxis {
            device: String::from("mouse"),
            source: AxisSource::Wheel,
            horizontal: none,
            vertical: steps,
            time: 1,
        })
        .unwrap();
    assert_eq!(
        effects,
        vec![Effect::OverlayAxis { interceptor: 0, horizontal: none, vertical: steps }]
    );
}

#[test]
fn scrolling_yields_one_frame() {
    let mut s = state();
    attach(&mut s, "mouse", false, true);
    let effects = s
        .process_input_event(InputEvent::PointerAxis {
            device: String::from("mouse"),
            source: AxisSource::WheelTilt,
            horizontal: AxisInput { amount: None, discrete: None },
            vertical: AxisInput { amount: None, discrete: Some(1) },
            time: 77,
        })
        .unwrap();
    assert_eq!(
        effects,
        vec![Effect::Axis {
            seat: 0,
            frame: AxisFrame {
                time: 77,
                source: FrameSource::Wheel,
                horizontal: AxisReport { value: None, discrete: None, stop: false },
                vertical: AxisReport { value: Some(768), discrete: Some(1), stop: false },
            },
        }]
    );
    let effects = s
        .pointer_axis(
            &String::from("mouse"),
            AxisSource::Finger,
            AxisInput { amount: Some(0), discrete: None },
            AxisInput { amount: Some(-512), discrete: None },
            78,
        )
        .unwrap();
    assert_eq!(
        effects,
        vec![Effect::Axis {
            seat: 0,
            frame: AxisFrame {
                time: 78,
                source: FrameSource::Finger,
                horizontal: AxisReport { value: None, discrete: None, stop: true },
                vertical: AxisReport { value: Some(-512), discrete: None, stop: false },
            },
        }]
    );
}
