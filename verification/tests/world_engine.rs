use tinydfr::button::ButtonImage;
use tinydfr::config::{
    ButtonConfig, Config, IconOutcome, IconSet, LayerType, LayersConfig, TimeConfig, UiConfig,
};
use tinydfr::emitter::EventFrame;
use tinydfr::engine::{InputEvent, ReloadInput, TouchSession, World};
use tinydfr::geometry::ClipRect;
use tinydfr::keys;

fn bc(label: &str, key: &str, mode: &str) -> ButtonConfig {
    ButtonConfig {
        label: label.to_string(),
        key: key.to_string(),
        mode: mode.to_string(),
        theme: String::new(),
    }
}

fn filler_layer(n: usize) -> Vec<ButtonConfig> {
    (0..n).map(|i| bc(&format!("B{}", i), "Key::F1", "text")).collect()
}

fn cfg_with_primary(primary: Vec<ButtonConfig>) -> Config {
    Config {
        ui: UiConfig {
            primary_layer: LayerType::Function,
            secondary_layer: LayerType::Special,
            font: "sans".to_string(),
        },
        time: TimeConfig { use_24_hr: 1 },
        layers: LayersConfig {
            primary_layer_buttons: primary,
            secondary_layer_buttons: filler_layer(12),
            tertiary_layer_buttons: filler_layer(12),
            tertiary2_layer_buttons: filler_layer(12),
            tertiary3_layer_buttons: filler_layer(12),
        },
    }
}

fn no_icons() -> IconSet {
    IconSet {
        primary: Vec::new(),
        secondary: Vec::new(),
        tertiary: Vec::new(),
        tertiary2: Vec::new(),
        tertiary3: Vec::new(),
    }
}

/// A 13-button primary layer whose fourth button is bound to Key::F4.
fn thirteen_button_primary() -> Vec<ButtonConfig> {
    let mut v = filler_layer(13);
    v[3] = bc("Four", "Key::F4", "text");
    v
}

fn standard_world() -> World {
    World::build(&cfg_with_primary(thirteen_button_primary()), &no_icons(), 2170, 60).0.unwrap()
}

fn f4_code() -> u16 {
    input_linux::Key::F4 as u16
}

fn press_release_pair(frames: &[EventFrame], code: u16, value: i32) -> bool {
    frames.len() == 2 && frames[0] == EventFrame { kind: 1, code, value } && frames[1]
        == EventFrame { kind: 0, code: 0, value: 0 }
}

#[test]
fn build_yields_five_layers_with_primary_active() {
    let world = standard_world();
    assert_eq!(world.layers.len(), 5);
    assert_eq!(world.layers[0].buttons.len(), 13);
    assert_eq!(world.active_layer, 0);
    assert_eq!(world.primary_layer, 0);
    assert_eq!(world.secondary_layer, 1);
    assert!(world.needs_complete_redraw);
    assert!(world.sessions.is_empty());
}

#[test]
fn narrow_panel_drops_the_first_button_of_every_layer() {
    let (world, _) = World::build(
        &cfg_with_primary(thirteen_button_primary()),
        &no_icons(),
        2000,
        60,
    );
    let world = world.unwrap();
    assert_eq!(world.layers[0].buttons.len(), 12);
    assert_eq!(world.layers[1].buttons.len(), 11);
    // The former button 3 ("Four") now sits at index 2.
    assert_eq!(world.layers[0].buttons[2].action, f4_code());
}

#[test]
fn validation_rejects_a_too_small_layer() {
    let (world, _) = World::build(&cfg_with_primary(filler_layer(1)), &no_icons(), 2170, 60);
    assert!(world.is_none());
}

#[test]
fn unknown_key_names_are_skipped_and_reported() {
    let mut primary = filler_layer(13);
    primary[5] = bc("X", "Key::NoSuchKeyName", "text");
    let (world, skipped) = World::build(&cfg_with_primary(primary), &no_icons(), 2170, 60);
    assert_eq!(world.unwrap().layers[0].buttons.len(), 12);
    assert_eq!(skipped, vec!["Key::NoSuchKeyName".to_string()]);
}

#[test]
fn blank_and_time_modes_build_sentinel_buttons() {
    let mut primary = filler_layer(13);
    primary[0] = bc("", "", "blank");
    primary[1] = bc("", "", "time");
    let world = World::build(&cfg_with_primary(primary), &no_icons(), 2170, 60).0.unwrap();
    let buttons = &world.layers[0].buttons;
    assert_eq!(buttons[0].action, keys::KEY_UNKNOWN);
    assert!(matches!(buttons[0].image, ButtonImage::Blank));
    assert_eq!(buttons[1].action, keys::KEY_TIME);
    assert!(matches!(buttons[1].image, ButtonImage::Time(1)));
}

#[test]
fn icon_outcomes_and_text_fallback() {
    let mut primary = filler_layer(13);
    primary[0] = bc("browser", "Key::WWW", "icon");
    primary[1] = bc("calc", "Key::Calc", "icon");
    primary[2] = bc("files", "Key::File", "icon");
    let cfg = cfg_with_primary(primary);
    let requests = tinydfr::config::layer_icon_requests(&cfg.layers.primary_layer_buttons);
    assert_eq!(requests.len(), 3);
    assert_eq!(requests[0].label, "browser");
    assert_eq!(requests[1].label, "calc");
    let icons = IconSet {
        primary: vec![IconOutcome::Svg(7), IconOutcome::Png(9), IconOutcome::Missing],
        ..no_icons()
    };
    let world = World::build(&cfg, &icons, 2170, 60).0.unwrap();
    let buttons = &world.layers[0].buttons;
    assert!(matches!(buttons[0].image, ButtonImage::Svg(7)));
    assert!(matches!(buttons[1].image, ButtonImage::Png(9)));
    match &buttons[2].image {
        ButtonImage::Text(t) => assert_eq!(t, "files"),
        _ => panic!("expected text fallback"),
    }
}

#[test]
fn touch_down_scenario_thirteen_buttons() {
    // Touch-down at the horizontal center of button 3 (cell 503.75..658.75),
    // mid vertical band, on a panel at least as wide as the narrow threshold.
    let mut world = standard_world();
    assert!(world.prepare_frame().is_some());
    let frames = world.handle_event(InputEvent::TouchDown { slot: 5, x: 581, y: 30 }, true, 42);
    assert!(press_release_pair(&frames, f4_code(), 1));
    assert_eq!(world.sessions.len(), 1);
    assert_eq!(world.sessions[0], TouchSession { slot: 5, layer: 0, button: 3 });
    assert!(world.layers[0].buttons[3].active);
    let (_, clips) = world.prepare_frame().expect("activation makes the button dirty");
    assert_eq!(clips, vec![ClipRect { x1: 1, y1: 503, x2: 59, y2: 658 }]);
}

#[test]
fn drag_sequence_emits_four_paired_toggles() {
    let mut world = standard_world();
    let code = f4_code();
    let down = world.handle_event(InputEvent::TouchDown { slot: 2, x: 581, y: 30 }, true, 42);
    assert!(press_release_pair(&down, code, 1));
    assert!(world.layers[0].buttons[3].active);
    let inside = world.handle_event(InputEvent::TouchMotion { slot: 2, x: 590, y: 31 }, true, 42);
    assert!(inside.is_empty());
    assert!(world.layers[0].buttons[3].active);
    let outside = world.handle_event(InputEvent::TouchMotion { slot: 2, x: 590, y: 2 }, true, 42);
    assert!(press_release_pair(&outside, code, 0));
    assert!(!world.layers[0].buttons[3].active);
    let back = world.handle_event(InputEvent::TouchMotion { slot: 2, x: 581, y: 40 }, true, 42);
    assert!(press_release_pair(&back, code, 1));
    assert!(world.layers[0].buttons[3].active);
    let up = world.handle_event(InputEvent::TouchUp { slot: 2 }, true, 42);
    assert!(press_release_pair(&up, code, 0));
    assert!(!world.layers[0].buttons[3].active);
    assert!(world.sessions.is_empty());
}

#[test]
fn motion_and_up_for_untracked_slots_are_ignored() {
    let mut world = standard_world();
    assert!(world.handle_event(InputEvent::TouchMotion { slot: 9, x: 581, y: 30 }, true, 42)
        .is_empty());
    assert!(world.handle_event(InputEvent::TouchUp { slot: 9 }, true, 42).is_empty());
    assert!(world.sessions.is_empty());
}

#[test]
fn touches_in_gaps_create_no_session() {
    let mut world = standard_world();
    // 170 px sits in the gap between cells 0 and 1 of the 13-button layer:
    // cell 0 ends at 155, cell 1 begins at 167.9.
    let frames = world.handle_event(InputEvent::TouchDown { slot: 1, x: 160, y: 30 }, true, 42);
    assert!(frames.is_empty());
    assert!(world.sessions.is_empty());
}

#[test]
fn touches_are_gated_by_digitizer_and_backlight() {
    let mut world = standard_world();
    let other_device = world.handle_event(
        InputEvent::TouchDown { slot: 1, x: 581, y: 30 },
        false,
        42,
    );
    assert!(other_device.is_empty() && world.sessions.is_empty());
    let backlight_off = world.handle_event(InputEvent::TouchDown { slot: 1, x: 581, y: 30 }, true, 0);
    assert!(backlight_off.is_empty() && world.sessions.is_empty());
    assert!(!world.layers[0].buttons[3].active);
}

#[test]
fn blank_buttons_are_never_hit_testable() {
    let mut primary = filler_layer(13);
    primary[3] = bc("", "", "blank");
    let mut world =
        World::build(&cfg_with_primary(primary), &no_icons(), 2170, 60).0.unwrap();
    let frames = world.handle_event(InputEvent::TouchDown { slot: 1, x: 581, y: 30 }, true, 42);
    assert!(frames.is_empty());
    assert!(world.sessions.is_empty());
}

#[test]
fn fn_key_is_a_momentary_shift() {
    let mut world = standard_world();
    let _ = world.prepare_frame();
    world.handle_event(
        InputEvent::Key { code: keys::KEY_FN as u32, pressed: true },
        false,
        42,
    );
    assert_eq!(world.active_layer, 1);
    assert!(world.needs_complete_redraw);
    let _ = world.prepare_frame();
    world.handle_event(
        InputEvent::Key { code: keys::KEY_FN as u32, pressed: false },
        false,
        42,
    );
    assert_eq!(world.active_layer, 0);
    assert!(world.needs_complete_redraw);
}

#[test]
fn macro_keys_switch_to_fixed_layers_on_press_only() {
    let mut world = standard_world();
    world.handle_key(keys::KEY_MACRO1 as u32, true);
    assert_eq!(world.active_layer, 3);
    world.handle_key(keys::KEY_MACRO2 as u32, true);
    assert_eq!(world.active_layer, 2);
    world.handle_key(keys::KEY_MACRO3 as u32, true);
    assert_eq!(world.active_layer, 4);
    world.handle_key(keys::KEY_MACRO1 as u32, false);
    assert_eq!(world.active_layer, 4);
    world.handle_key(input_linux::Key::A as u32, true);
    assert_eq!(world.active_layer, 4);
}

#[test]
fn layer_switch_forces_one_full_clip() {
    let mut world = standard_world();
    let _ = world.prepare_frame();
    // Dirty several buttons, then switch: the next render is one full clip.
    let _ = world.handle_event(InputEvent::TouchDown { slot: 1, x: 581, y: 30 }, true, 42);
    let _ = world.handle_event(InputEvent::TouchDown { slot: 2, x: 917, y: 30 }, true, 42);
    world.handle_key(keys::KEY_FN as u32, true);
    let (_, clips) = world.prepare_frame().expect("switch forces a redraw");
    assert_eq!(clips, vec![ClipRect { x1: 0, y1: 0, x2: 60, y2: 2170 }]);
}

#[test]
fn reload_with_invalid_file_keeps_buttons_byte_for_byte() {
    let mut world = standard_world();
    let _ = world.prepare_frame();
    let _ = world.handle_event(InputEvent::TouchDown { slot: 1, x: 581, y: 30 }, true, 42);
    let before: Vec<(u16, bool, bool, String)> = world.layers[0]
        .buttons
        .iter()
        .map(|b| {
            let label = match &b.image {
                ButtonImage::Text(t) => t.clone(),
                _ => String::new(),
            };
            (b.action, b.active, b.changed, label)
        })
        .collect();
    let (applied, _) = world.reload_step(ReloadInput::Invalid);
    assert!(!applied);
    let after: Vec<(u16, bool, bool, String)> = world.layers[0]
        .buttons
        .iter()
        .map(|b| {
            let label = match &b.image {
                ButtonImage::Text(t) => t.clone(),
                _ => String::new(),
            };
            (b.action, b.active, b.changed, label)
        })
        .collect();
    assert_eq!(before, after);
    assert_eq!(world.sessions.len(), 1);
    let (applied2, _) = world.reload_step(ReloadInput::Unchanged);
    assert!(!applied2);
}

#[test]
fn reload_with_parsed_file_swaps_resets_and_forces_redraw() {
    let mut world = standard_world();
    let _ = world.prepare_frame();
    let _ = world.handle_event(InputEvent::TouchDown { slot: 1, x: 581, y: 30 }, true, 42);
    world.handle_key(keys::KEY_MACRO1 as u32, true);
    let mut new_primary = filler_layer(9);
    new_primary[0] = bc("fresh", "Key::F9", "text");
    let (applied, _) = world.reload_step(ReloadInput::Parsed(
        cfg_with_primary(new_primary),
        no_icons(),
    ));
    assert!(applied);
    assert_eq!(world.active_layer, 0);
    assert!(world.needs_complete_redraw);
    assert!(world.sessions.is_empty());
    assert_eq!(world.layers[0].buttons.len(), 9);
    assert_eq!(world.layers[0].buttons[0].action, input_linux::Key::F9 as u16);
}

#[test]
fn reload_failing_validation_keeps_the_old_world() {
    let mut world = standard_world();
    let (applied, _) = world.reload_step(ReloadInput::Parsed(
        cfg_with_primary(filler_layer(1)),
        no_icons(),
    ));
    assert!(!applied);
    assert_eq!(world.layers[0].buttons.len(), 13);
}

#[test]
fn all_action_codes_cover_every_layer() {
    let world = standard_world();
    let codes = world.all_action_codes();
    assert_eq!(codes.len(), 13 + 4 * 12);
    assert!(codes.contains(&f4_code()));
    assert!(codes.contains(&(input_linux::Key::F1 as u16)));
}

#[test]
fn idle_world_owes_no_render() {
    let mut world = standard_world();
    assert!(world.prepare_frame().is_some());
    assert!(world.prepare_frame().is_none());
}
