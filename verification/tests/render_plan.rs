use tinydfr::button::{Button, ButtonImage};
use tinydfr::clock::ClockTime;
use tinydfr::geometry::ClipRect;
use tinydfr::keys;
use tinydfr::render::{FunctionLayer, PaintOp};

fn noon() -> ClockTime {
    ClockTime { hour: 12, minute: 30, weekday: 2, day: 17, month: 9 }
}

fn text_button(label: &str, action: u16, changed: bool) -> Button {
    Button { image: ButtonImage::Text(label.to_string()), changed, active: false, action }
}

fn twelve_buttons() -> Vec<Button> {
    (0..12).map(|i| text_button(&format!("B{}", i), input_linux::Key::F1 as u16 + i, false)).collect()
}

#[test]
fn full_redraw_clears_then_repaints_everything() {
    let mut layer = FunctionLayer { buttons: twelve_buttons() };
    let font = "sans".to_string();
    let (ops, clips) = layer.draw(2170, 60, &font, noon(), true);
    assert!(matches!(ops[0], PaintOp::FillSurface { gray: 0 }));
    match &ops[1] {
        PaintOp::SelectFont { font: f, size } => {
            assert_eq!(f, "sans");
            assert_eq!(*size, 32);
        },
        _ => panic!("expected the font selection"),
    }
    // No erase rectangles on a full redraw; every button paints its content
    // and its box.
    assert!(!ops.iter().any(|op| matches!(op, PaintOp::FillRect { .. })));
    assert_eq!(ops.iter().filter(|op| matches!(op, PaintOp::RoundedBox { .. })).count(), 12);
    assert_eq!(ops.iter().filter(|op| matches!(op, PaintOp::CenteredText { .. })).count(), 12);
    assert_eq!(clips, vec![ClipRect { x1: 0, y1: 0, x2: 60, y2: 2170 }]);
    assert!(layer.buttons.iter().all(|b| !b.changed));
}

#[test]
fn incremental_draw_paints_only_dirty_buttons() {
    let mut buttons = twelve_buttons();
    buttons[1].changed = true;
    let mut layer = FunctionLayer { buttons };
    let font = "mono".to_string();
    let (ops, clips) = layer.draw(2170, 60, &font, noon(), false);
    // One erased band, one box, one text, after the font selection.
    assert_eq!(ops.len(), 4);
    match &ops[1] {
        PaintOp::FillRect { gray, x_fp, y_fp, w_fp, h_fp } => {
            assert_eq!(*gray, 0);
            // Cell 1 starts at 2170*12*256/143 px/256; one cell is
            // 2170*256/13 units wide; the band is 15%..85% of 60 px plus the
            // corner radius on each side.
            assert_eq!(*x_fp, 46617);
            assert_eq!(*w_fp, 42732);
            assert_eq!(*y_fp, 2304 - 2048);
            assert_eq!(*h_fp, 13056 - 2304 + 4096);
        },
        _ => panic!("expected the band erase"),
    }
    match &ops[2] {
        PaintOp::RoundedBox { gray, x_fp, w_fp, bot_fp, top_fp, radius_fp } => {
            assert_eq!(*gray, 20);
            assert_eq!(*x_fp, 46617);
            assert_eq!(*w_fp, 42732);
            assert_eq!(*bot_fp, 2304);
            assert_eq!(*top_fp, 13056);
            assert_eq!(*radius_fp, 2048);
        },
        _ => panic!("expected the background box"),
    }
    match &ops[3] {
        PaintOp::CenteredText { gray, text, x_fp, w_fp, height } => {
            assert_eq!(*gray, 100);
            assert_eq!(text, "B1");
            assert_eq!(*x_fp, 46617);
            assert_eq!(*w_fp, 42732);
            assert_eq!(*height, 60);
        },
        _ => panic!("expected the label"),
    }
    assert_eq!(clips, vec![ClipRect { x1: 1, y1: 182, x2: 59, y2: 348 }]);
    assert!(!layer.buttons[1].changed);
}

#[test]
fn active_button_uses_the_brighter_box() {
    let mut buttons = twelve_buttons();
    buttons[0].active = true;
    buttons[0].changed = true;
    let mut layer = FunctionLayer { buttons };
    let font = "sans".to_string();
    let (ops, _) = layer.draw(2170, 60, &font, noon(), false);
    assert!(ops.iter().any(|op| matches!(op, PaintOp::RoundedBox { gray: 40, .. })));
}

#[test]
fn chromeless_kinds_render_no_box() {
    let mut buttons = twelve_buttons();
    buttons[0] = Button { image: ButtonImage::Blank, changed: true, active: false, action: keys::KEY_UNKNOWN };
    buttons[1] = Button {
        image: ButtonImage::Text("m".to_string()),
        changed: true,
        active: false,
        action: keys::KEY_MACRO1,
    };
    buttons[2] = Button {
        image: ButtonImage::Text("w".to_string()),
        changed: true,
        active: false,
        action: keys::KEY_WWW,
    };
    let mut layer = FunctionLayer { buttons };
    let font = "sans".to_string();
    let (ops, clips) = layer.draw(2170, 60, &font, noon(), false);
    assert!(!ops.iter().any(|op| matches!(op, PaintOp::RoundedBox { .. })));
    // The blank button paints no content but its band is still erased and its
    // cell still flushed.
    assert_eq!(ops.iter().filter(|op| matches!(op, PaintOp::FillRect { .. })).count(), 3);
    assert_eq!(clips.len(), 3);
}

#[test]
fn launcher_button_gets_a_box_only_while_active() {
    let mut buttons = twelve_buttons();
    buttons[2] = Button {
        image: ButtonImage::Text("w".to_string()),
        changed: true,
        active: true,
        action: keys::KEY_WWW,
    };
    let mut layer = FunctionLayer { buttons };
    let font = "sans".to_string();
    let (ops, _) = layer.draw(2170, 60, &font, noon(), false);
    assert!(ops.iter().any(|op| matches!(op, PaintOp::RoundedBox { gray: 40, .. })));
}

#[test]
fn clock_button_spans_three_cells_and_shows_the_time() {
    let mut buttons = twelve_buttons();
    buttons[5] = Button { image: ButtonImage::Time(1), changed: true, active: false, action: keys::KEY_TIME };
    let mut layer = FunctionLayer { buttons };
    let font = "sans".to_string();
    let (ops, clips) = layer.draw(2170, 60, &font, noon(), false);
    match &ops[1] {
        PaintOp::FillRect { w_fp, .. } => assert_eq!(*w_fp, 3 * 42732),
        _ => panic!("expected the band erase"),
    }
    match &ops[2] {
        PaintOp::CenteredText { text, w_fp, .. } => {
            assert_eq!(text, "12:30    Tue 17 Sep");
            assert_eq!(*w_fp, 3 * 42732);
        },
        _ => panic!("expected the clock text"),
    }
    // Cell 5 starts at 5*2170*12/143 = 910.48 px; the flush spans three cells.
    assert_eq!(clips, vec![ClipRect { x1: 1, y1: 910, x2: 59, y2: 910 + 3 * 166 }]);
}

#[test]
fn icon_buttons_emit_icon_operations() {
    let mut buttons = twelve_buttons();
    buttons[0] = Button { image: ButtonImage::Svg(4), changed: true, active: false, action: keys::KEY_WWW };
    buttons[1] = Button { image: ButtonImage::Png(6), changed: true, active: false, action: keys::KEY_CALC };
    let mut layer = FunctionLayer { buttons };
    let font = "sans".to_string();
    let (ops, _) = layer.draw(2170, 60, &font, noon(), false);
    assert!(ops.iter().any(|op| matches!(op, PaintOp::VectorIcon { icon: 4, .. })));
    assert!(ops.iter().any(|op| matches!(op, PaintOp::RasterIcon { icon: 6, .. })));
}

#[test]
fn clean_layer_paints_nothing_incrementally() {
    let mut layer = FunctionLayer { buttons: twelve_buttons() };
    let font = "sans".to_string();
    let (ops, clips) = layer.draw(2170, 60, &font, noon(), false);
    assert_eq!(ops.len(), 1);
    assert!(matches!(ops[0], PaintOp::SelectFont { .. }));
    assert!(clips.is_empty());
}

#[test]
fn set_active_is_the_single_mutation_entry_point() {
    let mut b = text_button("x", input_linux::Key::F2 as u16, false);
    assert_eq!(b.set_active(false), None);
    assert!(!b.changed && !b.active);
    assert_eq!(b.set_active(true), Some((input_linux::Key::F2 as u16, 1)));
    assert!(b.changed && b.active);
    assert_eq!(b.set_active(true), None);
    assert_eq!(b.set_active(false), Some((input_linux::Key::F2 as u16, 0)));
    assert!(!b.active);
}
