use vstd::prelude::*;
use crate::button::{Button, ButtonImage};
use crate::clock::{clock_text, clock_time_valid, format_clock_text, ClockTime};
use crate::geometry::{
    band_bottom_px, band_top_px, button_clip, button_width_fp, button_width_px, cell_left_fp,
    cell_left_px, full_clip, geometry_wf, lemma_cell_left_fp_bounds, lemma_cell_left_px_bounds,
    lemma_clip_right_bound, lemma_mul_le, ClipRect,
};
use crate::keys::{
    KEY_ALL_APPLICATIONS, KEY_CALC, KEY_FILE, KEY_MACRO1, KEY_MACRO2, KEY_MACRO3, KEY_MACRO4,
    KEY_PROG1, KEY_PROG2, KEY_PROG3, KEY_PROG4, KEY_TIME, KEY_UNKNOWN, KEY_WWW,
};
use vstd::arithmetic::div_mod::{lemma_div_by_multiple, lemma_div_is_ordered};

verus! {

// The dirty-region renderer. A render pass walks the active layer and turns
// every button that needs repainting into drawing-surface operations (the
// paint plan) plus the exact framebuffer rectangle it dirties. The plan is
// stated in rotated surface coordinates, fixed-point 1/256 px; the clip
// rectangles are translated back into hardware row/column space here, so the
// interpreter of the plan only executes it.

/// Black, as a percentage gray level.
pub const GRAY_BLACK: u8 = 0;

/// Background gray of an inactive button's box (20% brightness).
pub const BUTTON_COLOR_INACTIVE: u8 = 20;

/// Background gray of an active button's box (40% brightness).
pub const BUTTON_COLOR_ACTIVE: u8 = 40;

/// Foreground gray of button content (full brightness).
pub const GRAY_FOREGROUND: u8 = 100;

/// Label text size, in pixels.
pub const FONT_SIZE_PX: u32 = 32;

/// Corner radius of the background box, in fixed-point units (8 px).
pub const CORNER_RADIUS_FP: u64 = 2048;

/// One drawing-surface operation of a render pass. Coordinates are
/// fixed-point (1/256 px) in rotated surface space; gray levels are percent
/// of full brightness.
pub enum PaintOp {
    /// Fill the whole surface.
    FillSurface { gray: u8 },
    /// Select the label font face at the fixed label size.
    SelectFont { font: String, size: u32 },
    /// Fill an axis-aligned rectangle (erases a button's band).
    FillRect { gray: u8, x_fp: u64, y_fp: u64, w_fp: u64, h_fp: u64 },
    /// Fill the rounded box of one cell: four quarter arcs of the given
    /// radius at the corners of the band between `bot_fp` and `top_fp`,
    /// joined by straight edges, one closed path filled solid.
    RoundedBox { gray: u8, x_fp: u64, w_fp: u64, bot_fp: u64, top_fp: u64, radius_fp: u64 },
    /// Paint text centered (horizontally and on the text baseline) in the
    /// cell starting at `x_fp`, `w_fp` wide, on a strip `height` px high.
    CenteredText { gray: u8, text: String, x_fp: u64, w_fp: u64, height: u16 },
    /// Paint vector icon `icon` into a square inset 10% of the strip height,
    /// centered in the cell.
    VectorIcon { icon: usize, x_fp: u64, w_fp: u64, height: u16 },
    /// Paint raster icon `icon`, resized with a high-quality filter and
    /// composited honoring alpha, into the same inset square.
    RasterIcon { icon: usize, x_fp: u64, w_fp: u64, height: u16 },
}

/// The mathematical shape of a paint operation: as `PaintOp`, with text as a
/// character sequence.
pub enum PaintOpModel {
    FillSurface { gray: u8 },
    SelectFont { font: Seq<char>, size: u32 },
    FillRect { gray: u8, x_fp: u64, y_fp: u64, w_fp: u64, h_fp: u64 },
    RoundedBox { gray: u8, x_fp: u64, w_fp: u64, bot_fp: u64, top_fp: u64, radius_fp: u64 },
    CenteredText { gray: u8, text: Seq<char>, x_fp: u64, w_fp: u64, height: u16 },
    VectorIcon { icon: usize, x_fp: u64, w_fp: u64, height: u16 },
    RasterIcon { icon: usize, x_fp: u64, w_fp: u64, height: u16 },
}

impl View for PaintOp {
    type V = PaintOpModel;

    open spec fn view(&self) -> PaintOpModel {
        match *self {
            PaintOp::FillSurface { gray } => PaintOpModel::FillSurface { gray },
            PaintOp::SelectFont { font, size } => PaintOpModel::SelectFont { font: font@, size },
            PaintOp::FillRect { gray, x_fp, y_fp, w_fp, h_fp } => PaintOpModel::FillRect {
                gray,
                x_fp,
                y_fp,
                w_fp,
                h_fp,
            },
            PaintOp::RoundedBox { gray, x_fp, w_fp, bot_fp, top_fp, radius_fp } => PaintOpModel::RoundedBox {
                gray,
                x_fp,
                w_fp,
                bot_fp,
                top_fp,
                radius_fp,
            },
            PaintOp::CenteredText { gray, text, x_fp, w_fp, height } => PaintOpModel::CenteredText {
                gray,
                text: text@,
                x_fp,
                w_fp,
                height,
            },
            PaintOp::VectorIcon { icon, x_fp, w_fp, height } => PaintOpModel::VectorIcon {
                icon,
                x_fp,
                w_fp,
                height,
            },
            PaintOp::RasterIcon { icon, x_fp, w_fp, height } => PaintOpModel::RasterIcon {
                icon,
                x_fp,
                w_fp,
                height,
            },
        }
    }
}

pub open spec fn ops_view(ops: Seq<PaintOp>) -> Seq<PaintOpModel> {
    ops.map_values(|op: PaintOp| op@)
}

/// Bottom of the button band in fixed-point units: 15% of the strip height.
pub open spec fn band_bottom_fp(height: int) -> int {
    3840 * height / 100
}

/// Top of the button band in fixed-point units: 85% of the strip height.
pub open spec fn band_top_fp(height: int) -> int {
    21760 * height / 100
}

/// The width a button's content spans: three cells for the clock, one else.
pub open spec fn content_width_fp(width: int, num: int, b: Button) -> int {
    if b.is_time() {
        button_width_fp(width, num) * 3
    } else {
        button_width_fp(width, num)
    }
}

/// Whether a render pass repaints this button.
pub open spec fn painted(b: Button, force: bool) -> bool {
    force || b.changed
}

/// The operations a render pass starts with: on a full redraw, clear the
/// surface to black; always, select the configured font.
pub open spec fn draw_header(force: bool, font: Seq<char>) -> Seq<PaintOpModel> {
    (if force {
        seq![PaintOpModel::FillSurface { gray: GRAY_BLACK }]
    } else {
        Seq::empty()
    }) + seq![PaintOpModel::SelectFont { font, size: FONT_SIZE_PX }]
}

pub open spec fn button_box_gray(b: Button) -> u8 {
    if b.active {
        BUTTON_COLOR_ACTIVE
    } else {
        BUTTON_COLOR_INACTIVE
    }
}

/// The foreground operations of one button: its content, painted in the
/// fixed light color into the cell at `x_fp` of width `w_fp`; blank buttons
/// paint nothing.
pub open spec fn content_ops(
    b: Button,
    x_fp: u64,
    w_fp: u64,
    height: u16,
    now: ClockTime,
) -> Seq<PaintOpModel> {
    match b.image {
        ButtonImage::Text(t) => seq![
            PaintOpModel::CenteredText { gray: GRAY_FOREGROUND, text: t@, x_fp, w_fp, height },
        ],
        ButtonImage::Svg(icon) => seq![PaintOpModel::VectorIcon { icon, x_fp, w_fp, height }],
        ButtonImage::Png(icon) => seq![PaintOpModel::RasterIcon { icon, x_fp, w_fp, height }],
        ButtonImage::Time(style) => seq![
            PaintOpModel::CenteredText {
                gray: GRAY_FOREGROUND,
                text: clock_text(style as int, now),
                x_fp,
                w_fp,
                height,
            },
        ],
        ButtonImage::Blank => Seq::empty(),
    }
}

/// The band-erase operation of one button on an incremental draw.
pub open spec fn erase_ops(
    b: Button,
    width: int,
    height: int,
    num: int,
    idx: int,
    force: bool,
) -> Seq<PaintOpModel> {
    if force {
        Seq::empty()
    } else {
        seq![
            PaintOpModel::FillRect {
                gray: GRAY_BLACK,
                x_fp: cell_left_fp(width, num, idx) as u64,
                y_fp: (band_bottom_fp(height) - 2048) as u64,
                w_fp: content_width_fp(width, num, b) as u64,
                h_fp: (band_top_fp(height) - band_bottom_fp(height) + 4096) as u64,
            },
        ]
    }
}

/// The rounded background box of one button, unless its kind is chromeless in
/// its current state.
pub open spec fn box_ops(b: Button, width: int, height: int, num: int, idx: int) -> Seq<
    PaintOpModel,
> {
    if b.draws_box() {
        seq![
            PaintOpModel::RoundedBox {
                gray: button_box_gray(b),
                x_fp: cell_left_fp(width, num, idx) as u64,
                w_fp: button_width_fp(width, num) as u64,
                bot_fp: band_bottom_fp(height) as u64,
                top_fp: band_top_fp(height) as u64,
                radius_fp: CORNER_RADIUS_FP,
            },
        ]
    } else {
        Seq::empty()
    }
}

/// Every operation one repainted button contributes: erase its band (only on
/// an incremental draw), draw the rounded background box unless the kind is
/// chromeless in its state, then paint the content.
pub open spec fn button_ops(
    b: Button,
    width: int,
    height: int,
    num: int,
    idx: int,
    now: ClockTime,
    force: bool,
) -> Seq<PaintOpModel> {
    erase_ops(b, width, height, num, idx, force) + box_ops(b, width, height, num, idx)
        + content_ops(
        b,
        cell_left_fp(width, num, idx) as u64,
        content_width_fp(width, num, b) as u64,
        height as u16,
        now,
    )
}

/// The paint operations of the first `k` buttons of a render pass.
pub open spec fn draw_ops_upto(
    buttons: Seq<Button>,
    k: int,
    width: int,
    height: int,
    now: ClockTime,
    force: bool,
) -> Seq<PaintOpModel>
    decreases k,
{
    if k <= 0 {
        Seq::empty()
    } else {
        draw_ops_upto(buttons, k - 1, width, height, now, force) + (if painted(
            buttons[k - 1],
            force,
        ) {
            button_ops(buttons[k - 1], width, height, buttons.len() as int, k - 1, now, force)
        } else {
            Seq::empty()
        })
    }
}

/// The complete paint plan of one render pass.
pub open spec fn draw_ops(
    buttons: Seq<Button>,
    width: int,
    height: int,
    now: ClockTime,
    force: bool,
    font: Seq<char>,
) -> Seq<PaintOpModel> {
    draw_header(force, font) + draw_ops_upto(
        buttons,
        buttons.len() as int,
        width,
        height,
        now,
        force,
    )
}

/// The clip rectangles of the first `k` buttons: one per repainted button, in
/// display order.
pub open spec fn draw_clips_upto(
    buttons: Seq<Button>,
    k: int,
    width: int,
    height: int,
    force: bool,
) -> Seq<ClipRect>
    decreases k,
{
    if k <= 0 {
        Seq::empty()
    } else {
        draw_clips_upto(buttons, k - 1, width, height, force) + (if painted(
            buttons[k - 1],
            force,
        ) {
            seq![
                button_clip(width, height, buttons.len() as int, k - 1, buttons[k - 1].is_time()),
            ]
        } else {
            Seq::empty()
        })
    }
}

/// What a render pass returns to flush: on a full redraw exactly one clip
/// rectangle covering the whole surface, else the repainted buttons' cells.
pub open spec fn draw_clips(buttons: Seq<Button>, width: int, height: int, force: bool) -> Seq<
    ClipRect,
> {
    if force {
        seq![full_clip(width, height)]
    } else {
        draw_clips_upto(buttons, buttons.len() as int, width, height, force)
    }
}

/// The layer's buttons after a render pass: every repainted button is clean,
/// the rest are untouched.
pub open spec fn buttons_after_draw(buttons: Seq<Button>, force: bool) -> Seq<Button> {
    buttons.map(
        |i: int, b: Button|
            if painted(b, force) {
                Button { image: b.image, changed: false, active: b.active, action: b.action }
            } else {
                b
            },
    )
}

impl Button {
    /// Appends this button's content operations: text centered and
    /// baseline-aligned, an icon in an inset square, or the clock's current
    /// text, in the fixed light color.
    pub fn render(&self, ops: &mut Vec<PaintOp>, x_fp: u64, w_fp: u64, height: u16, now: ClockTime)
        requires
            clock_time_valid(now),
        ensures
            ops_view(final(ops)@) == ops_view(old(ops)@) + content_ops(
                *self,
                x_fp,
                w_fp,
                height,
                now,
            ),
    {
        match &self.image {
            ButtonImage::Text(t) => {
                let text = t.clone();
                ops.push(PaintOp::CenteredText { gray: GRAY_FOREGROUND, text, x_fp, w_fp, height });
            },
            ButtonImage::Svg(icon) => {
                ops.push(PaintOp::VectorIcon { icon: *icon, x_fp, w_fp, height });
            },
            ButtonImage::Png(icon) => {
                ops.push(PaintOp::RasterIcon { icon: *icon, x_fp, w_fp, height });
            },
            ButtonImage::Time(style) => {
                let text = format_clock_text(*style, now);
                ops.push(PaintOp::CenteredText { gray: GRAY_FOREGROUND, text, x_fp, w_fp, height });
            },
            ButtonImage::Blank => {},
        }
        proof {
            assert(ops_view(ops@) =~= ops_view(old(ops)@) + content_ops(
                *self,
                x_fp,
                w_fp,
                height,
                now,
            ));
        }
    }
}

/// One selectable, ordered row of buttons.
pub struct FunctionLayer {
    pub buttons: Vec<Button>,
}

impl FunctionLayer {
    /// Paints the layer: on `complete_redraw` every button over a cleared
    /// surface, else exactly the dirty buttons. Returns the paint plan and
    /// the clip rectangles actually repainted, and clears the repainted
    /// buttons' dirty flags.
    #[verifier::loop_isolation(false)]
    pub fn draw(
        &mut self,
        width: u16,
        height: u16,
        font: &String,
        now: ClockTime,
        complete_redraw: bool,
    ) -> (r: (Vec<PaintOp>, Vec<ClipRect>))
        requires
            geometry_wf(width as int, height as int, old(self).buttons@.len() as int),
            clock_time_valid(now),
        ensures
            final(self).buttons@ == buttons_after_draw(old(self).buttons@, complete_redraw),
            ops_view(r.0@) == draw_ops(
                old(self).buttons@,
                width as int,
                height as int,
                now,
                complete_redraw,
                font@,
            ),
            r.1@ == draw_clips(
                old(self).buttons@,
                width as int,
                height as int,
                complete_redraw,
            ),
    {
        let ghost orig = self.buttons@;
        let num = self.buttons.len();
        let n64 = num as u64;
        let w64 = width as u64;
        let h64 = height as u64;
        let mut ops: Vec<PaintOp> = Vec::new();
        let mut clips: Vec<ClipRect> = Vec::new();
        if complete_redraw {
            ops.push(PaintOp::FillSurface { gray: GRAY_BLACK });
        }
        ops.push(PaintOp::SelectFont { font: font.clone(), size: FONT_SIZE_PX });
        proof {
            assert(ops_view(ops@) =~= draw_header(complete_redraw, font@));
        }
        let bw_fp = w64 * 256 / (n64 + 1);
        let bw_px = w64 / (n64 + 1);
        let bot_fp = 3840 * h64 / 100;
        let top_fp = 21760 * h64 / 100;
        let bot_px = 15 * h64 / 100;
        let top_px = 85 * h64 / 100;
        proof {
            lemma_div_is_ordered(204800, 3840 * h64 as int, 100);
            lemma_div_is_ordered(3840 * h64 as int, 21760 * h64 as int, 100);
            lemma_div_is_ordered(85 * h64 as int, 100 * (h64 as int - 8), 100);
            lemma_div_by_multiple(h64 as int - 8, 100);
            assert((h64 as int - 8) * 100 == 100 * (h64 as int - 8));
            lemma_div_is_ordered(15 * h64 as int, 100 * h64 as int, 100);
            lemma_div_by_multiple(h64 as int, 100);
            assert((h64 as int) * 100 == 100 * (h64 as int));
        }
        let x1 = (h64 - top_px - 8) as u16;
        let x2 = (h64 - bot_px + 8) as u16;
        let mut i: usize = 0;
        while i < num
            invariant
                i <= num,
                self.buttons@.len() == num,
                forall|j: int|
                    0 <= j < i ==> self.buttons@[j] == buttons_after_draw(
                        orig,
                        complete_redraw,
                    )[j],
                forall|j: int| i <= j < num ==> self.buttons@[j] == orig[j],
                ops_view(ops@) == draw_header(complete_redraw, font@) + draw_ops_upto(
                    orig,
                    i as int,
                    width as int,
                    height as int,
                    now,
                    complete_redraw,
                ),
                clips@ == draw_clips_upto(
                    orig,
                    i as int,
                    width as int,
                    height as int,
                    complete_redraw,
                ),
            decreases num - i,
        {
            let changed = self.buttons[i].changed;
            if changed || complete_redraw {
                proof {
                    lemma_mul_le(i as int, w64 as int, 0xFFFF, 0x7FFF);
                    lemma_mul_le(i as int * w64 as int, n64 as int, 0xFFFFint * 0x7FFF, 0xFFFF);
                    lemma_mul_le(n64 as int, n64 as int, 0xFFFF, 0xFFFF);
                    assert(4 <= (n64 as int) * (n64 as int)) by (nonlinear_arith)
                        requires
                            2 <= n64,
                    ;
                    lemma_cell_left_fp_bounds(width as int, num as int, i as int);
                    lemma_cell_left_px_bounds(width as int, num as int, i as int);
                    lemma_clip_right_bound(width as int, num as int, i as int);
                }
                let ghost ops0 = ops@;
                let le_fp = (i as u64) * w64 * n64 * 256 / (n64 * n64 - 1);
                let le_px = (i as u64) * w64 * n64 / (n64 * n64 - 1);
                let action = self.buttons[i].action;
                let active = self.buttons[i].active;
                let is_time = action == KEY_TIME;
                let content_w_fp = if is_time {
                    bw_fp * 3
                } else {
                    bw_fp
                };
                if !complete_redraw {
                    ops.push(
                        PaintOp::FillRect {
                            gray: GRAY_BLACK,
                            x_fp: le_fp,
                            y_fp: bot_fp - 2048,
                            w_fp: content_w_fp,
                            h_fp: top_fp - bot_fp + 4096,
                        },
                    );
                }
                let always_chromeless = action == KEY_TIME || action == KEY_UNKNOWN || action
                    == KEY_MACRO1 || action == KEY_MACRO2 || action == KEY_MACRO3 || action
                    == KEY_MACRO4;
                let launcher = action == KEY_WWW || action == KEY_ALL_APPLICATIONS || action
                    == KEY_CALC || action == KEY_FILE || action == KEY_PROG1 || action == KEY_PROG2
                    || action == KEY_PROG3 || action == KEY_PROG4;
                if !always_chromeless && (!launcher || active) {
                    let gray = if active {
                        BUTTON_COLOR_ACTIVE
                    } else {
                        BUTTON_COLOR_INACTIVE
                    };
                    ops.push(
                        PaintOp::RoundedBox {
                            gray,
                            x_fp: le_fp,
                            w_fp: bw_fp,
                            bot_fp,
                            top_fp,
                            radius_fp: CORNER_RADIUS_FP,
                        },
                    );
                }
                proof {
                    lemma_cell_left_fp_bounds(width as int, num as int, i as int);
                    assert(ops_view(ops@) =~= ops_view(ops0) + erase_ops(
                        orig[i as int],
                        width as int,
                        height as int,
                        num as int,
                        i as int,
                        complete_redraw,
                    ) + box_ops(
                        orig[i as int],
                        width as int,
                        height as int,
                        num as int,
                        i as int,
                    ));
                }
                let content = &self.buttons[i];
                content.render(&mut ops, le_fp, content_w_fp, height, now);
                let cleaned = &mut self.buttons[i];
                cleaned.changed = false;
                let y2 = if is_time {
                    le_px + bw_px * 3
                } else {
                    le_px + bw_px
                };
                clips.push(ClipRect { x1, y1: le_px as u16, x2, y2: y2 as u16 });
                proof {
                    let w = width as int;
                    let h = height as int;
                    let n = num as int;
                    let ii = i as int;
                    assert(self.buttons@[ii] == buttons_after_draw(orig, complete_redraw)[ii]);
                    assert(le_fp == cell_left_fp(w, n, ii) as u64);
                    assert(le_px == cell_left_px(w, n, ii) as u64);
                    assert(bw_fp == button_width_fp(w, n) as u64);
                    assert(bw_px == button_width_px(w, n) as u64);
                    assert(content_w_fp == content_width_fp(w, n, orig[ii]) as u64);
                    assert(bot_fp == band_bottom_fp(h) as u64);
                    assert(top_fp == band_top_fp(h) as u64);
                    assert(draw_ops_upto(orig, ii + 1, w, h, now, complete_redraw)
                        == draw_ops_upto(orig, ii, w, h, now, complete_redraw) + button_ops(
                        orig[ii],
                        w,
                        h,
                        n,
                        ii,
                        now,
                        complete_redraw,
                    ));
                    assert(ops_view(ops@) =~= draw_header(complete_redraw, font@) + draw_ops_upto(
                        orig,
                        i as int + 1,
                        width as int,
                        height as int,
                        now,
                        complete_redraw,
                    ));
                    assert(clips@ =~= draw_clips_upto(
                        orig,
                        i as int + 1,
                        width as int,
                        height as int,
                        complete_redraw,
                    ));
                }
            } else {
                proof {
                    assert(ops_view(ops@) =~= draw_header(complete_redraw, font@) + draw_ops_upto(
                        orig,
                        i as int + 1,
                        width as int,
                        height as int,
                        now,
                        complete_redraw,
                    ));
                    assert(clips@ =~= draw_clips_upto(
                        orig,
                        i as int + 1,
                        width as int,
                        height as int,
                        complete_redraw,
                    ));
                }
            }
            i += 1;
        }
        proof {
            assert(self.buttons@ =~= buttons_after_draw(orig, complete_redraw));
        }
        if complete_redraw {
            let mut full: Vec<ClipRect> = Vec::new();
            full.push(ClipRect { x1: 0, y1: 0, x2: height, y2: width });
            proof {
                assert(full@ =~= draw_clips(
                    orig,
                    width as int,
                    height as int,
                    complete_redraw,
                ));
            }
            (ops, full)
        } else {
            (ops, clips)
        }
    }
}

} // verus!
