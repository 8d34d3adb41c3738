use vstd::prelude::*;
use crate::keys::{
    KEY_ALL_APPLICATIONS, KEY_CALC, KEY_FILE, KEY_MACRO1, KEY_MACRO2, KEY_MACRO3, KEY_MACRO4,
    KEY_PROG1, KEY_PROG2, KEY_PROG3, KEY_PROG4, KEY_TIME, KEY_UNKNOWN, KEY_WWW,
};

verus! {

/// What one button shows. Icons are opaque handles into a store kept by the
/// caller that drives the paint plan; the library never looks inside them.
pub enum ButtonImage {
    /// A text label.
    Text(String),
    /// A vector icon, by handle.
    Svg(usize),
    /// A raster icon, by handle.
    Png(usize),
    /// The wall clock; 0 selects the 12-hour style, 1 the 24-hour style, and
    /// any other value renders as empty text.
    Time(u16),
    /// Nothing.
    Blank,
}

/// One renderable, actionable cell of a layer.
pub struct Button {
    pub image: ButtonImage,
    /// True if this button's visual state changed since the last paint; only
    /// a paint of this button clears it.
    pub changed: bool,
    /// True while physically pressed or held; toggled only through
    /// `set_active`, which also sets `changed`.
    pub active: bool,
    /// The logical key this button emits, or the no-op or clock sentinel.
    pub action: u16,
}

impl Button {
    /// The clock sentinel action: such a button spans three cells.
    pub open spec fn is_time(&self) -> bool {
        self.action == KEY_TIME
    }

    /// Whether touches may act on this button: buttons with the no-op or the
    /// clock sentinel action are never hit-testable and never emit.
    pub open spec fn touch_actionable(&self) -> bool {
        self.action != KEY_UNKNOWN && self.action != KEY_TIME
    }

    /// Button kinds that are always chromeless: no background box in any
    /// state (the clock, no-op fillers, and the macro layer-switch keys).
    pub open spec fn always_chromeless(&self) -> bool {
        ||| self.action == KEY_TIME
        ||| self.action == KEY_UNKNOWN
        ||| self.action == KEY_MACRO1
        ||| self.action == KEY_MACRO2
        ||| self.action == KEY_MACRO3
        ||| self.action == KEY_MACRO4
    }

    /// Launcher-style button kinds: chromeless while inactive, boxed while
    /// active.
    pub open spec fn launcher_style(&self) -> bool {
        ||| self.action == KEY_WWW
        ||| self.action == KEY_ALL_APPLICATIONS
        ||| self.action == KEY_CALC
        ||| self.action == KEY_FILE
        ||| self.action == KEY_PROG1
        ||| self.action == KEY_PROG2
        ||| self.action == KEY_PROG3
        ||| self.action == KEY_PROG4
    }

    /// Whether a render pass draws the rounded background box.
    pub open spec fn draws_box(&self) -> bool {
        !self.always_chromeless() && (!self.launcher_style() || self.active)
    }

    /// A fresh, inactive, clean button with the given image and action.
    pub open spec fn fresh(&self, image: ButtonImage, action: u16) -> bool {
        self == (Button { image, changed: false, active: false, action })
    }

    pub fn new_text(text: &String, action: u16) -> (b: Button)
        ensures
            b.fresh(ButtonImage::Text(*text), action),
    {
        Button { action, active: false, changed: false, image: ButtonImage::Text(text.clone()) }
    }

    pub fn new_svg(icon: usize, action: u16) -> (b: Button)
        ensures
            b.fresh(ButtonImage::Svg(icon), action),
    {
        Button { action, active: false, changed: false, image: ButtonImage::Svg(icon) }
    }

    pub fn new_png(icon: usize, action: u16) -> (b: Button)
        ensures
            b.fresh(ButtonImage::Png(icon), action),
    {
        Button { action, active: false, changed: false, image: ButtonImage::Png(icon) }
    }

    pub fn new_time(use_24_hour: u16) -> (b: Button)
        ensures
            b.fresh(ButtonImage::Time(use_24_hour), KEY_TIME),
    {
        Button {
            action: KEY_TIME,
            active: false,
            changed: false,
            image: ButtonImage::Time(use_24_hour),
        }
    }

    pub fn new_blank() -> (b: Button)
        ensures
            b.fresh(ButtonImage::Blank, KEY_UNKNOWN),
    {
        Button { action: KEY_UNKNOWN, active: false, changed: false, image: ButtonImage::Blank }
    }

    /// The single mutation entry point for `active`: a no-op when the value is
    /// unchanged, otherwise flips `active`, marks the button dirty, and
    /// reports the key toggle owed to the virtual device (press 1, release 0).
    pub fn set_active(&mut self, active: bool) -> (emit: Option<(u16, i32)>)
        ensures
            old(self).active == active ==> *final(self) == *old(self) && emit is None,
            old(self).active != active ==> {
                &&& final(self).active == active
                &&& final(self).changed
                &&& final(self).image == old(self).image
                &&& final(self).action == old(self).action
                &&& emit == Some(
                    (
                        old(self).action,
                        if active {
                            1i32
                        } else {
                            0i32
                        },
                    ),
                )
            },
    {
        if self.active != active {
            self.active = active;
            self.changed = true;
            Some(
                (
                    self.action,
                    if active {
                        1
                    } else {
                        0
                    },
                ),
            )
        } else {
            None
        }
    }
}

} // verus!
