use vstd::prelude::*;
use crate::button::Button;
use crate::clock::local_now;
use crate::config::{initialize_layers, Config, IconSet};
use crate::emitter::{key_frames, key_frames_spec, EventFrame};
use crate::geometry::{full_clip, hit_spec, hit_test, touch_candidate, ClipRect};
use crate::keys::{KEY_FN, KEY_MACRO1, KEY_MACRO2, KEY_MACRO3, KEY_TIME, KEY_UNKNOWN};
use crate::render::{
    buttons_after_draw, draw_clips, draw_ops, ops_view, FunctionLayer, PaintOp,
};

verus! {

// The orchestrator's world: the one mutable state of the daemon, owned by the
// event loop and mutated only through the step functions below. The loop
// itself performs the outside work (polling, reading events, painting,
// flushing, writing to the virtual device) and hands the results here as
// plain values.

/// One tracked finger: the hardware slot and the button it is tracked
/// against.
#[derive(Clone, Copy, PartialEq, Eq, Structural, Debug)]
pub struct TouchSession {
    pub slot: i32,
    pub layer: usize,
    pub button: usize,
}

/// Below this panel width the first button of every layer is removed (a fixed
/// hardware-variant compensation, applied identically after every reload).
pub const NARROW_PANEL_THRESHOLD: u16 = 2170;

pub open spec fn slots_unique(s: Seq<TouchSession>) -> bool {
    forall|j1: int, j2: int|
        #![trigger s[j1].slot, s[j2].slot]
        0 <= j1 < j2 < s.len() ==> s[j1].slot != s[j2].slot
}

pub open spec fn tracked_slot(s: Seq<TouchSession>, slot: i32) -> bool {
    exists|j: int| 0 <= j < s.len() && (#[trigger] s[j].slot) == slot
}

/// The index of the session tracking `slot` (meaningful when tracked; unique
/// by `slots_unique`).
pub open spec fn slot_index(s: Seq<TouchSession>, slot: i32) -> int {
    choose|j: int| 0 <= j < s.len() && (#[trigger] s[j].slot) == slot
}

pub open spec fn session_of(s: Seq<TouchSession>, slot: i32) -> TouchSession {
    s[slot_index(s, slot)]
}

/// The session table after creating or replacing the entry for `t.slot`.
pub open spec fn upsert_session(s: Seq<TouchSession>, t: TouchSession) -> Seq<TouchSession> {
    if tracked_slot(s, t.slot) {
        s.update(slot_index(s, t.slot), t)
    } else {
        s.push(t)
    }
}

proof fn lemma_slot_index_of(s: Seq<TouchSession>, slot: i32, j: int)
    requires
        slots_unique(s),
        0 <= j < s.len(),
        s[j].slot == slot,
    ensures
        tracked_slot(s, slot),
        slot_index(s, slot) == j,
{
    assert(tracked_slot(s, slot));
    let j2 = slot_index(s, slot);
    assert(0 <= j2 < s.len() && s[j2].slot == slot);
}

/// The whole world of the daemon.
pub struct World {
    /// The five selectable layers, rebuilt wholesale on configuration reload.
    pub layers: Vec<FunctionLayer>,
    /// Which layer is rendered and hit-tested.
    pub active_layer: usize,
    /// Forces the next render pass to repaint everything.
    pub needs_complete_redraw: bool,
    /// The touch-session table, keyed by hardware slot.
    pub sessions: Vec<TouchSession>,
    /// The configured primary layer (the initial state, and the Fn-release
    /// target).
    pub primary_layer: usize,
    /// The configured secondary layer (the Fn-press target).
    pub secondary_layer: usize,
    /// The configured label font face.
    pub font: String,
    /// Panel geometry, fixed for the process lifetime.
    pub width: u16,
    pub height: u16,
}

impl World {
    pub open spec fn session_wf(&self, t: TouchSession) -> bool {
        &&& t.layer < self.layers@.len()
        &&& t.button < self.layers@[t.layer as int].buttons@.len()
    }

    pub open spec fn wf(&self) -> bool {
        &&& self.layers@.len() == 5
        &&& self.active_layer < 5
        &&& self.primary_layer < 5
        &&& self.secondary_layer < 5
        &&& forall|k: int|
            0 <= k < 5 ==> 2 <= (#[trigger] self.layers@[k]).buttons@.len() <= 0xFFFF
        &&& forall|j: int|
            0 <= j < self.sessions@.len() ==> self.session_wf(#[trigger] self.sessions@[j])
        &&& slots_unique(self.sessions@)
        &&& 54 <= self.height <= 65527
        &&& 0 < self.width <= 32767
    }

    /// The buttons of the active layer.
    pub open spec fn active_buttons(&self) -> Seq<Button> {
        self.layers@[self.active_layer as int].buttons@
    }

    fn find_session(&self, slot: i32) -> (r: Option<usize>)
        requires
            slots_unique(self.sessions@),
        ensures
            match r {
                Some(j) => tracked_slot(self.sessions@, slot) && j as int == slot_index(
                    self.sessions@,
                    slot,
                ),
                None => !tracked_slot(self.sessions@, slot),
            },
    {
        let mut j: usize = 0;
        while j < self.sessions.len()
            invariant
                j <= self.sessions@.len(),
                slots_unique(self.sessions@),
                forall|k: int| 0 <= k < j ==> (#[trigger] self.sessions@[k].slot) != slot,
            decreases self.sessions@.len() - j,
        {
            if self.sessions[j].slot == slot {
                proof {
                    lemma_slot_index_of(self.sessions@, slot, j as int);
                }
                return Some(j);
            }
            j += 1;
        }
        None
    }
}

// --- the layer state machine ---

/// `post` is `pre` switched to layer `target`, with a full redraw owed.
pub open spec fn is_switched(pre: World, post: World, target: int) -> bool {
    &&& post.active_layer == target
    &&& post.needs_complete_redraw
    &&& post.layers == pre.layers
    &&& post.sessions == pre.sessions
    &&& post.primary_layer == pre.primary_layer
    &&& post.secondary_layer == pre.secondary_layer
    &&& post.font == pre.font
    &&& post.width == pre.width
    &&& post.height == pre.height
}

/// The transition rules of the layer state machine: the Fn key is a momentary
/// shift (press selects the secondary layer, release the primary, and only an
/// actual change owes a redraw); each macro key, on press only, switches
/// unconditionally to its fixed auxiliary layer; every other key changes
/// nothing.
pub open spec fn key_event_rel(pre: World, post: World, code: u32, pressed: bool) -> bool {
    if code == KEY_FN as u32 {
        let target = if pressed {
            pre.secondary_layer as int
        } else {
            pre.primary_layer as int
        };
        if target != pre.active_layer as int {
            is_switched(pre, post, target)
        } else {
            post == pre
        }
    } else if code == KEY_MACRO1 as u32 && pressed {
        is_switched(pre, post, 3)
    } else if code == KEY_MACRO2 as u32 && pressed {
        is_switched(pre, post, 2)
    } else if code == KEY_MACRO3 as u32 && pressed {
        is_switched(pre, post, 4)
    } else {
        post == pre
    }
}

impl World {
    /// Applies one keyboard event to the layer state machine.
    pub fn handle_key(&mut self, code: u32, pressed: bool)
        requires
            old(self).wf(),
        ensures
            final(self).wf(),
            key_event_rel(*old(self), *final(self), code, pressed),
    {
        if code == KEY_FN as u32 {
            let target = if pressed {
                self.secondary_layer
            } else {
                self.primary_layer
            };
            if target != self.active_layer {
                self.active_layer = target;
                self.needs_complete_redraw = true;
            }
        } else if code == KEY_MACRO1 as u32 && pressed {
            self.active_layer = 3;
            self.needs_complete_redraw = true;
        } else if code == KEY_MACRO2 as u32 && pressed {
            self.active_layer = 2;
            self.needs_complete_redraw = true;
        } else if code == KEY_MACRO3 as u32 && pressed {
            self.active_layer = 4;
            self.needs_complete_redraw = true;
        }
    }
}

// --- the touch-session tracker ---

/// `b` after setting its activation, through the single mutation entry point.
pub open spec fn activate_button(b: Button, on: bool) -> Button {
    if b.active == on {
        b
    } else {
        Button { image: b.image, changed: true, active: on, action: b.action }
    }
}

/// The frames one activation change emits: a press/release toggle with its
/// report when the value changes, nothing otherwise.
pub open spec fn toggle_frames(b: Button, on: bool) -> Seq<EventFrame> {
    if b.active == on {
        Seq::empty()
    } else {
        key_frames_spec(
            b.action,
            if on {
                1i32
            } else {
                0i32
            },
        )
    }
}

/// All fields except the layers and the session table are unchanged.
pub open spec fn same_but_tracking(pre: World, post: World) -> bool {
    &&& post.active_layer == pre.active_layer
    &&& post.needs_complete_redraw == pre.needs_complete_redraw
    &&& post.primary_layer == pre.primary_layer
    &&& post.secondary_layer == pre.secondary_layer
    &&& post.font == pre.font
    &&& post.width == pre.width
    &&& post.height == pre.height
}

/// The layers of `post` are those of `pre` with button `bi` of layer `li`
/// replaced by `b`.
pub open spec fn layers_with_button(pre: World, post: World, li: int, bi: int, b: Button) -> bool {
    &&& post.layers@.len() == pre.layers@.len()
    &&& forall|k: int|
        0 <= k < pre.layers@.len() && k != li ==> (#[trigger] post.layers@[k]) == pre.layers@[k]
    &&& post.layers@[li].buttons@ == pre.layers@[li].buttons@.update(bi, b)
}

/// A touch-down: the candidate cell comes from the horizontal coordinate by
/// average pitch and is confirmed by the hit test; a hit on an actionable
/// button creates (or retargets) the slot's session and activates the button,
/// anything else is ignored.
pub open spec fn touch_down_rel(
    pre: World,
    post: World,
    slot: i32,
    x: u32,
    y: u32,
    frames: Seq<EventFrame>,
) -> bool {
    let num = pre.active_buttons().len() as int;
    let btn = (x as int) * num / (pre.width as int);
    if btn < num && hit_spec(num, btn, pre.width as int, pre.height as int, x as int, y as int)
        && pre.active_buttons()[btn].touch_actionable() {
        let b = pre.active_buttons()[btn];
        &&& same_but_tracking(pre, post)
        &&& layers_with_button(pre, post, pre.active_layer as int, btn, activate_button(b, true))
        &&& post.sessions@ == upsert_session(
            pre.sessions@,
            TouchSession { slot, layer: pre.active_layer, button: btn as usize },
        )
        &&& frames == toggle_frames(b, true)
    } else {
        post == pre && frames =~= Seq::<EventFrame>::empty()
    }
}

/// A touch motion: an untracked slot is ignored; a tracked one re-runs the
/// hit test against its recorded button with the new coordinates and sets the
/// button's activation to the result (drag-off deactivates, drag-back
/// reactivates, without a new session).
pub open spec fn touch_motion_rel(
    pre: World,
    post: World,
    slot: i32,
    x: u32,
    y: u32,
    frames: Seq<EventFrame>,
) -> bool {
    if tracked_slot(pre.sessions@, slot) {
        let t = session_of(pre.sessions@, slot);
        let b = pre.layers@[t.layer as int].buttons@[t.button as int];
        if b.touch_actionable() {
            let num = pre.layers@[t.layer as int].buttons@.len() as int;
            let hit = hit_spec(
                num,
                t.button as int,
                pre.width as int,
                pre.height as int,
                x as int,
                y as int,
            );
            &&& same_but_tracking(pre, post)
            &&& post.sessions@ == pre.sessions@
            &&& layers_with_button(pre, post, t.layer as int, t.button as int, activate_button(b, hit))
            &&& frames == toggle_frames(b, hit)
        } else {
            post == pre && frames =~= Seq::<EventFrame>::empty()
        }
    } else {
        post == pre && frames =~= Seq::<EventFrame>::empty()
    }
}

/// A touch-up: an untracked slot is ignored; a tracked one forces its button
/// inactive and ends the session, wherever the finger lifted.
pub open spec fn touch_up_rel(
    pre: World,
    post: World,
    slot: i32,
    frames: Seq<EventFrame>,
) -> bool {
    if tracked_slot(pre.sessions@, slot) {
        let t = session_of(pre.sessions@, slot);
        let b = pre.layers@[t.layer as int].buttons@[t.button as int];
        if b.touch_actionable() {
            &&& same_but_tracking(pre, post)
            &&& post.sessions@ == pre.sessions@.remove(slot_index(pre.sessions@, slot))
            &&& layers_with_button(pre, post, t.layer as int, t.button as int, activate_button(b, false))
            &&& frames == toggle_frames(b, false)
        } else {
            post == pre && frames =~= Seq::<EventFrame>::empty()
        }
    } else {
        post == pre && frames =~= Seq::<EventFrame>::empty()
    }
}

impl World {
    /// Flips one button's activation and returns the frames owed for it.
    fn set_button_active(&mut self, li: usize, bi: usize, on: bool) -> (frames: Vec<EventFrame>)
        requires
            old(self).wf(),
            li < old(self).layers@.len(),
            bi < old(self).layers@[li as int].buttons@.len(),
        ensures
            final(self).wf(),
            same_but_tracking(*old(self), *final(self)),
            final(self).sessions@ == old(self).sessions@,
            layers_with_button(
                *old(self),
                *final(self),
                li as int,
                bi as int,
                activate_button(old(self).layers@[li as int].buttons@[bi as int], on),
            ),
            frames@ == toggle_frames(old(self).layers@[li as int].buttons@[bi as int], on),
    {
        let layer = &mut self.layers[li];
        let b = &mut layer.buttons[bi];
        let toggle = b.set_active(on);
        proof {
            assert(self.layers@[li as int].buttons@ =~= old(self).layers@[li as
                int].buttons@.update(
                bi as int,
                activate_button(old(self).layers@[li as int].buttons@[bi as int], on),
            ));
        }
        match toggle {
            Some((code, value)) => key_frames(code, value),
            None => Vec::new(),
        }
    }

    /// Applies one touch-down event.
    pub fn touch_down(&mut self, slot: i32, x: u32, y: u32) -> (frames: Vec<EventFrame>)
        requires
            old(self).wf(),
            x <= old(self).width,
        ensures
            final(self).wf(),
            touch_down_rel(*old(self), *final(self), slot, x, y, frames@),
    {
        let num = self.layers[self.active_layer].buttons.len();
        let btn = touch_candidate(num, self.width, x);
        if btn >= num {
            return Vec::new();
        }
        if !hit_test(num, btn, self.width, self.height, x, y) {
            return Vec::new();
        }
        let action = self.layers[self.active_layer].buttons[btn].action;
        if action == KEY_UNKNOWN || action == KEY_TIME {
            return Vec::new();
        }
        let t = TouchSession { slot, layer: self.active_layer, button: btn };
        match self.find_session(slot) {
            Some(j) => {
                let entry = &mut self.sessions[j];
                *entry = t;
            },
            None => {
                self.sessions.push(t);
            },
        }
        proof {
            assert(self.sessions@ == upsert_session(old(self).sessions@, t));
            assert forall|j1: int, j2: int|
                0 <= j1 < j2 < self.sessions@.len() implies self.sessions@[j1].slot
                != self.sessions@[j2].slot by {
                if tracked_slot(old(self).sessions@, slot) {
                } else {
                    assert(forall|k: int|
                        0 <= k < old(self).sessions@.len() ==> (#[trigger] old(
                            self,
                        ).sessions@[k].slot) != slot);
                }
            }
        }
        self.set_button_active(t.layer, t.button, true)
    }

    /// Applies one touch-motion event.
    pub fn touch_motion(&mut self, slot: i32, x: u32, y: u32) -> (frames: Vec<EventFrame>)
        requires
            old(self).wf(),
            x <= old(self).width,
        ensures
            final(self).wf(),
            touch_motion_rel(*old(self), *final(self), slot, x, y, frames@),
    {
        let found = self.find_session(slot);
        match found {
            None => Vec::new(),
            Some(j) => {
                let t = self.sessions[j];
                let num = self.layers[t.layer].buttons.len();
                let action = self.layers[t.layer].buttons[t.button].action;
                if action == KEY_UNKNOWN || action == KEY_TIME {
                    return Vec::new();
                }
                let hit = hit_test(num, t.button, self.width, self.height, x, y);
                self.set_button_active(t.layer, t.button, hit)
            },
        }
    }

    /// Applies one touch-up event.
    pub fn touch_up(&mut self, slot: i32) -> (frames: Vec<EventFrame>)
        requires
            old(self).wf(),
        ensures
            final(self).wf(),
            touch_up_rel(*old(self), *final(self), slot, frames@),
    {
        let found = self.find_session(slot);
        match found {
            None => Vec::new(),
            Some(j) => {
                let t = self.sessions[j];
                let action = self.layers[t.layer].buttons[t.button].action;
                if action == KEY_UNKNOWN || action == KEY_TIME {
                    return Vec::new();
                }
                self.sessions.remove(j);
                proof {
                    assert forall|j1: int, j2: int|
                        0 <= j1 < j2 < self.sessions@.len() implies self.sessions@[j1].slot
                        != self.sessions@[j2].slot by {
                        assert(self.sessions@ == old(self).sessions@.remove(j as int));
                    }
                }
                self.set_button_active(t.layer, t.button, false)
            },
        }
    }
}

// --- virtual device registration ---

/// The logical keys of the first `k` layers' buttons, in order.
pub open spec fn spec_action_codes(layers: Seq<FunctionLayer>, k: int) -> Seq<u16>
    decreases k,
{
    if k <= 0 {
        Seq::empty()
    } else {
        spec_action_codes(layers, k - 1) + layers[k - 1].buttons@.map_values(
            |b: Button| b.action,
        )
    }
}

impl World {
    /// Every logical key referenced across all configured layers, in order:
    /// the set the virtual device advertises once at startup, before any
    /// event is emitted.
    pub fn all_action_codes(&self) -> (r: Vec<u16>)
        ensures
            r@ == spec_action_codes(self.layers@, self.layers@.len() as int),
    {
        let mut out: Vec<u16> = Vec::new();
        let mut k: usize = 0;
        while k < self.layers.len()
            invariant
                k <= self.layers@.len(),
                out@ == spec_action_codes(self.layers@, k as int),
            decreases self.layers@.len() - k,
        {
            let mut i: usize = 0;
            while i < self.layers[k].buttons.len()
                invariant
                    k < self.layers@.len(),
                    i <= self.layers@[k as int].buttons@.len(),
                    out@ == spec_action_codes(self.layers@, k as int) + self.layers@[k as
                        int].buttons@.map_values(|b: Button| b.action).take(i as int),
                decreases self.layers@[k as int].buttons@.len() - i,
            {
                out.push(self.layers[k].buttons[i].action);
                proof {
                    assert(out@ =~= spec_action_codes(self.layers@, k as int) + self.layers@[k as
                        int].buttons@.map_values(|b: Button| b.action).take(i as int + 1));
                }
                i += 1;
            }
            proof {
                assert(out@ =~= spec_action_codes(self.layers@, k as int + 1));
            }
            k += 1;
        }
        out
    }
}

// --- event dispatch ---

/// One raw input event, as plain values.
#[derive(Clone, Copy, PartialEq, Eq, Structural, Debug)]
pub enum InputEvent {
    Key { code: u32, pressed: bool },
    TouchDown { slot: i32, x: u32, y: u32 },
    TouchMotion { slot: i32, x: u32, y: u32 },
    TouchUp { slot: i32 },
}

/// What one dispatched event does: keyboard events drive the layer state
/// machine, from any device; touch events are ignored entirely unless they
/// come from the recognized digitizer while the backlight level is nonzero.
pub open spec fn event_rel(
    pre: World,
    post: World,
    ev: InputEvent,
    from_digitizer: bool,
    backlight_level: u64,
    frames: Seq<EventFrame>,
) -> bool {
    let touch_live = from_digitizer && backlight_level != 0;
    match ev {
        InputEvent::Key { code, pressed } => key_event_rel(pre, post, code, pressed) && frames
            =~= Seq::<EventFrame>::empty(),
        InputEvent::TouchDown { slot, x, y } => if touch_live {
            touch_down_rel(pre, post, slot, x, y, frames)
        } else {
            post == pre && frames =~= Seq::<EventFrame>::empty()
        },
        InputEvent::TouchMotion { slot, x, y } => if touch_live {
            touch_motion_rel(pre, post, slot, x, y, frames)
        } else {
            post == pre && frames =~= Seq::<EventFrame>::empty()
        },
        InputEvent::TouchUp { slot } => if touch_live {
            touch_up_rel(pre, post, slot, frames)
        } else {
            post == pre && frames =~= Seq::<EventFrame>::empty()
        },
    }
}

impl World {
    /// Dispatches one event: the returned frames are owed to the virtual
    /// device, in order.
    pub fn handle_event(&mut self, ev: InputEvent, from_digitizer: bool, backlight_level: u64) -> (frames: Vec<EventFrame>)
        requires
            old(self).wf(),
            ev matches InputEvent::TouchDown { x, .. } ==> x <= old(self).width,
            ev matches InputEvent::TouchMotion { x, .. } ==> x <= old(self).width,
        ensures
            final(self).wf(),
            event_rel(*old(self), *final(self), ev, from_digitizer, backlight_level, frames@),
    {
        let touch_live = from_digitizer && backlight_level != 0;
        match ev {
            InputEvent::Key { code, pressed } => {
                self.handle_key(code, pressed);
                Vec::new()
            },
            InputEvent::TouchDown { slot, x, y } => {
                if touch_live {
                    self.touch_down(slot, x, y)
                } else {
                    Vec::new()
                }
            },
            InputEvent::TouchMotion { slot, x, y } => {
                if touch_live {
                    self.touch_motion(slot, x, y)
                } else {
                    Vec::new()
                }
            },
            InputEvent::TouchUp { slot } => {
                if touch_live {
                    self.touch_up(slot)
                } else {
                    Vec::new()
                }
            },
        }
    }
}

// --- building and reloading the world ---

/// A layer after the narrow-panel accommodation: its first button removed.
pub open spec fn spec_trimmed(l: Seq<Button>, narrow: bool) -> Seq<Button> {
    if narrow && l.len() >= 1 {
        l.drop_first()
    } else {
        l
    }
}

/// The five layers a configuration yields on a panel of the given width.
pub open spec fn spec_world_layers(config: Config, icons: IconSet, narrow: bool) -> Seq<
    Seq<Button>,
> {
    crate::config::spec_layers(config, icons).map_values(|l: Seq<Button>| spec_trimmed(l, narrow))
}

/// The validation a built layer set must pass before it is sworn in.
pub open spec fn layers_valid(ls: Seq<Seq<Button>>) -> bool {
    forall|k: int| 0 <= k < ls.len() ==> 2 <= (#[trigger] ls[k]).len() <= 0xFFFF
}

pub open spec fn layer_views(layers: Seq<FunctionLayer>) -> Seq<Seq<Button>> {
    layers.map_values(|l: FunctionLayer| l.buttons@)
}

/// `w` is the freshly built world of `config` on a panel of this size: the
/// configured layers (trimmed on a narrow panel), the configured primary
/// layer active, no sessions, and a full redraw owed.
pub open spec fn built_world(
    w: World,
    config: Config,
    icons: IconSet,
    width: u16,
    height: u16,
) -> bool {
    &&& layer_views(w.layers@) == spec_world_layers(
        config,
        icons,
        width < NARROW_PANEL_THRESHOLD,
    )
    &&& w.active_layer as int == config.ui.primary_layer.spec_index()
    &&& w.primary_layer as int == config.ui.primary_layer.spec_index()
    &&& w.secondary_layer as int == config.ui.secondary_layer.spec_index()
    &&& w.needs_complete_redraw
    &&& w.sessions@ =~= Seq::<TouchSession>::empty()
    &&& w.font == config.ui.font
    &&& w.width == width
    &&& w.height == height
}

impl World {
    /// Builds the world from a parsed configuration, as one transaction: all
    /// five layers, the narrow-panel accommodation, then validation of the
    /// whole set (every layer needs at least two buttons for the cell
    /// geometry, and at most 65535). Returns the world — None when
    /// validation fails — and the unknown key names that were skipped.
    pub fn build(config: &Config, icons: &IconSet, width: u16, height: u16) -> (r: (
        Option<World>,
        Vec<String>,
    ))
        requires
            54 <= height <= 65527,
            0 < width <= 32767,
        ensures
            r.0 matches Some(w) ==> w.wf() && built_world(w, *config, *icons, width, height),
            r.0 is None <==> !layers_valid(
                spec_world_layers(*config, *icons, width < NARROW_PANEL_THRESHOLD),
            ),
    {
        let ghost goal = spec_world_layers(*config, *icons, width < NARROW_PANEL_THRESHOLD);
        let (mut layers, skipped) = initialize_layers(config, icons);
        let narrow = width < NARROW_PANEL_THRESHOLD;
        if narrow {
            let mut k: usize = 0;
            while k < 5
                invariant
                    layers@.len() == 5,
                    k <= 5,
                    narrow,
                    forall|j: int|
                        0 <= j < k ==> (#[trigger] layers@[j]).buttons@ == spec_trimmed(
                            crate::config::spec_layers(*config, *icons)[j],
                            true,
                        ),
                    forall|j: int|
                        k <= j < 5 ==> (#[trigger] layers@[j]).buttons@
                            == crate::config::spec_layers(*config, *icons)[j],
                decreases 5 - k,
            {
                let layer = &mut layers[k];
                if layer.buttons.len() > 0 {
                    layer.buttons.remove(0);
                    proof {
                        assert(layers@[k as int].buttons@ =~= spec_trimmed(
                            crate::config::spec_layers(*config, *icons)[k as int],
                            true,
                        ));
                    }
                }
                k += 1;
            }
        }
        proof {
            assert(layer_views(layers@) =~= goal);
        }
        let mut ok = true;
        let mut k: usize = 0;
        while k < 5
            invariant
                layers@.len() == 5,
                k <= 5,
                layer_views(layers@) == goal,
                ok <==> (forall|j: int|
                    0 <= j < k ==> 2 <= (#[trigger] layers@[j]).buttons@.len() <= 0xFFFF),
            decreases 5 - k,
        {
            let n = layers[k].buttons.len();
            if n < 2 || n > 0xFFFF {
                ok = false;
            }
            k += 1;
        }
        proof {
            assert forall|j: int| 0 <= j < 5 implies goal[j] == (#[trigger] layers@[j]).buttons@ by {
                assert(goal[j] == layer_views(layers@)[j]);
            }
            assert(layers_valid(goal) <==> (forall|j: int|
                0 <= j < 5 ==> 2 <= (#[trigger] layers@[j]).buttons@.len() <= 0xFFFF));
        }
        if !ok {
            return (None, skipped);
        }
        let w = World {
            layers,
            active_layer: config.ui.primary_layer.index(),
            needs_complete_redraw: true,
            sessions: Vec::new(),
            primary_layer: config.ui.primary_layer.index(),
            secondary_layer: config.ui.secondary_layer.index(),
            font: config.ui.font.clone(),
            width,
            height,
        };
        proof {
            assert(forall|k: int|
                0 <= k < 5 ==> 2 <= (#[trigger] w.layers@[k]).buttons@.len() <= 0xFFFF);
        }
        (Some(w), skipped)
    }

    /// The per-iteration configuration step. `Unchanged` (the file's
    /// modification time is as before) and `Invalid` (it changed but did not
    /// parse) leave the world exactly as it was; a parsed configuration is
    /// built and validated as a whole, then sworn in — resetting the active
    /// layer to its primary, clearing every touch session and forcing a full
    /// redraw — or, when validation fails, the previous configuration stays
    /// in effect. Returns whether a new configuration was applied, and the
    /// unknown key names to report.
    pub fn reload_step(&mut self, reload: ReloadInput) -> (r: (bool, Vec<String>))
        requires
            old(self).wf(),
        ensures
            final(self).wf(),
            reload matches ReloadInput::Unchanged ==> *final(self) == *old(self) && !r.0,
            reload matches ReloadInput::Invalid ==> *final(self) == *old(self) && !r.0,
            reload matches ReloadInput::Parsed(cfg, icons) ==> if layers_valid(
                spec_world_layers(cfg, icons, old(self).width < NARROW_PANEL_THRESHOLD),
            ) {
                r.0 && built_world(
                    *final(self),
                    cfg,
                    icons,
                    old(self).width,
                    old(self).height,
                )
            } else {
                *final(self) == *old(self) && !r.0
            },
    {
        match reload {
            ReloadInput::Unchanged => (false, Vec::new()),
            ReloadInput::Invalid => (false, Vec::new()),
            ReloadInput::Parsed(cfg, icons) => {
                let (built, skipped) = World::build(&cfg, &icons, self.width, self.height);
                match built {
                    Some(w) => {
                        *self = w;
                        (true, skipped)
                    },
                    None => (false, skipped),
                }
            },
        }
    }
}

/// What the caller's configuration check found this iteration: the file
/// unchanged, changed but unparseable, or parsed with its icons looked up.
pub enum ReloadInput {
    Unchanged,
    Invalid,
    Parsed(Config, IconSet),
}

// --- the render step ---

/// The active layer's buttons with every clock button marked dirty, so its
/// text stays current: applied on every iteration, independent of input.
pub open spec fn mark_clock(buttons: Seq<Button>) -> Seq<Button> {
    buttons.map(
        |i: int, b: Button|
            if b.image is Time {
                Button { image: b.image, changed: true, active: b.active, action: b.action }
            } else {
                b
            },
    )
}

pub open spec fn any_dirty(buttons: Seq<Button>) -> bool {
    exists|j: int| 0 <= j < buttons.len() && (#[trigger] buttons[j]).changed
}

impl World {
    /// The render step of one loop iteration: marks visible clock content
    /// dirty, and if a full redraw is owed or any button of the active layer
    /// is dirty, renders and returns the paint plan with the clip rectangles
    /// to flush; otherwise nothing is owed to the screen. The clock text in
    /// the plan comes from the wall clock at the moment of the call.
    pub fn prepare_frame(&mut self) -> (r: Option<(Vec<PaintOp>, Vec<ClipRect>)>)
        requires
            old(self).wf(),
        ensures
            final(self).wf(),
            ({
                let marked = mark_clock(old(self).active_buttons());
                let force = old(self).needs_complete_redraw;
                let w = old(self).width as int;
                let h = old(self).height as int;
                if force || any_dirty(marked) {
                    &&& r matches Some(out) && out.1@ == draw_clips(marked, w, h, force) && (
                    exists|now: crate::clock::ClockTime|
                        crate::clock::clock_time_valid(now) && ops_view(out.0@) == draw_ops(
                            marked,
                            w,
                            h,
                            now,
                            force,
                            old(self).font@,
                        ))
                    &&& !final(self).needs_complete_redraw
                    &&& final(self).active_buttons() == buttons_after_draw(marked, force)
                    &&& forall|k: int|
                        0 <= k < 5 && k != old(self).active_layer as int
                            ==> (#[trigger] final(self).layers@[k]) == old(self).layers@[k]
                    &&& final(self).active_layer == old(self).active_layer
                    &&& final(self).sessions == old(self).sessions
                    &&& final(self).primary_layer == old(self).primary_layer
                    &&& final(self).secondary_layer == old(self).secondary_layer
                    &&& final(self).font == old(self).font
                    &&& final(self).width == old(self).width
                    &&& final(self).height == old(self).height
                } else {
                    r is None && *final(self) == *old(self)
                }
            }),
            old(self).needs_complete_redraw ==> (r matches Some(out) && out.1@ =~= seq![
                full_clip(old(self).width as int, old(self).height as int),
            ]),
    {
        let a = self.active_layer;
        let num = self.layers[a].buttons.len();
        let ghost pre_buttons = self.layers@[a as int].buttons@;
        let mut has_time = false;
        let mut was_dirty = false;
        let mut i: usize = 0;
        while i < num
            invariant
                i <= num,
                *self == *old(self),
                a == self.active_layer,
                a < 5,
                self.layers@.len() == 5,
                num == self.layers@[a as int].buttons@.len(),
                has_time <==> (exists|j: int|
                    0 <= j < i && (#[trigger] pre_buttons[j].image) is Time),
                was_dirty <==> (exists|j: int|
                    0 <= j < i && (#[trigger] pre_buttons[j]).changed),
                pre_buttons == self.layers@[a as int].buttons@,
            decreases num - i,
        {
            let b = &self.layers[a].buttons[i];
            let is_time = match &b.image {
                crate::button::ButtonImage::Time(_) => true,
                _ => false,
            };
            if is_time {
                has_time = true;
            }
            if b.changed {
                was_dirty = true;
            }
            i += 1;
        }
        proof {
            assert(any_dirty(mark_clock(pre_buttons)) <==> (has_time || was_dirty)) by {
                if has_time {
                    let j = choose|j: int| 0 <= j < num && (#[trigger] pre_buttons[j].image) is Time;
                    assert(mark_clock(pre_buttons)[j].changed);
                }
                if was_dirty {
                    let j = choose|j: int| 0 <= j < num && (#[trigger] pre_buttons[j]).changed;
                    assert(mark_clock(pre_buttons)[j].changed);
                }
                if any_dirty(mark_clock(pre_buttons)) {
                    let j = choose|j: int|
                        0 <= j < num && (#[trigger] mark_clock(pre_buttons)[j]).changed;
                    assert(pre_buttons[j].image is Time || pre_buttons[j].changed);
                }
            }
        }
        if !(self.needs_complete_redraw || has_time || was_dirty) {
            proof {
                assert(mark_clock(pre_buttons) =~= pre_buttons);
            }
            return None;
        }
        let mut i: usize = 0;
        while i < num
            invariant
                i <= num,
                a == self.active_layer,
                a < 5,
                self.layers@.len() == 5,
                num == self.layers@[a as int].buttons@.len(),
                num == pre_buttons.len(),
                forall|j: int|
                    0 <= j < i ==> (#[trigger] self.layers@[a as int].buttons@[j]) == mark_clock(
                        pre_buttons,
                    )[j],
                forall|j: int|
                    i <= j < num ==> (#[trigger] self.layers@[a as int].buttons@[j])
                        == pre_buttons[j],
                forall|k: int|
                    0 <= k < 5 && k != a as int ==> (#[trigger] self.layers@[k]) == old(
                        self,
                    ).layers@[k],
                self.active_layer == old(self).active_layer,
                self.needs_complete_redraw == old(self).needs_complete_redraw,
                self.sessions == old(self).sessions,
                self.primary_layer == old(self).primary_layer,
                self.secondary_layer == old(self).secondary_layer,
                self.font == old(self).font,
                self.width == old(self).width,
                self.height == old(self).height,
            decreases num - i,
        {
            let layer = &mut self.layers[a];
            let b = &mut layer.buttons[i];
            let is_time = match &b.image {
                crate::button::ButtonImage::Time(_) => true,
                _ => false,
            };
            if is_time {
                b.changed = true;
            }
            i += 1;
        }
        proof {
            assert(self.layers@[a as int].buttons@ =~= mark_clock(pre_buttons));
        }
        let force = self.needs_complete_redraw;
        let now = local_now();
        let font = self.font.clone();
        let width = self.width;
        let height = self.height;
        let layer = &mut self.layers[a];
        let (ops, clips) = layer.draw(width, height, &font, now, force);
        self.needs_complete_redraw = false;
        proof {
            let marked = mark_clock(pre_buttons);
            let w = old(self).width as int;
            let h = old(self).height as int;
            assert(clock_time_valid_witness(now, ops@, marked, w, h, force, old(self).font@));
        }
        Some((ops, clips))
    }
}

// --- laws ---

/// Switching layers always forces the next render pass to return exactly one
/// clip rectangle covering the full surface, regardless of how many buttons
/// were individually dirty: a key transition that changes the active layer
/// leaves a complete redraw owed, and a render pass with a complete redraw
/// owed returns the single full clip, whatever the buttons' dirty flags.
pub proof fn lemma_switch_forces_full_redraw(
    pre: World,
    post: World,
    code: u32,
    pressed: bool,
    buttons: Seq<Button>,
)
    requires
        key_event_rel(pre, post, code, pressed),
        post.active_layer != pre.active_layer,
    ensures
        post.needs_complete_redraw,
        draw_clips(buttons, post.width as int, post.height as int, true) =~= seq![
            full_clip(post.width as int, post.height as int),
        ],
{
}

/// One slot's drag session: a touch-down inside an inactive, actionable
/// button, a motion still inside, a motion outside, a motion back inside,
/// then the up, produce exactly the activation transitions
/// true -> false -> true -> false and exactly four emitter toggles — press,
/// release, press, release of the button's key, each one key event paired
/// with one report — and none for the motion that stayed inside; the up also
/// ends the slot's tracking.
pub proof fn lemma_drag_sequence(
    w0: World,
    w1: World,
    w2: World,
    w3: World,
    w4: World,
    w5: World,
    slot: i32,
    x0: u32,
    y0: u32,
    x1: u32,
    y1: u32,
    x2: u32,
    y2: u32,
    x3: u32,
    y3: u32,
    f1: Seq<EventFrame>,
    f2: Seq<EventFrame>,
    f3: Seq<EventFrame>,
    f4: Seq<EventFrame>,
    f5: Seq<EventFrame>,
)
    requires
        w0.wf(),
        !tracked_slot(w0.sessions@, slot),
        ({
            let num = w0.active_buttons().len() as int;
            let btn = (x0 as int) * num / (w0.width as int);
            &&& btn < num
            &&& hit_spec(num, btn, w0.width as int, w0.height as int, x0 as int, y0 as int)
            &&& w0.active_buttons()[btn].touch_actionable()
            &&& !w0.active_buttons()[btn].active
            &&& hit_spec(num, btn, w0.width as int, w0.height as int, x1 as int, y1 as int)
            &&& !hit_spec(num, btn, w0.width as int, w0.height as int, x2 as int, y2 as int)
            &&& hit_spec(num, btn, w0.width as int, w0.height as int, x3 as int, y3 as int)
        }),
        touch_down_rel(w0, w1, slot, x0, y0, f1),
        touch_motion_rel(w1, w2, slot, x1, y1, f2),
        touch_motion_rel(w2, w3, slot, x2, y2, f3),
        touch_motion_rel(w3, w4, slot, x3, y3, f4),
        touch_up_rel(w4, w5, slot, f5),
    ensures
        ({
            let num = w0.active_buttons().len() as int;
            let btn = (x0 as int) * num / (w0.width as int);
            let code = w0.active_buttons()[btn].action;
            &&& w1.active_buttons()[btn].active
            &&& w2.active_buttons()[btn].active
            &&& !w3.active_buttons()[btn].active
            &&& w4.active_buttons()[btn].active
            &&& !w5.active_buttons()[btn].active
            &&& f1 == key_frames_spec(code, 1)
            &&& f2 =~= Seq::<EventFrame>::empty()
            &&& f3 == key_frames_spec(code, 0)
            &&& f4 == key_frames_spec(code, 1)
            &&& f5 == key_frames_spec(code, 0)
            &&& !tracked_slot(w5.sessions@, slot)
        }),
{
    let num = w0.active_buttons().len() as int;
    let btn = (x0 as int) * num / (w0.width as int);
    let a = w0.active_layer;
    let b = w0.active_buttons()[btn];
    let code = b.action;
    let t = TouchSession { slot, layer: a, button: btn as usize };
    // The down created the session and pressed the button.
    assert(!b.active);
    let b1 = activate_button(b, true);
    assert(b1.active && b1.action == code && b1.touch_actionable());
    assert(f1 == key_frames_spec(code, 1));
    assert(w1.sessions@ == w0.sessions@.push(t));
    assert(w1.active_layer == a && w1.width == w0.width && w1.height == w0.height);
    assert(w1.active_buttons() == w0.active_buttons().update(btn, b1));
    assert(w1.active_buttons()[btn] == b1);
    // The slot is now tracked, uniquely, against (a, btn).
    assert(forall|k: int|
        0 <= k < w0.sessions@.len() ==> (#[trigger] w0.sessions@[k].slot) != slot);
    assert(slots_unique(w1.sessions@));
    assert(w1.sessions@[w0.sessions@.len() as int] == t);
    lemma_slot_index_of(w1.sessions@, slot, w0.sessions@.len() as int);
    assert(session_of(w1.sessions@, slot) == t);
    // Motion still inside: no transition, nothing emitted.
    assert(w1.layers@[a as int].buttons@.len() == num);
    assert(activate_button(b1, true) == b1);
    assert(f2 =~= Seq::<EventFrame>::empty());
    assert(w2.sessions@ == w1.sessions@);
    assert(w2.active_layer == a && w2.width == w0.width && w2.height == w0.height);
    assert(w2.active_buttons() == w1.active_buttons().update(btn, b1));
    assert(w2.active_buttons()[btn] == b1);
    lemma_slot_index_of(w2.sessions@, slot, w0.sessions@.len() as int);
    assert(session_of(w2.sessions@, slot) == t);
    // Motion outside: the button deactivates and a release is emitted.
    assert(w2.layers@[a as int].buttons@.len() == num);
    let b3 = activate_button(b1, false);
    assert(!b3.active && b3.action == code && b3.touch_actionable());
    assert(f3 == key_frames_spec(code, 0));
    assert(w3.sessions@ == w2.sessions@);
    assert(w3.active_layer == a && w3.width == w0.width && w3.height == w0.height);
    assert(w3.active_buttons()[btn] == b3);
    lemma_slot_index_of(w3.sessions@, slot, w0.sessions@.len() as int);
    assert(session_of(w3.sessions@, slot) == t);
    // Motion back inside: the button reactivates and a press is emitted.
    assert(w3.layers@[a as int].buttons@.len() == num);
    let b4 = activate_button(b3, true);
    assert(b4.active && b4.action == code && b4.touch_actionable());
    assert(f4 == key_frames_spec(code, 1));
    assert(w4.sessions@ == w3.sessions@);
    assert(w4.active_layer == a && w4.width == w0.width && w4.height == w0.height);
    assert(w4.active_buttons()[btn] == b4);
    lemma_slot_index_of(w4.sessions@, slot, w0.sessions@.len() as int);
    assert(session_of(w4.sessions@, slot) == t);
    // The up releases the button and ends the tracking.
    assert(f5 == key_frames_spec(code, 0));
    assert(!activate_button(b4, false).active);
    assert(w5.active_layer == a);
    assert(w5.active_buttons()[btn] == activate_button(b4, false));
    assert(w5.sessions@ == w4.sessions@.remove(w0.sessions@.len() as int));
    assert(w5.sessions@ =~= w0.sessions@);
}

/// The witness form of the render step's clock sample: the sampled time is
/// valid and produced exactly this paint plan.
pub open spec fn clock_time_valid_witness(
    now: crate::clock::ClockTime,
    ops: Seq<PaintOp>,
    marked: Seq<Button>,
    w: int,
    h: int,
    force: bool,
    font: Seq<char>,
) -> bool {
    crate::clock::clock_time_valid(now) && ops_view(ops) == draw_ops(marked, w, h, now, force, font)
}

} // verus!
