use vstd::prelude::*;
use crate::button::{Button, ButtonImage};
use crate::keys::{key_code_of, lookup_key_code};
use crate::render::FunctionLayer;

verus! {

// Configuration model. The schema mirrors the daemon's configuration file;
// parsing the file itself is the caller's job, the library receives the
// parsed plain values and builds the layers from them. Icon files are looked
// up by the caller as well: `layer_icon_requests` says, in order, which
// entries call for an icon, and the builder consumes one `IconOutcome` per
// request.

/// One button of the configuration: a label, a logical key name of the form
/// "Key::<Name>", a rendering mode ("text", "icon", "blank" or "time"), and
/// an icon theme name.
pub struct ButtonConfig {
    pub label: String,
    pub key: String,
    pub mode: String,
    pub theme: String,
}

/// The five layer definitions of the configuration, in their fixed order.
pub struct LayersConfig {
    pub primary_layer_buttons: Vec<ButtonConfig>,
    pub secondary_layer_buttons: Vec<ButtonConfig>,
    pub tertiary_layer_buttons: Vec<ButtonConfig>,
    pub tertiary2_layer_buttons: Vec<ButtonConfig>,
    pub tertiary3_layer_buttons: Vec<ButtonConfig>,
}

/// Which of the first three layers a role (primary/secondary) selects.
#[derive(Clone, Copy, PartialEq, Eq, Structural, Debug)]
pub enum LayerType {
    Function,
    Special,
    SpecialExtended,
}

impl LayerType {
    pub open spec fn spec_index(self) -> int {
        match self {
            LayerType::Function => 0,
            LayerType::Special => 1,
            LayerType::SpecialExtended => 2,
        }
    }

    pub fn index(&self) -> (r: usize)
        ensures
            r == self.spec_index(),
            r < 3,
    {
        match self {
            LayerType::Function => 0,
            LayerType::Special => 1,
            LayerType::SpecialExtended => 2,
        }
    }
}

pub struct UiConfig {
    pub primary_layer: LayerType,
    pub secondary_layer: LayerType,
    pub font: String,
}

pub struct TimeConfig {
    /// 0 selects the 12-hour clock style, 1 the 24-hour style.
    pub use_24_hr: u16,
}

pub struct Config {
    pub ui: UiConfig,
    pub time: TimeConfig,
    pub layers: LayersConfig,
}

/// What the caller's icon lookup found for one requested icon: a decoded
/// vector or raster image by handle, or nothing (the button then falls back
/// to its label as text).
#[derive(Clone, Copy, PartialEq, Eq, Structural, Debug)]
pub enum IconOutcome {
    Svg(usize),
    Png(usize),
    Missing,
}

/// One icon the configuration calls for: the icon name (the button label) and
/// the theme to search.
pub struct IconRequest {
    pub label: String,
    pub theme: String,
}

/// Whether one configuration entry calls for an icon lookup: its mode is
/// "icon" (so neither "blank" nor "time") and its key name is known.
pub open spec fn wants_icon(bc: ButtonConfig) -> bool {
    &&& bc.mode@ != "blank"@
    &&& bc.mode@ != "time"@
    &&& key_code_of(bc.key@) is Some
    &&& bc.mode@ == "icon"@
}

/// How many of the first `k` entries call for an icon.
pub open spec fn icon_count(cfgs: Seq<ButtonConfig>, k: int) -> int
    decreases k,
{
    if k <= 0 {
        0
    } else {
        icon_count(cfgs, k - 1) + (if wants_icon(cfgs[k - 1]) {
            1int
        } else {
            0int
        })
    }
}

/// The icon requests of the first `k` entries, in order, as (label, theme).
pub open spec fn spec_icon_requests(cfgs: Seq<ButtonConfig>, k: int) -> Seq<(Seq<char>, Seq<char>)>
    decreases k,
{
    if k <= 0 {
        Seq::empty()
    } else {
        spec_icon_requests(cfgs, k - 1) + (if wants_icon(cfgs[k - 1]) {
            seq![(cfgs[k - 1].label@, cfgs[k - 1].theme@)]
        } else {
            Seq::empty()
        })
    }
}

/// The outcome at cursor position `j`, or Missing past the end.
pub open spec fn icon_at(icons: Seq<IconOutcome>, j: int) -> IconOutcome {
    if 0 <= j < icons.len() {
        icons[j]
    } else {
        IconOutcome::Missing
    }
}

/// The button one configuration entry yields, if any: "blank" and "time" are
/// built directly; otherwise an unknown key name drops the entry, and a known
/// one yields an icon button (from the looked-up icon, falling back to the
/// label as text), a text button, or nothing for an unknown mode.
pub open spec fn spec_button_of(bc: ButtonConfig, use_24_hr: u16, icon: IconOutcome) -> Option<
    Button,
> {
    if bc.mode@ == "blank"@ {
        Some(
            Button {
                image: ButtonImage::Blank,
                changed: false,
                active: false,
                action: crate::keys::KEY_UNKNOWN,
            },
        )
    } else if bc.mode@ == "time"@ {
        Some(
            Button {
                image: ButtonImage::Time(use_24_hr),
                changed: false,
                active: false,
                action: crate::keys::KEY_TIME,
            },
        )
    } else {
        match key_code_of(bc.key@) {
            Option::None => Option::None,
            Option::Some(code) => if bc.mode@ == "icon"@ {
                Some(
                    Button {
                        image: match icon {
                            IconOutcome::Svg(h) => ButtonImage::Svg(h),
                            IconOutcome::Png(h) => ButtonImage::Png(h),
                            IconOutcome::Missing => ButtonImage::Text(bc.label),
                        },
                        changed: false,
                        active: false,
                        action: code,
                    },
                )
            } else if bc.mode@ == "text"@ {
                Some(Button { image: ButtonImage::Text(bc.label), changed: false, active: false, action: code })
            } else {
                Option::None
            },
        }
    }
}

/// The buttons the first `k` entries yield, consuming icons in request order.
pub open spec fn spec_layer_buttons(
    cfgs: Seq<ButtonConfig>,
    k: int,
    use_24_hr: u16,
    icons: Seq<IconOutcome>,
) -> Seq<Button>
    decreases k,
{
    if k <= 0 {
        Seq::empty()
    } else {
        spec_layer_buttons(cfgs, k - 1, use_24_hr, icons) + (match spec_button_of(
            cfgs[k - 1],
            use_24_hr,
            icon_at(icons, icon_count(cfgs, k - 1)),
        ) {
            Some(b) => seq![b],
            Option::None => Seq::empty(),
        })
    }
}

/// The key names of the first `k` entries that name no known key (each is
/// reported as a diagnostic and its button dropped).
pub open spec fn spec_skipped_keys(cfgs: Seq<ButtonConfig>, k: int) -> Seq<String>
    decreases k,
{
    if k <= 0 {
        Seq::empty()
    } else {
        spec_skipped_keys(cfgs, k - 1) + (if cfgs[k - 1].mode@ != "blank"@ && cfgs[k - 1].mode@
            != "time"@ && key_code_of(cfgs[k - 1].key@) is None {
            seq![cfgs[k - 1].key]
        } else {
            Seq::empty()
        })
    }
}

/// The icons the caller must look up before building from these entries, in
/// the order the builder consumes them.
pub fn layer_icon_requests(cfgs: &Vec<ButtonConfig>) -> (r: Vec<IconRequest>)
    ensures
        r@.map_values(|q: IconRequest| (q.label@, q.theme@)) == spec_icon_requests(
            cfgs@,
            cfgs@.len() as int,
        ),
        r@.len() == icon_count(cfgs@, cfgs@.len() as int),
{
    let mut out: Vec<IconRequest> = Vec::new();
    let blank = blank_mode_str();
    let time = time_mode_str();
    let icon = icon_mode_str();
    let mut i: usize = 0;
    while i < cfgs.len()
        invariant
            i <= cfgs@.len(),
            blank@ == "blank"@ && time@ == "time"@ && icon@ == "icon"@,
            out@.map_values(|q: IconRequest| (q.label@, q.theme@)) == spec_icon_requests(
                cfgs@,
                i as int,
            ),
            out@.len() == icon_count(cfgs@, i as int),
        decreases cfgs@.len() - i,
    {
        let bc = &cfgs[i];
        if !(bc.mode == blank) && !(bc.mode == time) && lookup_key_code(&bc.key).is_some() && bc.mode
            == icon {
            out.push(IconRequest { label: bc.label.clone(), theme: bc.theme.clone() });
        }
        proof {
            assert(out@.map_values(|q: IconRequest| (q.label@, q.theme@)) =~= spec_icon_requests(
                cfgs@,
                i as int + 1,
            ));
        }
        i += 1;
    }
    out
}

fn blank_mode_str() -> (r: String)
    ensures
        r@ == "blank"@,
{
    "blank".to_owned()
}

fn time_mode_str() -> (r: String)
    ensures
        r@ == "time"@,
{
    "time".to_owned()
}

fn icon_mode_str() -> (r: String)
    ensures
        r@ == "icon"@,
{
    "icon".to_owned()
}

fn text_mode_str() -> (r: String)
    ensures
        r@ == "text"@,
{
    "text".to_owned()
}

/// Builds one layer's buttons from its configuration entries, consuming the
/// looked-up icons in request order. Returns the buttons and the unknown key
/// names that were skipped (the caller reports them).
pub fn build_layer_vectors(cfgs: &Vec<ButtonConfig>, use_24_hr: u16, icons: &Vec<IconOutcome>) -> (r:
    (Vec<Button>, Vec<String>))
    ensures
        r.0@ == spec_layer_buttons(cfgs@, cfgs@.len() as int, use_24_hr, icons@),
        r.1@ == spec_skipped_keys(cfgs@, cfgs@.len() as int),
{
    let mut out: Vec<Button> = Vec::new();
    let mut skipped: Vec<String> = Vec::new();
    let blank = blank_mode_str();
    let time = time_mode_str();
    let icon = icon_mode_str();
    let text = text_mode_str();
    let mut cursor: usize = 0;
    let mut i: usize = 0;
    while i < cfgs.len()
        invariant
            i <= cfgs@.len(),
            blank@ == "blank"@ && time@ == "time"@ && icon@ == "icon"@ && text@ == "text"@,
            cursor == icon_count(cfgs@, i as int),
            cursor <= i,
            out@ == spec_layer_buttons(cfgs@, i as int, use_24_hr, icons@),
            skipped@ == spec_skipped_keys(cfgs@, i as int),
        decreases cfgs@.len() - i,
    {
        let bc = &cfgs[i];
        if bc.mode == blank {
            out.push(Button::new_blank());
        } else if bc.mode == time {
            out.push(Button::new_time(use_24_hr));
        } else {
            match lookup_key_code(&bc.key) {
                Option::Some(code) => {
                    if bc.mode == icon {
                        let outcome = if cursor < icons.len() {
                            icons[cursor]
                        } else {
                            IconOutcome::Missing
                        };
                        match outcome {
                            IconOutcome::Svg(h) => out.push(Button::new_svg(h, code)),
                            IconOutcome::Png(h) => out.push(Button::new_png(h, code)),
                            IconOutcome::Missing => out.push(Button::new_text(&bc.label, code)),
                        }
                        cursor += 1;
                    } else if bc.mode == text {
                        out.push(Button::new_text(&bc.label, code));
                    }
                },
                Option::None => {
                    skipped.push(bc.key.clone());
                },
            }
        }
        proof {
            assert(out@ =~= spec_layer_buttons(cfgs@, i as int + 1, use_24_hr, icons@));
            assert(skipped@ =~= spec_skipped_keys(cfgs@, i as int + 1));
        }
        i += 1;
    }
    (out, skipped)
}

/// The looked-up icons for all five layers, in each layer's request order.
pub struct IconSet {
    pub primary: Vec<IconOutcome>,
    pub secondary: Vec<IconOutcome>,
    pub tertiary: Vec<IconOutcome>,
    pub tertiary2: Vec<IconOutcome>,
    pub tertiary3: Vec<IconOutcome>,
}

/// The five layers a configuration defines, in their fixed order, before the
/// narrow-panel accommodation.
pub open spec fn spec_layers(config: Config, icons: IconSet) -> Seq<Seq<Button>> {
    seq![
        spec_layer_buttons(
            config.layers.primary_layer_buttons@,
            config.layers.primary_layer_buttons@.len() as int,
            config.time.use_24_hr,
            icons.primary@,
        ),
        spec_layer_buttons(
            config.layers.secondary_layer_buttons@,
            config.layers.secondary_layer_buttons@.len() as int,
            config.time.use_24_hr,
            icons.secondary@,
        ),
        spec_layer_buttons(
            config.layers.tertiary_layer_buttons@,
            config.layers.tertiary_layer_buttons@.len() as int,
            config.time.use_24_hr,
            icons.tertiary@,
        ),
        spec_layer_buttons(
            config.layers.tertiary2_layer_buttons@,
            config.layers.tertiary2_layer_buttons@.len() as int,
            config.time.use_24_hr,
            icons.tertiary2@,
        ),
        spec_layer_buttons(
            config.layers.tertiary3_layer_buttons@,
            config.layers.tertiary3_layer_buttons@.len() as int,
            config.time.use_24_hr,
            icons.tertiary3@,
        ),
    ]
}

/// Builds the five layers from a configuration. Returns them with the unknown
/// key names skipped across all layers, in order.
pub fn initialize_layers(config: &Config, icons: &IconSet) -> (r: (Vec<FunctionLayer>, Vec<String>))
    ensures
        r.0@.len() == 5,
        forall|k: int|
            0 <= k < 5 ==> (#[trigger] r.0@[k]).buttons@ == spec_layers(*config, *icons)[k],
{
    let mut skipped: Vec<String> = Vec::new();
    let (b0, mut s0) = build_layer_vectors(
        &config.layers.primary_layer_buttons,
        config.time.use_24_hr,
        &icons.primary,
    );
    let (b1, mut s1) = build_layer_vectors(
        &config.layers.secondary_layer_buttons,
        config.time.use_24_hr,
        &icons.secondary,
    );
    let (b2, mut s2) = build_layer_vectors(
        &config.layers.tertiary_layer_buttons,
        config.time.use_24_hr,
        &icons.tertiary,
    );
    let (b3, mut s3) = build_layer_vectors(
        &config.layers.tertiary2_layer_buttons,
        config.time.use_24_hr,
        &icons.tertiary2,
    );
    let (b4, mut s4) = build_layer_vectors(
        &config.layers.tertiary3_layer_buttons,
        config.time.use_24_hr,
        &icons.tertiary3,
    );
    skipped.append(&mut s0);
    skipped.append(&mut s1);
    skipped.append(&mut s2);
    skipped.append(&mut s3);
    skipped.append(&mut s4);
    let mut layers: Vec<FunctionLayer> = Vec::new();
    layers.push(FunctionLayer { buttons: b0 });
    layers.push(FunctionLayer { buttons: b1 });
    layers.push(FunctionLayer { buttons: b2 });
    layers.push(FunctionLayer { buttons: b3 });
    layers.push(FunctionLayer { buttons: b4 });
    (layers, skipped)
}

} // verus!
