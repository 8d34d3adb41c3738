use vstd::prelude::*;

verus! {

// Logical keys are Linux evdev key codes. The constants below name the codes
// that the engine's rules single out; each mirrors the equally named variant
// of input_linux::Key (itself the kernel's input-event-codes list), and the
// test suite checks every one of them against that crate.

/// KEY_UNKNOWN: the sentinel action of a button that never emits (no-op).
pub const KEY_UNKNOWN: u16 = 240;
/// KEY_TIME: the sentinel action of the clock button.
pub const KEY_TIME: u16 = 359;
/// KEY_FN: the momentary shift key that selects the secondary layer.
pub const KEY_FN: u16 = 464;
/// KEY_MACRO1..KEY_MACRO4: keys reserved for auxiliary-layer switches.
pub const KEY_MACRO1: u16 = 656;
pub const KEY_MACRO2: u16 = 657;
pub const KEY_MACRO3: u16 = 658;
pub const KEY_MACRO4: u16 = 659;
/// Launcher-style keys: their buttons draw no background box while inactive.
pub const KEY_WWW: u16 = 150;
pub const KEY_ALL_APPLICATIONS: u16 = 204;
pub const KEY_CALC: u16 = 140;
pub const KEY_FILE: u16 = 144;
pub const KEY_PROG1: u16 = 148;
pub const KEY_PROG2: u16 = 149;
pub const KEY_PROG3: u16 = 202;
pub const KEY_PROG4: u16 = 203;

/// The key code that the full key enumeration associates with a configuration
/// name of the form "Key::<Name>", if any.
pub uninterp spec fn key_code_of(name: Seq<char>) -> Option<u16>;

/// Relies on input_linux::Key: `Key::iter()` enumerates every variant, the
/// `Debug` form of a variant is its bare name, and the enum is `repr(u16)`.
/// The result is the code of the variant whose `Key::{:?}` rendering equals
/// `name`; it depends on the name alone.
#[verifier::external_body]
pub(crate) fn lookup_key_code(name: &String) -> (r: Option<u16>)
    ensures
        r == key_code_of(name@),
{
    input_linux::Key::iter().find(|key| format!("Key::{:?}", key) == *name).map(|key| key as u16)
}

} // verus!
