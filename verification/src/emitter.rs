use vstd::prelude::*;

verus! {

/// One raw event owed to the synthesized input device: the kind, code and
/// value of a Linux input event. The device itself timestamps each frame as
/// "now" when it is written.
#[derive(Clone, Copy, PartialEq, Eq, Structural, Debug)]
pub struct EventFrame {
    pub kind: u16,
    pub code: u16,
    pub value: i32,
}

/// Kernel event-type code of a key event (EV_KEY).
pub const EV_KEY: u16 = 1;

/// Kernel event-type code of a synchronization event (EV_SYN).
pub const EV_SYN: u16 = 0;

/// Synchronization code that closes a report (SYN_REPORT).
pub const SYN_REPORT: u16 = 0;

/// The mandatory two-event framing of one key toggle: the key event with the
/// given value (1 = press, 0 = release), immediately followed by a
/// synchronization report. A key event without a following report is not
/// guaranteed to be observed by consumers.
pub open spec fn key_frames_spec(code: u16, value: i32) -> Seq<EventFrame> {
    seq![
        EventFrame { kind: EV_KEY, code, value },
        EventFrame { kind: EV_SYN, code: SYN_REPORT, value: 0 },
    ]
}

/// Relies on input_linux::EventKind and input_linux::SynchronizeKind: both are
/// repr(u16) mirrors of the kernel input ABI, with EventKind::Key = EV_KEY
/// = 1, EventKind::Synchronize = EV_SYN = 0 and SynchronizeKind::Report
/// = SYN_REPORT = 0.
#[verifier::external_body]
fn event_type_codes() -> (r: (u16, u16, u16))
    ensures
        r == (EV_KEY, EV_SYN, SYN_REPORT),
{
    (
        input_linux::EventKind::Key as u16,
        input_linux::EventKind::Synchronize as u16,
        input_linux::SynchronizeKind::Report as u16,
    )
}

/// The frames of one toggle of a logical key: the key event, then the report.
pub fn key_frames(code: u16, value: i32) -> (r: Vec<EventFrame>)
    ensures
        r@ == key_frames_spec(code, value),
{
    let (ev_key, ev_syn, syn_report) = event_type_codes();
    let mut frames: Vec<EventFrame> = Vec::new();
    frames.push(EventFrame { kind: ev_key, code, value });
    frames.push(EventFrame { kind: ev_syn, code: syn_report, value: 0 });
    proof {
        assert(frames@ =~= key_frames_spec(code, value));
    }
    frames
}

} // verus!
