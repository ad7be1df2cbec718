//! The event normalizer: turns one typed input event plus its wall-clock
//! second into at most one log record.
//!
//! Pointer motion is delegated to the distance accumulator and yields a
//! record only on a threshold crossing. Key presses are recorded by
//! occurrence and time alone: the identity of the key is discarded by
//! construction (`EventKind::KeyPress` carries no payload), so it can never
//! appear in a record. Button presses record the button's name. Every
//! other kind of raw event is suppressed: no record, no state change.

use vstd::prelude::*;
use vstd::string::StringExecFns;
use crate::accum::DistanceAccumulator;
use crate::decimal::{detail_string, detail_text, lemma_detail_text_clean};
use crate::record::{LogRecord, clean_field};

verus! {

/// First second of year 10000: admitted wall-clock seconds stay below it,
/// so a formatted timestamp always has a four-digit year.
pub const TIMESTAMP_SECS_MAX: u64 = 253_402_300_800;

/// A typed input event as the capture layer hands it over. A key press
/// carries no key identity, by design. `Other` stands for every raw event
/// kind that is not recorded (releases, wheel motion, and the like).
pub enum EventKind {
    MouseMove,
    KeyPress,
    ButtonPress(String),
    Other,
}

/// One raw input event with its wall-clock time in whole seconds since the
/// Unix epoch.
pub struct InputEvent {
    pub kind: EventKind,
    pub epoch_secs: u64,
}

impl EventKind {
    /// A button name must fit the unescaped delimited format.
    pub open spec fn wf(self) -> bool {
        self matches EventKind::ButtonPress(name) ==> clean_field(name@)
    }
}

impl InputEvent {
    pub open spec fn wf(self) -> bool {
        self.kind.wf() && self.epoch_secs < TIMESTAMP_SECS_MAX
    }
}

/// What chrono prints for `secs` seconds after the Unix epoch with format
/// `%Y-%m-%d %H:%M:%S` in UTC: a function of the instant alone.
pub uninterp spec fn timestamp_text(secs: int) -> Seq<char>;

/// Relies on chrono's `DateTime::<Utc>::from_timestamp` and
/// `format("%Y-%m-%d %H:%M:%S")`: an in-range instant prints as
/// `YYYY-MM-DD HH:MM:SS` — nineteen characters drawn from digits, `-`,
/// `:` and space, so free of commas and newlines.
#[verifier::external_body]
pub fn format_timestamp(secs: u64) -> (r: String)
    requires
        secs < TIMESTAMP_SECS_MAX,
    ensures
        r@ == timestamp_text(secs as int),
        r@.len() == 19,
        clean_field(r@),
{
    let dt = chrono::DateTime::<chrono::Utc>::from_timestamp(secs as i64, 0)
        .expect("seconds below year 10000 are in range");
    dt.format("%Y-%m-%d %H:%M:%S").to_string()
}

/// Relies on `uuid::Uuid::new_v4` and its `Display` form: a fresh random
/// version-4 UUID prints as 36 lowercase hexadecimal and hyphen
/// characters, so free of commas and newlines. The value is random:
/// nothing relates two calls.
#[verifier::external_body]
pub fn fresh_uuid_string() -> (r: String)
    ensures
        r@.len() == 36,
        clean_field(r@),
{
    uuid::Uuid::new_v4().to_string()
}

/// The record tags are short plain words.
pub proof fn lemma_tag_clean()
    ensures
        clean_field("MouseMove"@),
        clean_field("KeyPress"@),
        "MouseMove"@.len() == 9,
        "KeyPress"@.len() == 8,
{
    reveal_strlit("MouseMove");
    reveal_strlit("KeyPress");
}

/// Normalizes one input event: at most one record, with the accumulator as
/// the only state touched.
///
/// - `MouseMove`: exactly one record per threshold crossing of the
///   accumulator, tagged `MouseMove`, its detail the distance traveled.
/// - `KeyPress`: exactly one record, tagged `KeyPress`, detail zero; no
///   key identity exists to record.
/// - `ButtonPress`: exactly one record, tagged with the button's name,
///   detail zero.
/// - `Other`: no record and no side effect.
pub fn normalize(event: &InputEvent, acc: &mut DistanceAccumulator) -> (r: Option<LogRecord>)
    requires
        event.wf(),
        old(acc).wf(),
    ensures
        final(acc).wf(),
        final(acc).scale_micros == old(acc).scale_micros,
        r matches Some(rec) ==> rec.wf() && rec.timestamp@ == timestamp_text(
            event.epoch_secs as int,
        ) && rec.id@.len() == 36,
        event.kind is MouseMove ==> {
            &&& (r is Some <==> (old(acc).total + 1) * (old(acc).scale_micros as int)
                >= crate::decimal::MICROS_PER_UNIT as int)
            &&& (r matches Some(rec) ==> rec.event_type@ == "MouseMove"@ && rec.detail@
                == detail_text(((old(acc).total + 1) * (old(acc).scale_micros as int)) as nat)
                && final(acc).total == 0)
            &&& (r is None ==> final(acc).total == old(acc).total + 1)
        },
        event.kind is KeyPress ==> {
            &&& *final(acc) == *old(acc)
            &&& (r matches Some(rec) ==> rec.event_type@ == "KeyPress"@ && rec.detail@
                == detail_text(0))
            &&& r is Some
        },
        event.kind matches EventKind::ButtonPress(name) ==> {
            &&& *final(acc) == *old(acc)
            &&& (r matches Some(rec) ==> rec.event_type@ == name@ && rec.detail@ == detail_text(
                0,
            ))
            &&& r is Some
        },
        event.kind is Other ==> r is None && *final(acc) == *old(acc),
{
    proof {
        lemma_tag_clean();
    }
    match &event.kind {
        EventKind::MouseMove => {
            match acc.on_mouse_move() {
                Some(micros) => {
                    proof {
                        lemma_detail_text_clean(micros as nat);
                    }
                    Some(
                        LogRecord {
                            id: fresh_uuid_string(),
                            timestamp: format_timestamp(event.epoch_secs),
                            event_type: String::from_str("MouseMove"),
                            detail: detail_string(micros),
                        },
                    )
                },
                None => None,
            }
        },
        EventKind::KeyPress => {
            proof {
                lemma_detail_text_clean(0);
            }
            Some(
                LogRecord {
                    id: fresh_uuid_string(),
                    timestamp: format_timestamp(event.epoch_secs),
                    event_type: String::from_str("KeyPress"),
                    detail: detail_string(0),
                },
            )
        },
        EventKind::ButtonPress(name) => {
            proof {
                lemma_detail_text_clean(0);
            }
            Some(
                LogRecord {
                    id: fresh_uuid_string(),
                    timestamp: format_timestamp(event.epoch_secs),
                    event_type: name.clone(),
                    detail: detail_string(0),
                },
            )
        },
        EventKind::Other => None,
    }
}

} // verus!
