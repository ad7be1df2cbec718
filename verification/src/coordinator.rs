//! The coordinator: sole consumer of the event bus and sole owner of all
//! mutable state (accumulator and log image), so no lock exists anywhere.
//!
//! The owner's loop receives messages in bus order and calls `step` for
//! each; `step` decides, mutates the owned state, and returns the one
//! action the owner must perform (write a line, run an import cycle, or
//! stop). Import runs synchronously from the owner's point of view: after
//! a successful import it calls `finish_import`, which empties the log and
//! hands back the exact new file content. A quit message stops the machine
//! at once; messages still queued behind it are dropped by design.

use vstd::prelude::*;
use crate::accum::DistanceAccumulator;
use crate::decimal::{MICROS_PER_UNIT, detail_text};
use crate::logfile::{LogBuffer, header_text, file_text};
use crate::normalize::{EventKind, InputEvent, normalize, timestamp_text};
use crate::record::LogRecord;

verus! {

/// One message on the event bus, in the order the three producers sent
/// them: the quit source, the input listener, and the periodic timer.
pub enum Message {
    Quit,
    Input(InputEvent),
    ImportAndReset,
}

impl Message {
    pub open spec fn wf(self) -> bool {
        self matches Message::Input(e) ==> e.wf()
    }
}

/// What the owner must do after one step.
pub enum Action {
    /// Append this exact text to the log file and flush it.
    Logged(String),
    /// Nothing: the event was suppressed.
    Silent,
    /// Run one import cycle over the file's current content, then call
    /// `finish_import` and rewrite the file with what it returns.
    RunImport,
    /// Leave the loop; the process is quitting.
    Stop,
}

/// Whether normalizing `e` against accumulator state `acc` emits a record.
pub open spec fn emits(e: InputEvent, acc: DistanceAccumulator) -> bool {
    match e.kind {
        EventKind::MouseMove => (acc.total + 1) * (acc.scale_micros as int)
            >= MICROS_PER_UNIT as int,
        EventKind::KeyPress => true,
        EventKind::ButtonPress(_) => true,
        EventKind::Other => false,
    }
}

/// The accumulator after normalizing `e` from state `acc`.
pub open spec fn acc_after(e: InputEvent, acc: DistanceAccumulator) -> DistanceAccumulator {
    match e.kind {
        EventKind::MouseMove => DistanceAccumulator {
            total: if emits(e, acc) {
                0
            } else {
                (acc.total + 1) as u64
            },
            scale_micros: acc.scale_micros,
        },
        EventKind::KeyPress => acc,
        EventKind::ButtonPress(_) => acc,
        EventKind::Other => acc,
    }
}

/// What must hold of a record emitted for `e` from accumulator state
/// `acc`: everything but the record's fresh random identifier.
pub open spec fn emitted_record(e: InputEvent, acc: DistanceAccumulator, rec: LogRecord) -> bool {
    &&& rec.wf()
    &&& rec.id@.len() == 36
    &&& rec.timestamp@ == timestamp_text(e.epoch_secs as int)
    &&& match e.kind {
        EventKind::MouseMove => rec.event_type@ == "MouseMove"@ && rec.detail@ == detail_text(
            ((acc.total + 1) * (acc.scale_micros as int)) as nat,
        ),
        EventKind::KeyPress => rec.event_type@ == "KeyPress"@ && rec.detail@ == detail_text(0),
        EventKind::ButtonPress(name) => rec.event_type@ == name@ && rec.detail@ == detail_text(0),
        EventKind::Other => false,
    }
}

/// The system's only state machine: `running` until a quit message is
/// observed, then stopped for good.
pub struct Coordinator {
    pub running: bool,
    pub acc: DistanceAccumulator,
    pub log: LogBuffer,
}

impl Coordinator {
    pub open spec fn wf(self) -> bool {
        self.acc.wf() && self.log.wf()
    }

    /// A fresh coordinator: running, nothing accumulated, empty log.
    pub fn new(scale_micros: u64) -> (c: Coordinator)
        requires
            1 <= scale_micros <= crate::accum::MAX_SCALE_MICROS,
        ensures
            c.wf(),
            c.running,
            c.acc.total == 0,
            c.acc.scale_micros == scale_micros,
            c.log.records@.len() == 0,
    {
        Coordinator { running: true, acc: DistanceAccumulator::new(scale_micros), log: LogBuffer::new() }
    }

    /// Consumes one bus message and returns the owner's action.
    ///
    /// A quit message stops the machine and touches nothing else. An input
    /// event is normalized; if a record comes out it is appended to the
    /// log image and the exact line to write is returned. A timer message
    /// changes nothing here: it only tells the owner to run an import
    /// cycle.
    pub fn step(&mut self, msg: Message) -> (act: Action)
        requires
            old(self).wf(),
            old(self).running,
            msg.wf(),
        ensures
            final(self).wf(),
            final(self).acc.scale_micros == old(self).acc.scale_micros,
            final(self).running <==> !(msg is Quit),
            msg is Quit ==> act is Stop && final(self).acc == old(self).acc
                && final(self).log.records@ == old(self).log.records@,
            msg is ImportAndReset ==> act is RunImport && final(self).acc == old(self).acc
                && final(self).log.records@ == old(self).log.records@,
            msg matches Message::Input(e) ==> {
                &&& final(self).acc == acc_after(e, old(self).acc)
                &&& (emits(e, old(self).acc) ==> {
                    &&& final(self).log.records@.len() == old(self).log.records@.len() + 1
                    &&& final(self).log.records@ == old(self).log.records@.push(
                        final(self).log.records@.last(),
                    )
                    &&& emitted_record(e, old(self).acc, final(self).log.records@.last())
                    &&& (act matches Action::Logged(line)
                        && line@ == final(self).log.records@.last().line_text() + seq!['\n'])
                })
                &&& (!emits(e, old(self).acc) ==> act is Silent && final(self).log.records@ == old(
                    self,
                ).log.records@)
            },
    {
        match msg {
            Message::Quit => {
                self.running = false;
                Action::Stop
            },
            Message::Input(e) => {
                match normalize(&e, &mut self.acc) {
                    Some(rec) => {
                        let line = self.log.append(rec);
                        Action::Logged(line)
                    },
                    None => Action::Silent,
                }
            },
            Message::ImportAndReset => Action::RunImport,
        }
    }

    /// Called by the owner after a successful import cycle: empties the
    /// log image and returns the exact new file content — the header line
    /// alone, whatever the log held before.
    pub fn finish_import(&mut self) -> (content: String)
        requires
            old(self).wf(),
        ensures
            final(self).wf(),
            final(self).running == old(self).running,
            final(self).acc == old(self).acc,
            final(self).log.records@.len() == 0,
            content@ == header_text() + seq!['\n'],
            content@ == file_text(final(self).log.records@),
    {
        self.log.reset()
    }

    /// Renders the current image of the log file, as an import cycle reads
    /// it.
    pub fn log_content(&self) -> (s: String)
        ensures
            s@ == file_text(self.log.records@),
    {
        self.log.content_string()
    }
}

} // verus!
