//! The device controller: which writes each request makes, and in what order.
use vstd::prelude::*;

use crate::args::Action;
use crate::dpi::{be_u16, encode_dpi};
use crate::mode::{mode_bytes, DeviceMode};
use crate::session::{ControlFile, DeviceError, FileWrite, Operation, SessionView, WriteOutcome, WriteSession};

verus! {

/// The writes of `set_device_mode(mode)`.
pub open spec fn mode_plan(mode: DeviceMode) -> Seq<(ControlFile, Seq<u8>)> {
    seq![(ControlFile::DeviceMode, mode_bytes(mode))]
}

/// The writes of `set_dpi(dpi)`: managed mode first, then the value.
pub open spec fn dpi_plan(dpi: u16) -> Seq<(ControlFile, Seq<u8>)> {
    seq![(ControlFile::DeviceMode, mode_bytes(DeviceMode::Managed)), (ControlFile::Dpi, be_u16(dpi))]
}

/// The writes that an action asks for.
pub open spec fn action_plan(action: Action) -> Seq<(ControlFile, Seq<u8>)> {
    match action {
        Action::SetDpi(dpi) => dpi_plan(dpi),
        Action::NoCommand => Seq::empty(),
    }
}

/// The device to configure, by the path of its control directory.
#[derive(Debug, Clone)]
pub struct Config {
    pub device_path: String,
}

impl Config {
    pub fn new(device_path: String) -> (r: Config)
        ensures
            r.device_path@ == device_path@,
    {
        Config { device_path }
    }

    /// The write that switches the device to `mode`.
    pub fn set_device_mode(&self, mode: DeviceMode) -> (r: WriteSession)
        ensures
            r.wf(),
            r@ == SessionView::start(mode_plan(mode)),
    {
        let mut writes: Vec<FileWrite> = Vec::new();
        writes.push(FileWrite { file: ControlFile::DeviceMode, bytes: mode.encode() });
        let r = WriteSession::new(writes);
        assert(r@.plan =~= mode_plan(mode));
        r
    }

    /// The writes that set the sensitivity: the mode write to managed, and
    /// after it the value, most significant byte first.
    pub fn set_dpi(&self, dpi: u16) -> (r: WriteSession)
        ensures
            r.wf(),
            r@ == SessionView::start(dpi_plan(dpi)),
    {
        let mut writes: Vec<FileWrite> = Vec::new();
        writes.push(FileWrite { file: ControlFile::DeviceMode, bytes: DeviceMode::Managed.encode() });
        writes.push(FileWrite { file: ControlFile::Dpi, bytes: encode_dpi(dpi) });
        let r = WriteSession::new(writes);
        assert(r@.plan =~= dpi_plan(dpi));
        r
    }

    /// The writes for a resolved action; none for `NoCommand`.
    pub fn session_for(&self, action: Action) -> (r: WriteSession)
        ensures
            r.wf(),
            r@ == SessionView::start(action_plan(action)),
    {
        match action {
            Action::SetDpi(dpi) => self.set_dpi(dpi),
            Action::NoCommand => {
                let r = WriteSession::new(Vec::new());
                assert(r@.plan =~= action_plan(action));
                r
            },
        }
    }
}

/// While setting the sensitivity, the `dpi` write is handed out only once the
/// managed-mode write has been written, and a session that ends well has
/// written the mode first and the value second.
pub proof fn lemma_mode_written_before_dpi(dpi: u16, s: SessionView)
    requires
        s.wf(),
        s.plan == dpi_plan(dpi),
    ensures
        s.pending() == Some((ControlFile::Dpi, be_u16(dpi)))
            ==> s.completed() == seq![(ControlFile::DeviceMode, mode_bytes(DeviceMode::Managed))],
        s.is_finished() && s.result() is Ok ==> s.completed() == dpi_plan(dpi),
{
    if s.pending() == Some((ControlFile::Dpi, be_u16(dpi))) {
        assert(s.done == 1);
        assert(s.completed() =~= seq![(ControlFile::DeviceMode, mode_bytes(DeviceMode::Managed))]);
    }
    if s.is_finished() && s.result() is Ok {
        assert(s.completed() =~= dpi_plan(dpi));
    }
}

/// A request for no action writes nothing: its session is finished, with
/// success, before any write is handed out.
pub proof fn lemma_no_command_writes_nothing(s: SessionView)
    requires
        s.wf(),
        s.plan == action_plan(Action::NoCommand),
    ensures
        s.pending() is None,
        s.is_finished(),
        s.result() == Ok::<(), DeviceError>(()),
        s.attempted() == Seq::<(ControlFile, Seq<u8>)>::empty(),
{
    assert(s.attempted() =~= Seq::<(ControlFile, Seq<u8>)>::empty());
}

/// The step of a write that an outcome reports as failed.
pub open spec fn failed_operation(outcome: WriteOutcome) -> Operation {
    match outcome {
        WriteOutcome::OpenFailed => Operation::Open,
        _ => Operation::Write,
    }
}

/// When the managed-mode write of `set_dpi` fails, the session ends with an
/// error on the `device_mode` file, and the `dpi` write is never handed out.
pub proof fn lemma_failed_mode_write_stops_dpi(dpi: u16, outcome: WriteOutcome)
    requires
        outcome != WriteOutcome::Written,
    ensures
        ({
            let s = SessionView::start(dpi_plan(dpi)).after(outcome);
            &&& s.is_finished()
            &&& s.pending() is None
            &&& s.result() == Err::<(), DeviceError>(
                DeviceError { file: ControlFile::DeviceMode, operation: failed_operation(outcome) },
            )
            &&& s.attempted() == seq![(ControlFile::DeviceMode, mode_bytes(DeviceMode::Managed))]
        }),
{
    let s = SessionView::start(dpi_plan(dpi)).after(outcome);
    assert(s.attempted() =~= seq![(ControlFile::DeviceMode, mode_bytes(DeviceMode::Managed))]);
}

/// Switching the mode depends on nothing but the mode and the outcome of its
/// one write: every such session hands out the same two bytes, and a given
/// outcome ends it the same way, so repeating the request repeats the effect.
pub proof fn lemma_mode_write_repeatable(mode: DeviceMode, outcome: WriteOutcome)
    ensures
        SessionView::start(mode_plan(mode)).pending() == Some((ControlFile::DeviceMode, mode_bytes(mode))),
        SessionView::start(mode_plan(mode)).after(outcome).is_finished(),
        SessionView::start(mode_plan(mode)).after(outcome).result() == (match outcome {
            WriteOutcome::Written => Ok::<(), DeviceError>(()),
            _ => Err(DeviceError { file: ControlFile::DeviceMode, operation: failed_operation(outcome) }),
        }),
{
}

} // verus!
