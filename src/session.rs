//! The sequence of control-file writes for one request.
//!
//! A [`WriteSession`] holds the planned writes in order. The caller asks for the
//! next step, performs the write it names (open, write, close), and reports the
//! outcome. The session hands out a write only after every earlier one has been
//! reported written, and ends at the first failure.
use vstd::prelude::*;

verus! {

/// A control file inside the device directory.
#[derive(Debug, Clone, Copy, PartialEq, Eq, Structural)]
pub enum ControlFile {
    /// `device_mode`: the operating mode.
    DeviceMode,
    /// `dpi`: the sensitivity value.
    Dpi,
}

/// The file name of a control file.
pub open spec fn control_file_name(file: ControlFile) -> Seq<char> {
    match file {
        ControlFile::DeviceMode => "device_mode"@,
        ControlFile::Dpi => "dpi"@,
    }
}

impl ControlFile {
    /// The name of the file inside the device directory.
    pub fn name(&self) -> (r: &'static str)
        ensures
            r@ == control_file_name(*self),
    {
        match self {
            ControlFile::DeviceMode => "device_mode",
            ControlFile::Dpi => "dpi",
        }
    }
}

/// Two bytes to be written at the start of a control file.
#[derive(Debug, Clone, Copy, PartialEq, Eq)]
pub struct FileWrite {
    pub file: ControlFile,
    pub bytes: [u8; 2],
}

impl View for FileWrite {
    type V = (ControlFile, Seq<u8>);

    open spec fn view(&self) -> (ControlFile, Seq<u8>) {
        (self.file, self.bytes@)
    }
}

/// The step of a write that failed.
#[derive(Debug, Clone, Copy, PartialEq, Eq, Structural)]
pub enum Operation {
    Open,
    Write,
}

/// What became of a write that the caller performed.
#[derive(Debug, Clone, Copy, PartialEq, Eq, Structural)]
pub enum WriteOutcome {
    /// The file was opened, both bytes were written, and it was closed.
    Written,
    /// The file could not be opened.
    OpenFailed,
    /// The file was opened, but the bytes were not all written.
    WriteFailed,
}

/// A failed control-file write: which file, and which step of the write.
#[derive(Debug, Clone, Copy, PartialEq, Eq, Structural)]
pub struct DeviceError {
    pub file: ControlFile,
    pub operation: Operation,
}

/// What the caller does next.
#[derive(Debug, Clone, Copy, PartialEq, Eq)]
pub enum Step {
    /// Perform this write, then report its outcome.
    Perform(FileWrite),
    /// Nothing more is written; the request ended with this result.
    Finished(Result<(), DeviceError>),
}

/// The abstract state of a session.
pub ghost struct SessionView {
    /// The writes of the request, in the order in which they must happen.
    pub plan: Seq<(ControlFile, Seq<u8>)>,
    /// How many writes, from the start of the plan, were reported written.
    pub done: nat,
    /// The failure of the write that followed them, if one was reported.
    pub failure: Option<DeviceError>,
}

impl SessionView {
    /// A session on `plan` before anything was written.
    pub open spec fn start(plan: Seq<(ControlFile, Seq<u8>)>) -> SessionView {
        SessionView { plan, done: 0, failure: None }
    }

    pub open spec fn wf(self) -> bool {
        &&& self.done <= self.plan.len()
        &&& self.failure is Some ==> self.done < self.plan.len()
            && self.failure->0.file == self.plan[self.done as int].0
    }

    /// No write is left to perform: one failed, or all were written.
    pub open spec fn is_finished(self) -> bool {
        self.failure is Some || self.done == self.plan.len()
    }

    /// The write to perform next, if the session is not finished.
    pub open spec fn pending(self) -> Option<(ControlFile, Seq<u8>)> {
        if self.is_finished() {
            None
        } else {
            Some(self.plan[self.done as int])
        }
    }

    /// The result of a finished session.
    pub open spec fn result(self) -> Result<(), DeviceError> {
        match self.failure {
            Some(e) => Err(e),
            None => Ok(()),
        }
    }

    /// The writes that were reported written, in order.
    pub open spec fn completed(self) -> Seq<(ControlFile, Seq<u8>)> {
        self.plan.take(self.done as int)
    }

    /// The writes that were handed out, in order: the completed ones and the
    /// one that failed, if any.
    pub open spec fn attempted(self) -> Seq<(ControlFile, Seq<u8>)> {
        if self.failure is Some {
            self.plan.take(self.done + 1int)
        } else {
            self.completed()
        }
    }

    /// The session after the pending write ended with `outcome`.
    pub open spec fn after(self, outcome: WriteOutcome) -> SessionView {
        let file = self.plan[self.done as int].0;
        match outcome {
            WriteOutcome::Written => SessionView { done: self.done + 1, ..self },
            WriteOutcome::OpenFailed => SessionView {
                failure: Some(DeviceError { file, operation: Operation::Open }),
                ..self
            },
            WriteOutcome::WriteFailed => SessionView {
                failure: Some(DeviceError { file, operation: Operation::Write }),
                ..self
            },
        }
    }
}

/// The writes of one request and how far they got.
pub struct WriteSession {
    writes: Vec<FileWrite>,
    done: usize,
    failure: Option<DeviceError>,
}

impl View for WriteSession {
    type V = SessionView;

    closed spec fn view(&self) -> SessionView {
        SessionView {
            plan: self.writes@.map_values(|w: FileWrite| w@),
            done: self.done as nat,
            failure: self.failure,
        }
    }
}

impl WriteSession {
    pub open spec fn wf(&self) -> bool {
        self@.wf()
    }

    /// A session that performs `writes` in order.
    pub fn new(writes: Vec<FileWrite>) -> (r: WriteSession)
        ensures
            r.wf(),
            r@ == SessionView::start(writes@.map_values(|w: FileWrite| w@)),
    {
        WriteSession { writes, done: 0, failure: None }
    }

    /// What the caller does next.
    pub fn next_step(&self) -> (r: Step)
        requires
            self.wf(),
        ensures
            match r {
                Step::Perform(w) => self@.pending() == Some(w@),
                Step::Finished(res) => self@.is_finished() && res == self@.result(),
            },
    {
        match self.failure {
            Some(e) => Step::Finished(Err(e)),
            None => {
                if self.done < self.writes.len() {
                    Step::Perform(self.writes[self.done])
                } else {
                    Step::Finished(Ok(()))
                }
            },
        }
    }

    /// Records the outcome of the pending write.
    pub fn report(&mut self, outcome: WriteOutcome)
        requires
            old(self).wf(),
            !old(self)@.is_finished(),
        ensures
            final(self).wf(),
            final(self)@ == old(self)@.after(outcome),
    {
        let n: usize = self.writes.len();
        assert(self.done < n);
        let file = self.writes[self.done].file;
        match outcome {
            WriteOutcome::Written => {
                self.done = self.done + 1;
            },
            WriteOutcome::OpenFailed => {
                self.failure = Some(DeviceError { file, operation: Operation::Open });
            },
            WriteOutcome::WriteFailed => {
                self.failure = Some(DeviceError { file, operation: Operation::Write });
            },
        }
    }
}

} // verus!
