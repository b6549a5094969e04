//! State of the "ROMs" tab of the configuration panel: a mandatory
//! acknowledgement, then a download/installation that runs on a thread of
//! its own and reports back through a channel. Each frame, the events that
//! arrived are handed one by one to `RomInstallState::step`, which decides
//! what becomes of the installation and whether the machine must be
//! power-cycled to load the freshly installed ROMs.

use vstd::prelude::*;
use vstd::string::*;
use std::sync::mpsc::Receiver;

verus! {

#[verifier::external_type_specification]
#[verifier::external_body]
#[verifier::reject_recursive_types(T)]
pub struct ExReceiver<T>(Receiver<T>);

/// One ROM file written by the installer.
pub struct InstalledFile {
    pub filename: String,
    pub bytes: u64,
    pub crc32: u32,
    /// CRC32 of the file that was already there, if there was one.
    pub previous_crc32: Option<u32>,
}

/// What the installer thread reports.
pub enum InstallEvent {
    Progress(String),
    Done(Vec<InstalledFile>),
    Error(String),
}

/// What a non-blocking read of the installer's channel gave.
pub enum Received {
    Event(InstallEvent),
    /// Nothing more for now.
    Empty,
    /// The installer thread is gone.
    Disconnected,
}

/// What the caller does after a step.
#[derive(Clone, Copy, Debug, PartialEq, Eq, Structural)]
pub enum PollStep {
    /// Read the channel again.
    Continue,
    /// Stop reading for this frame.
    Stop,
    /// Power-cycle the machine (which reloads the ROMs), and stop reading.
    PowerCycle,
}

pub enum Status {
    Idle,
    /// Progress messages so far.
    Running(Vec<String>),
    Done(Vec<InstalledFile>),
    Failed(String),
}

/// The message shown when the installer thread stopped without a word.
pub open spec fn interrupted_message() -> Seq<char> {
    "Installation interrupted unexpectedly."@
}

/// The note shown after an installed file, comparing it with the file that
/// was there before.
pub open spec fn spec_origin_note(crc32: u32, previous_crc32: Option<u32>) -> Seq<char> {
    match previous_crc32 {
        Some(prev) => if prev == crc32 {
            " (matches the file already there)"@
        } else {
            " (replaced a DIFFERENT file that was already there)"@
        },
        None => Seq::empty(),
    }
}

impl InstalledFile {
    /// How the installed file compares with the one that was there before.
    pub fn origin_note(&self) -> (r: &'static str)
        ensures
            r@ == spec_origin_note(self.crc32, self.previous_crc32),
    {
        match self.previous_crc32 {
            Some(prev) => if prev == self.crc32 {
                " (matches the file already there)"
            } else {
                " (replaced a DIFFERENT file that was already there)"
            },
            None => {
                let r = "";
                proof {
                    reveal_strlit("");
                }
                r
            },
        }
    }
}

/// The line shown next to the spinner while installing: the latest
/// progress message, or a placeholder before the first one.
pub fn progress_line(lines: &Vec<String>) -> (r: &str)
    ensures
        lines@.len() > 0 ==> r@ == lines@.last()@,
        lines@.len() == 0 ==> r@ == "Starting..."@,
{
    let n = lines.len();
    if n == 0 {
        "Starting..."
    } else {
        lines[n - 1].as_str()
    }
}

pub struct RomInstallState {
    /// The "I have read and accept" box, which enables the install button.
    accepted: bool,
    status: Status,
    events: Option<Receiver<InstallEvent>>,
}

impl RomInstallState {
    pub closed spec fn spec_accepted(&self) -> bool {
        self.accepted
    }

    pub closed spec fn spec_status(&self) -> Status {
        self.status
    }

    /// An installer thread is being listened to.
    pub closed spec fn spec_listening(&self) -> bool {
        self.events is Some
    }

    /// An installation shown as running always has an installer thread to
    /// listen to, so the screen cannot stay stuck on "running".
    pub open spec fn never_stuck(&self) -> bool {
        self.spec_status() is Running ==> self.spec_listening()
    }

    pub fn new() -> (s: Self)
        ensures
            s.never_stuck(),
            !s.spec_accepted(),
            s.spec_status() is Idle,
            !s.spec_listening(),
    {
        Self { accepted: false, status: Status::Idle, events: None }
    }

    pub fn status(&self) -> (r: &Status)
        ensures
            *r == self.spec_status(),
    {
        &self.status
    }

    pub fn accepted(&self) -> (r: bool)
        ensures
            r == self.spec_accepted(),
    {
        self.accepted
    }

    pub fn set_accepted(&mut self, accepted: bool)
        ensures
            old(self).never_stuck() ==> final(self).never_stuck(),
            final(self).spec_accepted() == accepted,
            final(self).spec_status() == old(self).spec_status(),
            final(self).spec_listening() == old(self).spec_listening(),
    {
        self.accepted = accepted;
    }

    /// The installation form is shown unless the ROMs are in place and
    /// nothing has been attempted from this screen.
    pub fn shows_form(&self, roms_installed: bool) -> (r: bool)
        ensures
            r == !(self.spec_status() is Idle && roms_installed),
    {
        !(matches!(self.status, Status::Idle) && roms_installed)
    }

    /// The install button is enabled once the notice is accepted, and not
    /// while an installation runs.
    pub fn can_install(&self) -> (r: bool)
        ensures
            r == (self.spec_accepted() && !(self.spec_status() is Running)),
    {
        self.accepted && !matches!(self.status, Status::Running(_))
    }

    /// The channel of the installer thread, while one is being listened to.
    pub fn events(&self) -> (r: Option<&Receiver<InstallEvent>>)
        ensures
            r is Some == self.spec_listening(),
    {
        match &self.events {
            Some(rx) => Some(rx),
            None => None,
        }
    }

    /// An installation has just been started, reporting on `events`.
    pub fn begin_install(&mut self, events: Receiver<InstallEvent>)
        ensures
            final(self).never_stuck(),
            final(self).spec_listening(),
            final(self).spec_status() matches Status::Running(lines) && lines@.len() == 0,
            final(self).spec_accepted() == old(self).spec_accepted(),
    {
        self.events = Some(events);
        self.status = Status::Running(Vec::new());
    }

    /// Takes in what one read of the installer's channel gave, and says what
    /// to do next.
    pub fn step(&mut self, received: Received) -> (r: PollStep)
        ensures
            old(self).never_stuck() ==> final(self).never_stuck(),
            final(self).spec_accepted() == old(self).spec_accepted(),
            match received {
                Received::Event(InstallEvent::Progress(msg)) => {
                    &&& r == PollStep::Continue
                    &&& final(self).spec_listening() == old(self).spec_listening()
                    &&& match old(self).spec_status() {
                        Status::Running(lines) => final(self).spec_status() matches Status::Running(
                            new_lines,
                        ) && new_lines@ == lines@.push(msg),
                        other => final(self).spec_status() == other,
                    }
                },
                Received::Event(InstallEvent::Done(installed)) => {
                    &&& r == PollStep::PowerCycle
                    &&& !final(self).spec_listening()
                    &&& final(self).spec_status() == Status::Done(installed)
                },
                Received::Event(InstallEvent::Error(e)) => {
                    &&& r == PollStep::Stop
                    &&& !final(self).spec_listening()
                    &&& final(self).spec_status() == Status::Failed(e)
                },
                Received::Empty => {
                    &&& r == PollStep::Stop
                    &&& final(self).spec_listening() == old(self).spec_listening()
                    &&& final(self).spec_status() == old(self).spec_status()
                },
                Received::Disconnected => {
                    &&& r == PollStep::Stop
                    &&& !final(self).spec_listening()
                    &&& old(self).spec_status() is Running ==> (final(self).spec_status() matches Status::Failed(
                        e,
                    ) && e@ == interrupted_message())
                    &&& !(old(self).spec_status() is Running) ==> final(self).spec_status()
                        == old(self).spec_status()
                },
            },
    {
        match received {
            Received::Event(InstallEvent::Progress(msg)) => {
                if let Status::Running(lines) = &mut self.status {
                    lines.push(msg);
                }
                PollStep::Continue
            },
            Received::Event(InstallEvent::Done(installed)) => {
                self.status = Status::Done(installed);
                self.events = None;
                PollStep::PowerCycle
            },
            Received::Event(InstallEvent::Error(e)) => {
                self.status = Status::Failed(e);
                self.events = None;
                PollStep::Stop
            },
            Received::Empty => PollStep::Stop,
            Received::Disconnected => {
                if matches!(self.status, Status::Running(_)) {
                    let text = "Installation interrupted unexpectedly.";
                    self.status = Status::Failed(String::from_str(text));
                }
                self.events = None;
                PollStep::Stop
            },
        }
    }
}

} // verus!
