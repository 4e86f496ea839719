//! The tuning step: whether to cap the segment size of a new socket, and how
//! to read and report what the operating system answered.

use crate::decimal::{decimal, render};
use crate::segment::{desired_mss, mss_of, CONFIG_CLIENT_MTU};
use vstd::prelude::*;
use vstd::string::StringExecFns;

verus! {

/// Whether the platform lets a program cap the segment size of a TCP socket.
#[derive(Debug, PartialEq, Eq, Clone, Copy, Structural)]
pub enum Capability {
    /// There is a socket option for the segment size.
    SegmentSizeOption,
    /// There is none, and sockets keep the segment size they come with.
    Absent,
}

/// What became of the tuning step.
#[derive(Debug, PartialEq, Eq, Clone, Copy, Structural)]
pub enum TuneOutcome {
    /// The platform has no such option: nothing was tried.
    Skipped,
    /// The socket's segment size is now capped at `mss`.
    Applied { mss: u32 },
    /// The system refused with `status`; the socket keeps its own sizing.
    Failed { mss: u32, status: i32 },
}

/// How much weight a reported event carries.
#[derive(Debug, PartialEq, Eq, Clone, Copy, Structural)]
pub enum Severity {
    Debug,
    Error,
}

impl Capability {
    /// The segment size to ask for on a new socket, where one can be asked
    /// for.
    pub open spec fn plan(self) -> Option<u32> {
        match self {
            Capability::SegmentSizeOption => Some(mss_of(CONFIG_CLIENT_MTU as int) as u32),
            Capability::Absent => None,
        }
    }

    /// Decides what to ask of a new socket: the client's segment size where
    /// the platform has the option, nothing where it has not.
    pub fn planned_mss(self) -> (plan: Option<u32>)
        ensures
            plan == self.plan(),
            self == Capability::SegmentSizeOption ==> plan == Some(496u32),
            self == Capability::Absent ==> plan.is_none(),
    {
        match self {
            Capability::SegmentSizeOption => Some(desired_mss()),
            Capability::Absent => None,
        }
    }
}

impl TuneOutcome {
    /// The outcome that a returned `status` stands for: zero is success, any
    /// other value a refusal.
    pub open spec fn of_status(mss: u32, status: i32) -> TuneOutcome {
        if status == 0 {
            TuneOutcome::Applied { mss }
        } else {
            TuneOutcome::Failed { mss, status }
        }
    }

    /// Whether the socket's segment size was capped.
    pub open spec fn is_applied(self) -> bool {
        self is Applied
    }

    /// The weight of the event that this outcome is reported with, if it is
    /// reported at all.
    pub open spec fn severity(self) -> Option<Severity> {
        match self {
            TuneOutcome::Skipped => None,
            TuneOutcome::Applied { .. } => Some(Severity::Debug),
            TuneOutcome::Failed { .. } => Some(Severity::Error),
        }
    }

    /// The text of the event that this outcome is reported with. A refusal
    /// is reported with `detail`, the system's own description of the error.
    pub open spec fn message(self, detail: Seq<char>) -> Seq<char> {
        match self {
            TuneOutcome::Skipped => Seq::empty(),
            TuneOutcome::Applied { mss } => "Tunnel config TCP socket MSS: "@ + decimal(mss as nat),
            TuneOutcome::Failed { .. } => "Failed to set MSS on tunnel config TCP socket: "@
                + detail,
        }
    }

    /// Reads the status that the system returned for a request to cap the
    /// segment size at `mss`.
    pub fn assess(mss: u32, status: i32) -> (outcome: TuneOutcome)
        ensures
            outcome == TuneOutcome::of_status(mss, status),
            outcome.is_applied() <==> status == 0,
    {
        if status == 0 {
            TuneOutcome::Applied { mss }
        } else {
            TuneOutcome::Failed { mss, status }
        }
    }

    /// The event to report for this outcome: none where nothing was tried, a
    /// debug event with the applied size on success, an error event with
    /// `detail` on refusal.
    pub fn event(&self, detail: &str) -> (event: Option<(Severity, String)>)
        ensures
            match event {
                Some((severity, text)) => self.severity() == Some(severity) && text@
                    == self.message(detail@),
                None => self.severity().is_none(),
            },
    {
        match self {
            TuneOutcome::Skipped => None,
            TuneOutcome::Applied { mss } => {
                let size = render(*mss);
                let text = String::from_str("Tunnel config TCP socket MSS: ").concat(size.as_str());
                Some((Severity::Debug, text))
            },
            TuneOutcome::Failed { .. } => {
                let text = String::from_str(
                    "Failed to set MSS on tunnel config TCP socket: ",
                ).concat(detail);
                Some((Severity::Error, text))
            },
        }
    }
}

} // verus!
