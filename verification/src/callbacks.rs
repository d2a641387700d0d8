//! Events the server reports to its host (status, connections, log
//! entries), the permission status of the process, and the order in which
//! missing permissions are requested.
use vstd::prelude::*;
use vstd::string::StringExecFns;

verus! {

/// Whether the server runs, in what state, and for how long.
pub struct ServerStatus {
    pub running: bool,
    pub state: String,
    pub uptime_secs: u64,
}

impl Default for ServerStatus {
    /// A stopped server: not running, state `stopped`, no uptime.
    fn default() -> (s: Self)
        ensures
            !s.running,
            s.state@ == "stopped"@,
            s.uptime_secs == 0,
    {
        ServerStatus { running: false, state: String::from_str("stopped"), uptime_secs: 0 }
    }
}

/// A client connected or disconnected.
pub enum ConnectionEvent {
    Connected(ConnectionInfo),
    Disconnected(DisconnectionInfo),
}

/// A client that connected.
pub struct ConnectionInfo {
    pub client_ip: String,
    pub client_name: String,
    pub connected_at: String,
}

/// A client that disconnected, with its session's length and traffic.
pub struct DisconnectionInfo {
    pub client_ip: String,
    pub client_name: String,
    pub duration_secs: u64,
    pub bytes_total: u64,
}

/// One log line.
pub struct LogEntry {
    pub level: String,
    pub message: String,
    pub timestamp: String,
}

impl LogEntry {
    /// A copy of this entry.
    pub fn duplicate(&self) -> (e: LogEntry)
        ensures
            e == *self,
    {
        LogEntry {
            level: self.level.clone(),
            message: self.message.clone(),
            timestamp: self.timestamp.clone(),
        }
    }
}

/// The macOS permissions the server needs.
#[derive(Clone, Copy, PartialEq, Eq, Structural, Debug, Default)]
pub struct PermissionStatus {
    pub screen_capture: bool,
    pub accessibility: bool,
    pub microphone: bool,
}

/// A setting that can change while the server runs.
pub enum ConfigUpdate {
    FrameRate(u32),
    BitrateKbps(u32),
    LogLevel(String),
}

/// The permission status from the two checks the process can make; the
/// microphone is not used.
pub fn check_permissions(screen_capture: bool, accessibility: bool) -> (s: PermissionStatus)
    ensures
        s == (PermissionStatus { screen_capture, accessibility, microphone: false }),
{
    PermissionStatus { screen_capture, accessibility, microphone: false }
}

/// What to do next while requesting the permissions; each step but the
/// last is done by the host, which reports its answer (whether the
/// permission is granted, for the checks).
#[derive(Clone, Copy, PartialEq, Eq, Structural, Debug)]
pub enum PermissionStep {
    CheckScreen,
    RequestScreen,
    RecheckScreen,
    OpenScreenSettings,
    CheckAccessibility,
    RequestAccessibility,
    RecheckAccessibility,
    OpenAccessibilitySettings,
    FinalCheckScreen,
    FinalCheckAccessibility { screen_capture: bool },
    Done(PermissionStatus),
}

impl PermissionStep {
    /// The first step: check screen recording.
    pub fn start() -> (s: PermissionStep)
        ensures
            s == PermissionStep::CheckScreen,
    {
        PermissionStep::CheckScreen
    }
}

/// The step after `step`, given the host's answer to it.
///
/// Screen recording first, then accessibility: a permission found missing
/// is requested and checked again, and when still missing its settings
/// pane is opened. Both are then checked a last time and the status comes
/// back in `Done`. Answers to steps that are not checks are not read.
pub fn request_permissions(step: PermissionStep, answer: bool) -> (next: PermissionStep)
    ensures
        next == next_step(step, answer),
{
    match step {
        PermissionStep::CheckScreen => if answer {
            PermissionStep::CheckAccessibility
        } else {
            PermissionStep::RequestScreen
        },
        PermissionStep::RequestScreen => PermissionStep::RecheckScreen,
        PermissionStep::RecheckScreen => if answer {
            PermissionStep::CheckAccessibility
        } else {
            PermissionStep::OpenScreenSettings
        },
        PermissionStep::OpenScreenSettings => PermissionStep::CheckAccessibility,
        PermissionStep::CheckAccessibility => if answer {
            PermissionStep::FinalCheckScreen
        } else {
            PermissionStep::RequestAccessibility
        },
        PermissionStep::RequestAccessibility => PermissionStep::RecheckAccessibility,
        PermissionStep::RecheckAccessibility => if answer {
            PermissionStep::FinalCheckScreen
        } else {
            PermissionStep::OpenAccessibilitySettings
        },
        PermissionStep::OpenAccessibilitySettings => PermissionStep::FinalCheckScreen,
        PermissionStep::FinalCheckScreen => PermissionStep::FinalCheckAccessibility {
            screen_capture: answer,
        },
        PermissionStep::FinalCheckAccessibility { screen_capture } => PermissionStep::Done(
            check_permissions(screen_capture, answer),
        ),
        PermissionStep::Done(s) => PermissionStep::Done(s),
    }
}

/// The step after `step` for `answer`, as `request_permissions` takes it.
pub open spec fn next_step(step: PermissionStep, answer: bool) -> PermissionStep {
    match step {
        PermissionStep::CheckScreen => if answer {
            PermissionStep::CheckAccessibility
        } else {
            PermissionStep::RequestScreen
        },
        PermissionStep::RequestScreen => PermissionStep::RecheckScreen,
        PermissionStep::RecheckScreen => if answer {
            PermissionStep::CheckAccessibility
        } else {
            PermissionStep::OpenScreenSettings
        },
        PermissionStep::OpenScreenSettings => PermissionStep::CheckAccessibility,
        PermissionStep::CheckAccessibility => if answer {
            PermissionStep::FinalCheckScreen
        } else {
            PermissionStep::RequestAccessibility
        },
        PermissionStep::RequestAccessibility => PermissionStep::RecheckAccessibility,
        PermissionStep::RecheckAccessibility => if answer {
            PermissionStep::FinalCheckScreen
        } else {
            PermissionStep::OpenAccessibilitySettings
        },
        PermissionStep::OpenAccessibilitySettings => PermissionStep::FinalCheckScreen,
        PermissionStep::FinalCheckScreen => PermissionStep::FinalCheckAccessibility {
            screen_capture: answer,
        },
        PermissionStep::FinalCheckAccessibility { screen_capture } => PermissionStep::Done(
            PermissionStatus { screen_capture, accessibility: answer, microphone: false },
        ),
        PermissionStep::Done(s) => PermissionStep::Done(s),
    }
}

/// The step reached from `step` when the host answers `answers`, one
/// answer per step.
pub open spec fn run_steps(step: PermissionStep, answers: Seq<bool>) -> PermissionStep
    decreases answers.len(),
{
    if answers.len() == 0 {
        step
    } else {
        run_steps(next_step(step, answers[0]), answers.drop_first())
    }
}

proof fn lemma_done_stays(s: PermissionStatus, answers: Seq<bool>)
    ensures
        run_steps(PermissionStep::Done(s), answers) == PermissionStep::Done(s),
    decreases answers.len(),
{
    if answers.len() > 0 {
        lemma_done_stays(s, answers.drop_first());
    }
}

/// Most steps left before `Done` from `step`.
pub open spec fn steps_left(step: PermissionStep) -> nat {
    match step {
        PermissionStep::CheckScreen => 10,
        PermissionStep::RequestScreen => 9,
        PermissionStep::RecheckScreen => 8,
        PermissionStep::OpenScreenSettings => 7,
        PermissionStep::CheckAccessibility => 6,
        PermissionStep::RequestAccessibility => 5,
        PermissionStep::RecheckAccessibility => 4,
        PermissionStep::OpenAccessibilitySettings => 3,
        PermissionStep::FinalCheckScreen => 2,
        PermissionStep::FinalCheckAccessibility { .. } => 1,
        PermissionStep::Done(_) => 0,
    }
}

/// A permission request ends: from any step, whatever the host answers,
/// `steps_left(step)` answers reach `Done` (ten from the start).
pub proof fn lemma_permission_request_ends(step: PermissionStep, answers: Seq<bool>)
    requires
        answers.len() >= steps_left(step),
    ensures
        run_steps(step, answers) is Done,
    decreases steps_left(step),
{
    if let PermissionStep::Done(s) = step {
        lemma_done_stays(s, answers);
    } else {
        lemma_permission_request_ends(next_step(step, answers[0]), answers.drop_first());
    }
}

} // verus!
