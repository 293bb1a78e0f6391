use crate::capability::{plugin_plan, Capability};
use crate::config::StartupConfig;
use crate::platform::PlatformClass;
use vstd::prelude::*;

verus! {

/// Where the bootstrap stands.
#[derive(PartialEq, Eq, Structural, Clone, Copy, Debug)]
pub enum Phase {
    /// The configuration is built and nothing has been handed to the runtime.
    NotStarted,
    /// The plugins were handed to the runtime and its event loop was entered.
    Running,
}

/// Why the application could not be started.
#[derive(Debug)]
pub enum StartupError {
    /// Start was asked for a second time; the event loop runs once per process.
    AlreadyStarted,
    /// The host runtime's run call failed, with the runtime's description.
    RunFailed(String),
}

/// What a failed start of the host runtime is reported as.
pub open spec fn run_failed_headline() -> Seq<char> {
    "error while running tauri application"@
}

/// What a second start is reported as.
pub open spec fn already_started_headline() -> Seq<char> {
    "application already started"@
}

impl StartupError {
    /// The one-line diagnostic that heads the report of this error.
    pub fn headline(&self) -> (r: &'static str)
        ensures
            r@ == match self {
                StartupError::AlreadyStarted => already_started_headline(),
                StartupError::RunFailed(_) => run_failed_headline(),
            },
    {
        proof {
            reveal_strlit("application already started");
            reveal_strlit("error while running tauri application");
        }
        match self {
            StartupError::AlreadyStarted => "application already started",
            StartupError::RunFailed(_) => "error while running tauri application",
        }
    }
}

/// Turns what the host runtime's run call gave back into the outcome of the
/// start. A failure is passed on, never swallowed: the caller turns it into
/// the termination of the process.
pub fn settle_run(outcome: Result<(), String>) -> (r: Result<(), StartupError>)
    ensures
        r is Ok <==> outcome is Ok,
        outcome matches Err(d) ==> r == Err::<(), StartupError>(StartupError::RunFailed(d)),
{
    match outcome {
        Ok(()) => Ok(()),
        Err(d) => Err(StartupError::RunFailed(d)),
    }
}

/// The bootstrap: a startup configuration and whether it has been handed to
/// the runtime. It moves from `NotStarted` to `Running` once, and never back.
pub struct Launcher {
    phase: Phase,
    config: StartupConfig,
}

impl Launcher {
    /// Where the bootstrap stands.
    pub closed spec fn state(&self) -> Phase {
        self.phase
    }

    /// The plugins to register, in registration order.
    pub closed spec fn plan(&self) -> Seq<Capability> {
        self.config@
    }

    /// The platform class the bootstrap was built for.
    pub closed spec fn class(&self) -> PlatformClass {
        self.config.class()
    }

    /// A bootstrap for `platform`, not started, holding the configuration
    /// that the platform calls for.
    pub fn new(platform: PlatformClass) -> (r: Launcher)
        ensures
            r.state() == Phase::NotStarted,
            r.class() == platform,
            r.plan() == plugin_plan(platform),
    {
        Launcher { phase: Phase::NotStarted, config: StartupConfig::for_platform(platform) }
    }

    /// Where the bootstrap stands.
    pub fn phase(&self) -> (r: Phase)
        ensures
            r == self.state(),
    {
        self.phase
    }

    /// The platform class the bootstrap was built for.
    pub fn platform(&self) -> (r: PlatformClass)
        ensures
            r == self.class(),
    {
        self.config.platform()
    }

    /// Starts the bootstrap: hands out the plugins to register with the
    /// runtime, in order, and moves to `Running`. A second start is refused
    /// and changes nothing.
    pub fn start(&mut self) -> (r: Result<Vec<Capability>, StartupError>)
        ensures
            final(self).plan() == old(self).plan(),
            final(self).class() == old(self).class(),
            final(self).state() == Phase::Running,
            old(self).state() == Phase::NotStarted ==> (r matches Ok(v) && v@ == old(self).plan()),
            old(self).state() == Phase::Running ==> (r matches Err(e)
                && e == StartupError::AlreadyStarted),
    {
        match self.phase {
            Phase::Running => Err(StartupError::AlreadyStarted),
            Phase::NotStarted => {
                self.phase = Phase::Running;
                Ok(self.config.plugins())
            },
        }
    }
}

} // verus!
