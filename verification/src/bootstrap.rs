//! The application bootstrap state machine.
//!
//! Startup is a single pass: register each plugin in turn, then hand off to
//! the native event loop. There are two live phases, `Initializing` and
//! `Running`, and one terminal phase, `Stopped`, reached either by normal
//! shutdown or by the fatal-error path. A plugin that fails to register takes
//! the bootstrap straight to the fatal-error path; there is no retry and no
//! partial-degradation mode.

use vstd::prelude::*;

verus! {

/// Number of runtime plugins registered during bootstrap: the database
/// plugin, the filesystem plugin and the shell plugin.
pub const PLUGIN_COUNT: usize = 3;

/// The phase the application is in.
#[derive(Clone, Copy, PartialEq, Eq, Structural, Debug)]
pub enum Phase {
    /// Plugins and the command handler are being registered.
    Initializing,
    /// The native event loop is active.
    Running,
    /// Terminal: normal shutdown or the fatal-error path.
    Stopped,
}

/// The bootstrap state: the current phase, how many plugins have registered,
/// and whether the fatal-error path was taken.
pub struct Bootstrap {
    phase: Phase,
    plugins_registered: usize,
    fatal: bool,
}

impl Bootstrap {
    /// The current phase.
    pub closed spec fn phase(&self) -> Phase {
        self.phase
    }

    /// How many plugins have registered successfully.
    pub closed spec fn plugins_registered(&self) -> int {
        self.plugins_registered as int
    }

    /// Whether the fatal-error path was taken.
    pub closed spec fn failed(&self) -> bool {
        self.fatal
    }

    /// Invariant of every reachable bootstrap state: the event loop runs only
    /// after every plugin registered, and the fatal-error path is terminal.
    pub open spec fn wf(&self) -> bool {
        &&& 0 <= self.plugins_registered() <= PLUGIN_COUNT
        &&& self.phase() == Phase::Running ==> self.plugins_registered() == PLUGIN_COUNT
            && !self.failed()
        &&& self.phase() == Phase::Initializing ==> !self.failed()
        &&& self.failed() ==> self.phase() == Phase::Stopped
    }

    /// A fresh bootstrap: initializing, nothing registered, no error.
    pub fn new() -> (b: Self)
        ensures
            b.wf(),
            b.phase() == Phase::Initializing,
            b.plugins_registered() == 0,
            !b.failed(),
    {
        Bootstrap { phase: Phase::Initializing, plugins_registered: 0, fatal: false }
    }

    /// Records the outcome of registering one plugin. Success keeps the
    /// bootstrap initializing with one more plugin counted; failure takes the
    /// fatal-error path at once.
    pub fn plugin_registered(&mut self, ok: bool)
        requires
            old(self).wf(),
            old(self).phase() == Phase::Initializing,
            old(self).plugins_registered() < PLUGIN_COUNT,
        ensures
            final(self).wf(),
            ok ==> final(self).phase() == Phase::Initializing && final(self).plugins_registered()
                == old(self).plugins_registered() + 1 && !final(self).failed(),
            !ok ==> final(self).phase() == Phase::Stopped && final(self).failed()
                && final(self).plugins_registered() == old(self).plugins_registered(),
    {
        if ok {
            self.plugins_registered = self.plugins_registered + 1;
        } else {
            self.phase = Phase::Stopped;
            self.fatal = true;
        }
    }

    /// Hands off to the event loop. Allowed only once every plugin has
    /// registered: plugins are registered before the event loop starts.
    pub fn start(&mut self)
        requires
            old(self).wf(),
            old(self).phase() == Phase::Initializing,
            old(self).plugins_registered() == PLUGIN_COUNT,
        ensures
            final(self).wf(),
            final(self).phase() == Phase::Running,
            !final(self).failed(),
    {
        self.phase = Phase::Running;
    }

    /// Records that the event loop ended: normally (`ok`), or with a runtime
    /// error, which is fatal.
    pub fn stop(&mut self, ok: bool)
        requires
            old(self).wf(),
            old(self).phase() == Phase::Running,
        ensures
            final(self).wf(),
            final(self).phase() == Phase::Stopped,
            final(self).failed() == !ok,
    {
        self.phase = Phase::Stopped;
        self.fatal = !ok;
    }

    /// The current phase, as a value.
    pub fn current_phase(&self) -> (p: Phase)
        ensures
            p == self.phase(),
    {
        self.phase
    }

    /// How many plugins have registered successfully, as a value.
    pub fn registered_count(&self) -> (n: usize)
        ensures
            n as int == self.plugins_registered(),
    {
        self.plugins_registered
    }

    /// Whether the fatal-error path was taken, as a value.
    pub fn has_failed(&self) -> (f: bool)
        ensures
            f == self.failed(),
    {
        self.fatal
    }
}

/// Runs the whole registration pass over the per-plugin outcomes, then hands
/// off to the event loop if, and only if, every plugin registered. One failed
/// registration reaches the fatal-error path and the event loop never starts.
pub fn bootstrap(outcomes: &Vec<bool>) -> (b: Bootstrap)
    requires
        outcomes@.len() == PLUGIN_COUNT,
    ensures
        b.wf(),
        (forall|i: int| 0 <= i < outcomes@.len() ==> outcomes@[i]) ==> b.phase() == Phase::Running
            && !b.failed(),
        (exists|i: int| 0 <= i < outcomes@.len() && !outcomes@[i]) ==> b.phase() == Phase::Stopped
            && b.failed(),
{
    let mut b = Bootstrap::new();
    let mut i: usize = 0;
    loop
        invariant
            outcomes@.len() == PLUGIN_COUNT,
            i <= PLUGIN_COUNT,
            b.wf(),
            b.phase() == Phase::Initializing,
            b.plugins_registered() == i,
            forall|j: int| 0 <= j < i ==> outcomes@[j],
        decreases PLUGIN_COUNT - i,
    {
        if i == outcomes.len() {
            b.start();
            return b;
        }
        let ok = outcomes[i];
        b.plugin_registered(ok);
        if !ok {
            return b;
        }
        i = i + 1;
    }
}

/// The message reported when the fatal-error path terminates the process.
pub fn fatal_message() -> (msg: &'static str)
    ensures
        msg@ == "error while running tauri application"@,
{
    "error while running tauri application"
}

} // verus!
