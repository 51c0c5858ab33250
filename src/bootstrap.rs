use vstd::prelude::*;

use crate::plugin::{plugin_at, plugin_sequence, Plugin, PLUGIN_COUNT};

verus! {

/// The label of the window whose webview receives the script.
pub const MAIN_WINDOW: &'static str = "main";

/// Script evaluated into the main webview: it keeps the browser's context
/// menu from opening on right click.
pub const CONTEXT_MENU_SCRIPT: &'static str
    = "document.addEventListener('contextmenu', e => e.preventDefault());";

/// Diagnostic given when the event loop fails.
pub const LOOP_FAILED_MESSAGE: &'static str = "error while running application";

/// Diagnostic given when no window named `main` exists at setup time.
pub const MAIN_WINDOW_MISSING_MESSAGE: &'static str = "no window named main exists at setup";

/// A failure that ends the process.
#[derive(Clone, Copy, Debug, PartialEq, Eq)]
pub enum StartupError {
    /// The setup callback found no window named `main`.
    MainWindowMissing,
    /// The event loop reported an error.
    EventLoopFailed,
}

pub open spec fn error_message(e: StartupError) -> Seq<char> {
    match e {
        StartupError::MainWindowMissing => MAIN_WINDOW_MISSING_MESSAGE@,
        StartupError::EventLoopFailed => LOOP_FAILED_MESSAGE@,
    }
}

impl StartupError {
    /// The diagnostic with which the process terminates.
    pub fn message(&self) -> (r: &'static str)
        ensures
            r@ == error_message(*self),
    {
        match self {
            StartupError::MainWindowMissing => MAIN_WINDOW_MISSING_MESSAGE,
            StartupError::EventLoopFailed => LOOP_FAILED_MESSAGE,
        }
    }
}

/// Where the startup sequence stands.
#[derive(Clone, Copy, Debug, PartialEq, Eq)]
pub enum Phase {
    /// Nothing has been done yet.
    Fresh,
    /// Plugins are being registered, one at a time.
    Registering,
    /// All plugins are registered; the lifecycle observer is being installed.
    Installing,
    /// The event loop has been started.
    Running,
    /// The event loop ended without error.
    Exited,
    /// Startup or the event loop failed; the process must terminate.
    Failed(StartupError),
}

/// What the host framework reports to the state machine.
#[derive(Clone, Copy, Debug, PartialEq, Eq)]
pub enum Event {
    /// The process has started and a default configuration exists.
    Start,
    /// The plugin last asked for has been registered.
    PluginRegistered,
    /// The lifecycle observer has been installed.
    ObserverInstalled,
    /// The setup callback looked up the main window.
    SetupRan { main_window: bool },
    /// A webview surface became ready.
    WebviewReady,
    /// The webview surface was destroyed.
    WebviewClosed,
    /// Evaluating the script returned, successfully or not.
    ScriptEvaluated { ok: bool },
    /// The event loop returned.
    LoopExited { ok: bool },
}

/// What the host framework is asked to do next.
#[derive(Clone, Copy, Debug, PartialEq, Eq)]
pub enum Action {
    /// Register this plugin with the configuration.
    RegisterPlugin(Plugin),
    /// Install the lifecycle observer (the setup callback).
    InstallObserver,
    /// Enter the blocking event loop.
    RunLoop,
    /// Evaluate [`CONTEXT_MENU_SCRIPT`] into the main webview, ignoring failure.
    EvalScript,
    /// Nothing to do.
    Wait,
    /// Leave normally.
    Exit,
    /// Terminate the process with the error's diagnostic.
    Abort(StartupError),
}

/// State of the startup sequence.
#[derive(Clone, Copy, Debug, PartialEq, Eq)]
pub struct Bootstrap {
    pub phase: Phase,
    /// How many plugins have been asked for so far.
    pub requested: usize,
    /// Whether the script has been evaluated into the live webview.
    pub script_loaded: bool,
}

/// The state before anything has happened.
pub open spec fn initial_state() -> Bootstrap {
    Bootstrap { phase: Phase::Fresh, requested: 0, script_loaded: false }
}

/// Answer to a report that a webview surface exists.
pub open spec fn on_surface(s: Bootstrap) -> (Bootstrap, Action) {
    if s.script_loaded {
        (s, Action::Wait)
    } else {
        (Bootstrap { script_loaded: true, ..s }, Action::EvalScript)
    }
}

/// One step of the startup sequence: the next state and the action to take.
pub open spec fn transition(s: Bootstrap, e: Event) -> (Bootstrap, Action) {
    match s.phase {
        Phase::Fresh => match e {
            Event::Start => (
                Bootstrap { phase: Phase::Registering, requested: 1, ..s },
                Action::RegisterPlugin(plugin_sequence()[0]),
            ),
            _ => (s, Action::Wait),
        },
        Phase::Registering => match e {
            Event::PluginRegistered => if s.requested < PLUGIN_COUNT {
                (
                    Bootstrap { requested: (s.requested + 1) as usize, ..s },
                    Action::RegisterPlugin(plugin_sequence()[s.requested as int]),
                )
            } else {
                (Bootstrap { phase: Phase::Installing, ..s }, Action::InstallObserver)
            },
            _ => (s, Action::Wait),
        },
        Phase::Installing => match e {
            Event::ObserverInstalled => (Bootstrap { phase: Phase::Running, ..s }, Action::RunLoop),
            _ => (s, Action::Wait),
        },
        Phase::Running => match e {
            Event::SetupRan { main_window } => if main_window {
                on_surface(s)
            } else {
                (
                    Bootstrap { phase: Phase::Failed(StartupError::MainWindowMissing), ..s },
                    Action::Abort(StartupError::MainWindowMissing),
                )
            },
            Event::WebviewReady => on_surface(s),
            Event::WebviewClosed => (Bootstrap { script_loaded: false, ..s }, Action::Wait),
            Event::LoopExited { ok } => if ok {
                (Bootstrap { phase: Phase::Exited, ..s }, Action::Exit)
            } else {
                (
                    Bootstrap { phase: Phase::Failed(StartupError::EventLoopFailed), ..s },
                    Action::Abort(StartupError::EventLoopFailed),
                )
            },
            _ => (s, Action::Wait),
        },
        Phase::Exited => (s, Action::Wait),
        Phase::Failed(err) => (s, Action::Abort(err)),
    }
}

impl Bootstrap {
    /// The invariant of every state reached from the initial one.
    pub open spec fn wf(self) -> bool {
        match self.phase {
            Phase::Fresh => self.requested == 0 && !self.script_loaded,
            Phase::Registering => 1 <= self.requested <= PLUGIN_COUNT && !self.script_loaded,
            Phase::Installing => self.requested == PLUGIN_COUNT && !self.script_loaded,
            _ => self.requested == PLUGIN_COUNT,
        }
    }

    /// A fresh startup sequence.
    pub fn new() -> (r: Bootstrap)
        ensures
            r == initial_state(),
            r.wf(),
    {
        Bootstrap { phase: Phase::Fresh, requested: 0, script_loaded: false }
    }

    fn surface_ready(&mut self) -> (a: Action)
        ensures
            (*final(self), a) == on_surface(*old(self)),
    {
        if self.script_loaded {
            Action::Wait
        } else {
            self.script_loaded = true;
            Action::EvalScript
        }
    }

    /// Takes in what the host reported and says what it must do next.
    pub fn step(&mut self, e: Event) -> (a: Action)
        ensures
            (*final(self), a) == transition(*old(self), e),
            old(self).wf() ==> final(self).wf(),
    {
        match self.phase {
            Phase::Fresh => match e {
                Event::Start => {
                    self.phase = Phase::Registering;
                    self.requested = 1;
                    Action::RegisterPlugin(plugin_at(0))
                },
                _ => Action::Wait,
            },
            Phase::Registering => match e {
                Event::PluginRegistered => {
                    if self.requested < PLUGIN_COUNT {
                        let p = plugin_at(self.requested);
                        self.requested = self.requested + 1;
                        Action::RegisterPlugin(p)
                    } else {
                        self.phase = Phase::Installing;
                        Action::InstallObserver
                    }
                },
                _ => Action::Wait,
            },
            Phase::Installing => match e {
                Event::ObserverInstalled => {
                    self.phase = Phase::Running;
                    Action::RunLoop
                },
                _ => Action::Wait,
            },
            Phase::Running => match e {
                Event::SetupRan { main_window } => {
                    if main_window {
                        self.surface_ready()
                    } else {
                        self.phase = Phase::Failed(StartupError::MainWindowMissing);
                        Action::Abort(StartupError::MainWindowMissing)
                    }
                },
                Event::WebviewReady => self.surface_ready(),
                Event::WebviewClosed => {
                    self.script_loaded = false;
                    Action::Wait
                },
                Event::LoopExited { ok } => {
                    if ok {
                        self.phase = Phase::Exited;
                        Action::Exit
                    } else {
                        self.phase = Phase::Failed(StartupError::EventLoopFailed);
                        Action::Abort(StartupError::EventLoopFailed)
                    }
                },
                _ => Action::Wait,
            },
            Phase::Exited => Action::Wait,
            Phase::Failed(err) => Action::Abort(err),
        }
    }
}

/// The state reached from `s` and the actions handed out, when the host
/// reports `evs` in order.
pub open spec fn run_from(s: Bootstrap, evs: Seq<Event>) -> (Bootstrap, Seq<Action>)
    decreases evs.len(),
{
    if evs.len() == 0 {
        (s, Seq::empty())
    } else {
        let prev = run_from(s, evs.drop_last());
        let next = transition(prev.0, evs.last());
        (next.0, prev.1.push(next.1))
    }
}

/// The plugins asked for by `acts`, in order.
pub open spec fn registrations(acts: Seq<Action>) -> Seq<Plugin>
    decreases acts.len(),
{
    if acts.len() == 0 {
        Seq::empty()
    } else {
        let prev = registrations(acts.drop_last());
        match acts.last() {
            Action::RegisterPlugin(p) => prev.push(p),
            _ => prev,
        }
    }
}

proof fn lemma_registrations_push(acts: Seq<Action>, a: Action)
    ensures
        registrations(acts.push(a)) == match a {
            Action::RegisterPlugin(p) => registrations(acts).push(p),
            _ => registrations(acts),
        },
{
    assert(acts.push(a).drop_last() =~= acts);
}

proof fn lemma_run_invariant(evs: Seq<Event>)
    ensures
        run_from(initial_state(), evs).0.wf(),
        registrations(run_from(initial_state(), evs).1) == plugin_sequence().take(
            run_from(initial_state(), evs).0.requested as int,
        ),
    decreases evs.len(),
{
    if evs.len() == 0 {
        assert(plugin_sequence().take(0) =~= Seq::<Plugin>::empty());
    } else {
        let prev = run_from(initial_state(), evs.drop_last());
        lemma_run_invariant(evs.drop_last());
        let next = transition(prev.0, evs.last());
        lemma_registrations_push(prev.1, next.1);
        let k = prev.0.requested as int;
        if 0 <= k < PLUGIN_COUNT {
            assert(plugin_sequence().take(k + 1) =~= plugin_sequence().take(k).push(
                plugin_sequence()[k],
            ));
        }
    }
}

/// Whatever the host reports, the plugins are asked for in the fixed order
/// and each once: those asked for so far are always a prefix of that order,
/// and the event loop is only started once all of them have been asked for.
pub proof fn lemma_registration_order(evs: Seq<Event>, e: Event)
    ensures
        registrations(run_from(initial_state(), evs).1) == plugin_sequence().take(
            registrations(run_from(initial_state(), evs).1).len() as int,
        ),
        registrations(run_from(initial_state(), evs).1).len() <= PLUGIN_COUNT,
        transition(run_from(initial_state(), evs).0, e).1 is RunLoop ==> registrations(
            run_from(initial_state(), evs).1,
        ) == plugin_sequence(),
{
    lemma_run_invariant(evs);
    let s = run_from(initial_state(), evs).0;
    assert(plugin_sequence().take(PLUGIN_COUNT as int) =~= plugin_sequence());
    assert(plugin_sequence().take(s.requested as int).take(s.requested as int)
        =~= plugin_sequence().take(s.requested as int));
}

/// In every state: the script is evaluated only while the event loop runs,
/// only in answer to the host reporting a live webview, and only if it has
/// not been evaluated into that webview yet; once evaluated, it stays so
/// until the webview closes. So it is evaluated at most once per webview
/// and never before one exists.
pub proof fn lemma_script_once_per_webview(s: Bootstrap, e: Event)
    ensures
        transition(s, e).1 is EvalScript ==> {
            &&& s.phase is Running
            &&& (e is WebviewReady || e == (Event::SetupRan { main_window: true }))
            &&& !s.script_loaded
            &&& transition(s, e).0.script_loaded
        },
        s.script_loaded && !(e is WebviewClosed) ==> transition(s, e).0.script_loaded,
        !s.script_loaded && transition(s, e).0.script_loaded ==> transition(s, e).1 is EvalScript,
{
}

} // verus!
