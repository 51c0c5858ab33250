use shitie_host::{
    plugin_at, plugin_order, Action, Bootstrap, Event, Phase, Plugin, StartupError,
    CONTEXT_MENU_SCRIPT, LOOP_FAILED_MESSAGE, MAIN_WINDOW, MAIN_WINDOW_MISSING_MESSAGE,
    PLUGIN_COUNT,
};

/// Drives a fresh sequence up to the point where the event loop is started.
fn running() -> Bootstrap {
    let mut b = Bootstrap::new();
    let mut a = b.step(Event::Start);
    while let Action::RegisterPlugin(_) = a {
        a = b.step(Event::PluginRegistered);
    }
    assert_eq!(a, Action::InstallObserver);
    assert_eq!(b.step(Event::ObserverInstalled), Action::RunLoop);
    b
}

#[test]
fn plugin_order_is_fixed() {
    let expected = vec![
        Plugin::Dialog,
        Plugin::Process,
        Plugin::Upload,
        Plugin::Fs,
        Plugin::Sql,
        Plugin::Opener,
    ];
    assert_eq!(plugin_order(), expected);
    assert_eq!(PLUGIN_COUNT, 6);
    for (i, p) in expected.iter().enumerate() {
        assert_eq!(plugin_at(i), *p);
    }
}

#[test]
fn startup_registers_every_plugin_before_the_loop() {
    let mut b = Bootstrap::new();
    assert_eq!(b.phase, Phase::Fresh);
    let mut asked = Vec::new();
    let mut a = b.step(Event::Start);
    while let Action::RegisterPlugin(p) = a {
        asked.push(p);
        assert_eq!(b.phase, Phase::Registering);
        a = b.step(Event::PluginRegistered);
    }
    assert_eq!(asked, plugin_order());
    assert_eq!(a, Action::InstallObserver);
    assert_eq!(b.phase, Phase::Installing);
    assert_eq!(b.step(Event::ObserverInstalled), Action::RunLoop);
    assert_eq!(b.phase, Phase::Running);
    assert_eq!(b.requested, 6);
}

#[test]
fn two_startups_ask_for_the_same_order() {
    let collect = || {
        let mut b = Bootstrap::new();
        let mut asked = Vec::new();
        let mut a = b.step(Event::Start);
        while let Action::RegisterPlugin(p) = a {
            asked.push(p);
            a = b.step(Event::PluginRegistered);
        }
        asked
    };
    assert_eq!(collect(), collect());
}

#[test]
fn loop_is_not_started_before_registration_ends() {
    let mut b = Bootstrap::new();
    b.step(Event::Start);
    b.step(Event::PluginRegistered);
    let before = b;
    assert_eq!(b.step(Event::ObserverInstalled), Action::Wait);
    assert_eq!(b, before);
    assert_eq!(b.step(Event::LoopExited { ok: true }), Action::Wait);
    assert_eq!(b, before);
}

#[test]
fn event_loop_failure_aborts() {
    let mut b = running();
    let a = b.step(Event::LoopExited { ok: false });
    assert_eq!(a, Action::Abort(StartupError::EventLoopFailed));
    assert_eq!(b.phase, Phase::Failed(StartupError::EventLoopFailed));
    assert_eq!(StartupError::EventLoopFailed.message(), "error while running application");
    assert_eq!(LOOP_FAILED_MESSAGE, "error while running application");
    // once failed, every later report is answered with the same abort
    assert_eq!(b.step(Event::WebviewReady), Action::Abort(StartupError::EventLoopFailed));
}

#[test]
fn missing_main_window_aborts() {
    let mut b = running();
    let a = b.step(Event::SetupRan { main_window: false });
    assert_eq!(a, Action::Abort(StartupError::MainWindowMissing));
    assert_eq!(b.phase, Phase::Failed(StartupError::MainWindowMissing));
    assert!(!b.script_loaded);
    assert_eq!(StartupError::MainWindowMissing.message(), MAIN_WINDOW_MISSING_MESSAGE);
    assert_eq!(
        b.step(Event::LoopExited { ok: false }),
        Action::Abort(StartupError::MainWindowMissing)
    );
}

#[test]
fn loop_ends_normally() {
    let mut b = running();
    assert_eq!(b.step(Event::LoopExited { ok: true }), Action::Exit);
    assert_eq!(b.phase, Phase::Exited);
    assert_eq!(b.step(Event::WebviewReady), Action::Wait);
}

#[test]
fn script_is_evaluated_once_per_webview() {
    let mut b = running();
    assert!(!b.script_loaded);
    assert_eq!(b.step(Event::SetupRan { main_window: true }), Action::EvalScript);
    assert!(b.script_loaded);
    assert_eq!(b.step(Event::WebviewReady), Action::Wait);
    assert_eq!(b.step(Event::SetupRan { main_window: true }), Action::Wait);
    assert_eq!(b.step(Event::WebviewClosed), Action::Wait);
    assert!(!b.script_loaded);
    assert_eq!(b.step(Event::WebviewReady), Action::EvalScript);
    assert_eq!(b.step(Event::WebviewReady), Action::Wait);
}

#[test]
fn script_is_not_evaluated_before_the_loop() {
    let mut b = Bootstrap::new();
    assert_eq!(b.step(Event::WebviewReady), Action::Wait);
    assert_eq!(b, Bootstrap::new());
    b.step(Event::Start);
    assert_eq!(b.step(Event::WebviewReady), Action::Wait);
    assert_eq!(b.step(Event::SetupRan { main_window: true }), Action::Wait);
    assert!(!b.script_loaded);
    assert_eq!(b.phase, Phase::Registering);
}

#[test]
fn script_failure_is_ignored() {
    let mut b = running();
    b.step(Event::SetupRan { main_window: true });
    let before = b;
    assert_eq!(b.step(Event::ScriptEvaluated { ok: false }), Action::Wait);
    assert_eq!(b, before);
    assert_eq!(b.phase, Phase::Running);
}

#[test]
fn script_and_window_constants() {
    assert_eq!(MAIN_WINDOW, "main");
    assert_eq!(
        CONTEXT_MENU_SCRIPT,
        "document.addEventListener('contextmenu', e => e.preventDefault());"
    );
}
