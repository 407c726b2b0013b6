use app_bootstrap::machine::{Action, Bootstrap, Event, Outcome, Phase};
use app_bootstrap::plan::{
    log_plugin_verbosity, plan_len, plugin_at, registration_plan, run_failure_message, BuildMode,
    LogVerbosity, Plugin,
};

fn drive(machine: &mut Bootstrap, event: Event) {
    assert!(machine.event_allowed(event));
    machine.apply(event);
}

#[test]
fn debug_run_registers_four_plugins_in_order() {
    let mut machine = Bootstrap::new(BuildMode::Debug);
    assert_eq!(machine.next_action(), Action::EnterSetup);
    drive(&mut machine, Event::SetupEntered);
    assert_eq!(machine.next_action(), Action::Register(Plugin::Log));
    drive(&mut machine, Event::PluginRegistered);
    assert_eq!(machine.next_action(), Action::Register(Plugin::Fs));
    drive(&mut machine, Event::PluginRegistered);
    assert_eq!(machine.next_action(), Action::Register(Plugin::Dialog));
    drive(&mut machine, Event::PluginRegistered);
    assert_eq!(machine.next_action(), Action::Register(Plugin::Process));
    drive(&mut machine, Event::PluginRegistered);
    assert_eq!(machine.next_action(), Action::StartRunLoop);
    drive(&mut machine, Event::RunLoopStarted);
    assert_eq!(machine.next_action(), Action::AwaitRunLoop);
    drive(&mut machine, Event::RunLoopEnded);
    assert_eq!(machine.next_action(), Action::Stop);
    assert!(machine.is_terminated());
    assert_eq!(machine.phase, Phase::Terminated { outcome: Outcome::Exited });
}

#[test]
fn release_run_registers_three_plugins_in_order() {
    let mut machine = Bootstrap::new(BuildMode::Release);
    assert_eq!(machine.next_action(), Action::EnterSetup);
    drive(&mut machine, Event::SetupEntered);
    assert_eq!(machine.next_action(), Action::Register(Plugin::Fs));
    drive(&mut machine, Event::PluginRegistered);
    assert_eq!(machine.next_action(), Action::Register(Plugin::Dialog));
    drive(&mut machine, Event::PluginRegistered);
    assert_eq!(machine.next_action(), Action::Register(Plugin::Process));
    drive(&mut machine, Event::PluginRegistered);
    assert_eq!(machine.next_action(), Action::StartRunLoop);
    drive(&mut machine, Event::RunLoopStarted);
    drive(&mut machine, Event::RunLoopEnded);
    assert_eq!(machine.next_action(), Action::Stop);
}

#[test]
fn registration_failure_halts_setup() {
    let mut machine = Bootstrap::new(BuildMode::Debug);
    drive(&mut machine, Event::SetupEntered);
    drive(&mut machine, Event::PluginRegistered);
    drive(&mut machine, Event::PluginRegistered);
    assert_eq!(machine.next_action(), Action::Register(Plugin::Dialog));
    drive(&mut machine, Event::PluginFailed);
    assert!(machine.is_terminated());
    assert_eq!(machine.phase, Phase::Terminated { outcome: Outcome::SetupFailed });
    assert_eq!(machine.next_action(), Action::Stop);
    // The run admits no further event: no later registration, no run loop.
    assert!(!machine.event_allowed(Event::PluginRegistered));
    assert!(!machine.event_allowed(Event::PluginFailed));
    assert!(!machine.event_allowed(Event::RunLoopStarted));
    assert!(!machine.event_allowed(Event::RunLoopFailed));
    assert!(!machine.event_allowed(Event::RunLoopEnded));
    assert!(!machine.event_allowed(Event::SetupEntered));
}

#[test]
fn first_registration_failure_halts_release_setup() {
    let mut machine = Bootstrap::new(BuildMode::Release);
    drive(&mut machine, Event::SetupEntered);
    assert_eq!(machine.next_action(), Action::Register(Plugin::Fs));
    drive(&mut machine, Event::PluginFailed);
    assert_eq!(machine.phase, Phase::Terminated { outcome: Outcome::SetupFailed });
    assert!(!machine.event_allowed(Event::RunLoopStarted));
}

#[test]
fn run_loop_failure_demands_abort() {
    let mut machine = Bootstrap::new(BuildMode::Release);
    drive(&mut machine, Event::SetupEntered);
    drive(&mut machine, Event::PluginRegistered);
    drive(&mut machine, Event::PluginRegistered);
    drive(&mut machine, Event::PluginRegistered);
    drive(&mut machine, Event::RunLoopStarted);
    drive(&mut machine, Event::RunLoopFailed);
    assert!(machine.is_terminated());
    assert_eq!(machine.phase, Phase::Terminated { outcome: Outcome::RunLoopFailed });
    assert_eq!(machine.next_action(), Action::Abort);
}

#[test]
fn new_machine_has_not_started() {
    let machine = Bootstrap::new(BuildMode::Debug);
    assert_eq!(machine.mode, BuildMode::Debug);
    assert_eq!(machine.phase, Phase::NotStarted);
    assert!(!machine.is_terminated());
}

#[test]
fn not_started_allows_only_setup_entry() {
    let machine = Bootstrap::new(BuildMode::Debug);
    assert!(machine.event_allowed(Event::SetupEntered));
    assert!(!machine.event_allowed(Event::PluginRegistered));
    assert!(!machine.event_allowed(Event::PluginFailed));
    assert!(!machine.event_allowed(Event::RunLoopStarted));
    assert!(!machine.event_allowed(Event::RunLoopFailed));
    assert!(!machine.event_allowed(Event::RunLoopEnded));
}

#[test]
fn setup_awaiting_run_loop_allows_only_its_start() {
    let mut machine = Bootstrap::new(BuildMode::Release);
    drive(&mut machine, Event::SetupEntered);
    drive(&mut machine, Event::PluginRegistered);
    drive(&mut machine, Event::PluginRegistered);
    drive(&mut machine, Event::PluginRegistered);
    assert!(machine.event_allowed(Event::RunLoopStarted));
    assert!(!machine.event_allowed(Event::PluginRegistered));
    assert!(!machine.event_allowed(Event::PluginFailed));
    assert!(!machine.event_allowed(Event::RunLoopFailed));
}

#[test]
fn debug_plan_lists_all_four_plugins() {
    assert_eq!(plan_len(BuildMode::Debug), 4);
    assert_eq!(
        registration_plan(BuildMode::Debug),
        vec![Plugin::Log, Plugin::Fs, Plugin::Dialog, Plugin::Process],
    );
}

#[test]
fn release_plan_skips_the_logging_plugin() {
    assert_eq!(plan_len(BuildMode::Release), 3);
    assert_eq!(
        registration_plan(BuildMode::Release),
        vec![Plugin::Fs, Plugin::Dialog, Plugin::Process],
    );
}

#[test]
fn plan_positions_follow_the_fixed_order() {
    assert_eq!(plugin_at(BuildMode::Debug, 0), Plugin::Log);
    assert_eq!(plugin_at(BuildMode::Debug, 1), Plugin::Fs);
    assert_eq!(plugin_at(BuildMode::Debug, 2), Plugin::Dialog);
    assert_eq!(plugin_at(BuildMode::Debug, 3), Plugin::Process);
    assert_eq!(plugin_at(BuildMode::Release, 0), Plugin::Fs);
    assert_eq!(plugin_at(BuildMode::Release, 1), Plugin::Dialog);
    assert_eq!(plugin_at(BuildMode::Release, 2), Plugin::Process);
}

#[test]
fn logging_plugin_uses_the_fixed_verbosity() {
    assert_eq!(log_plugin_verbosity(), LogVerbosity::Info);
}

#[test]
fn run_loop_failure_has_the_fixed_diagnostic() {
    assert_eq!(run_failure_message(), "error while running tauri application");
}
