use carp::command::CommandLine;
use carp::dependency::{Dependency, GitInstallType, GitOptions};
use carp::service::{ManagedProcess, Role};
use carp::supervisor::{
    exit_code, Action, Config, Event, Phase, PrepareStep, Stage, Supervisor, SupervisorError,
};

const SDK: &str = "https://github.com/paritytech/polkadot-sdk.git";

fn command(program: &str, args: &[&str]) -> CommandLine {
    CommandLine {
        program: program.to_string(),
        args: args.iter().map(|a| a.to_string()).collect(),
    }
}

fn config(dependencies: Vec<Dependency>) -> Config {
    Config {
        dependencies,
        chain_spec_builder: "chain-spec-builder".to_string(),
        node: "polkadot-omni-node".to_string(),
        rpc_bridge: "eth-rpc".to_string(),
        runtime: "./runtimes/westend.wasm".to_string(),
        para_id: 100,
        relay_chain: "paseo".to_string(),
        preset: "development".to_string(),
        chain_spec: "./chain_spec.json".to_string(),
        block_time_ms: 6000,
    }
}

fn stock_dependencies() -> Vec<Dependency> {
    let stable = GitOptions::new(SDK, "polkadot-stable2412", GitInstallType::Tag);
    vec![
        Dependency::new("polkadot-omni-node", "polkadot-omni-node", Some(stable.clone())),
        Dependency::new("chain-spec-builder", "staging-chain-spec-builder", Some(stable)),
        Dependency::new(
            "eth-rpc",
            "pallet-revive-eth-rpc",
            Some(GitOptions::new(
                SDK,
                "d1d92ab76004ce349a97fc5d325eaf9a4a7101b7",
                GitInstallType::CommitHash,
            )),
        ),
    ]
}

/// Feeds the events in order and returns the answer to each.
fn run(supervisor: Supervisor, events: &[Event]) -> (Supervisor, Vec<Vec<Action>>) {
    let mut supervisor = supervisor;
    let mut answers = Vec::new();
    for event in events {
        let (next, actions) = supervisor.step(*event);
        supervisor = next;
        answers.push(actions);
    }
    (supervisor, answers)
}

fn all(answers: &[Vec<Action>]) -> Vec<&Action> {
    answers.iter().flatten().collect()
}

fn installs(answers: &[Vec<Action>]) -> Vec<&Action> {
    all(answers).into_iter().filter(|a| matches!(a, Action::Install { .. })).collect()
}

fn terminations(answers: &[Vec<Action>]) -> Vec<&Action> {
    all(answers).into_iter().filter(|a| matches!(a, Action::Terminate { .. })).collect()
}

fn terminate(pid: u32, role: Role) -> Action {
    let id = pid.to_string();
    Action::Terminate { pid, role, command: command("kill", &["-s", "TERM", id.as_str()]) }
}

fn node_launch() -> Action {
    Action::Launch {
        role: Role::Node,
        command: command(
            "polkadot-omni-node",
            &["--chain", "./chain_spec.json", "--dev-block-time", "6000"],
        ),
    }
}

fn rpc_bridge_launch() -> Action {
    Action::Launch {
        role: Role::RpcBridge,
        command: command(
            "eth-rpc",
            &["--chain", "./chain_spec.json", "--rpc-cors=all", "--log=debug"],
        ),
    }
}

fn generate() -> Action {
    Action::GenerateChainSpec {
        command: command(
            "chain-spec-builder",
            &[
                "create",
                "--runtime",
                "./runtimes/westend.wasm",
                "--para-id",
                "100",
                "--relay-chain",
                "paseo",
                "named-preset",
                "development",
            ],
        ),
    }
}

fn purge() -> Action {
    Action::PurgeChainData {
        command: command(
            "polkadot-omni-node",
            &["purge-chain", "--chain", "./chain_spec.json", "-y"],
        ),
    }
}

/// The events that bring a supervisor without dependencies to the point
/// where both services run and the handler is in place.
fn up_to_running(node: u32, rpc_bridge: u32) -> Vec<Event> {
    vec![
        Event::Started,
        Event::GenerateFinished { success: true },
        Event::PurgeFinished { success: true },
        Event::Launched { pid: node },
        Event::Launched { pid: rpc_bridge },
        Event::HandlerRegistered,
    ]
}

#[test]
fn a_new_supervisor_is_idle() {
    let supervisor = Supervisor::new(config(stock_dependencies()));
    assert_eq!(*supervisor.stage(), Stage::Idle);
    assert_eq!(supervisor.stage().phase(), Phase::Idle);
    assert_eq!(*supervisor.config(), config(stock_dependencies()));
}

#[test]
fn absent_dependency_without_source_is_installed_by_name_once() {
    let deps = vec![Dependency::new("foo", "foo-pkg", None)];
    let (supervisor, answers) = run(
        Supervisor::new(config(deps)),
        &[
            Event::Started,
            Event::Probed { present: false },
            Event::InstallFinished { success: true },
        ],
    );
    assert_eq!(answers[0], vec![Action::Probe { index: 0, executable: "foo".to_string() }]);
    assert_eq!(
        answers[1],
        vec![Action::Install { index: 0, command: command("cargo", &["install", "foo-pkg"]) }]
    );
    assert_eq!(answers[2], vec![generate()]);
    assert_eq!(installs(&answers).len(), 1);
    match installs(&answers)[0] {
        Action::Install { command, .. } => {
            assert!(!command.args.iter().any(|a| a == "--git" || a == "--tag" || a == "--rev"));
        }
        _ => unreachable!(),
    }
    assert_eq!(*supervisor.stage(), Stage::Generating);
}

#[test]
fn absent_dependency_with_tag_is_installed_from_the_tag() {
    let url = "https://example.org/bar.git";
    let deps = vec![Dependency::new(
        "bar",
        "bar-pkg",
        Some(GitOptions::new(url, "v1.0", GitInstallType::Tag)),
    )];
    let (_, answers) =
        run(Supervisor::new(config(deps)), &[Event::Started, Event::Probed { present: false }]);
    assert_eq!(answers[0], vec![Action::Probe { index: 0, executable: "bar".to_string() }]);
    assert_eq!(installs(&answers).len(), 1);
    let expected = command("cargo", &["install", "--git", url, "--tag", "v1.0", "bar-pkg"]);
    match installs(&answers)[0] {
        Action::Install { index, command: line } => {
            assert_eq!(*index, 0);
            assert_eq!(line.program, "cargo");
            let at = line.args.iter().position(|a| a == "--tag").unwrap();
            assert_eq!(line.args[at + 1], "v1.0");
            assert!(line.args.iter().any(|a| a == url));
            assert!(!line.args.iter().any(|a| a == "--rev"));
            assert_eq!(*line, expected);
        }
        _ => unreachable!(),
    }
}

#[test]
fn absent_dependency_with_revision_is_installed_from_the_revision() {
    let deps = vec![Dependency::new(
        "baz",
        "baz-pkg",
        Some(GitOptions::new("U", "0123abcd", GitInstallType::CommitHash)),
    )];
    let (_, answers) =
        run(Supervisor::new(config(deps)), &[Event::Started, Event::Probed { present: false }]);
    assert_eq!(
        answers[1],
        vec![Action::Install {
            index: 0,
            command: command("cargo", &["install", "--git", "U", "--rev", "0123abcd", "baz-pkg"]),
        }]
    );
}

#[test]
fn present_dependencies_are_never_installed() {
    let (supervisor, answers) = run(
        Supervisor::new(config(stock_dependencies())),
        &[
            Event::Started,
            Event::Probed { present: true },
            Event::Probed { present: true },
            Event::Probed { present: true },
        ],
    );
    assert!(installs(&answers).is_empty());
    assert_eq!(
        answers[0],
        vec![Action::Probe { index: 0, executable: "polkadot-omni-node".to_string() }]
    );
    assert_eq!(
        answers[1],
        vec![Action::Probe { index: 1, executable: "chain-spec-builder".to_string() }]
    );
    assert_eq!(answers[2], vec![Action::Probe { index: 2, executable: "eth-rpc".to_string() }]);
    assert_eq!(answers[3], vec![generate()]);
    assert_eq!(*supervisor.stage(), Stage::Generating);
}

#[test]
fn a_second_run_with_everything_present_only_probes() {
    for _ in 0..2 {
        let (_, answers) = run(
            Supervisor::new(config(stock_dependencies())),
            &[
                Event::Started,
                Event::Probed { present: true },
                Event::Probed { present: true },
                Event::Probed { present: true },
            ],
        );
        let probes = all(&answers).into_iter().filter(|a| matches!(a, Action::Probe { .. }));
        assert_eq!(probes.count(), 3);
        assert!(installs(&answers).is_empty());
    }
}

#[test]
fn only_the_absent_dependencies_are_installed_each_once() {
    let (_, answers) = run(
        Supervisor::new(config(stock_dependencies())),
        &[
            Event::Started,
            Event::Probed { present: false },
            Event::InstallFinished { success: true },
            Event::Probed { present: true },
            Event::Probed { present: false },
            Event::InstallFinished { success: true },
        ],
    );
    assert_eq!(
        installs(&answers),
        vec![
            &Action::Install {
                index: 0,
                command: command(
                    "cargo",
                    &[
                        "install",
                        "--git",
                        SDK,
                        "--tag",
                        "polkadot-stable2412",
                        "polkadot-omni-node"
                    ]
                ),
            },
            &Action::Install {
                index: 2,
                command: command(
                    "cargo",
                    &[
                        "install",
                        "--git",
                        SDK,
                        "--rev",
                        "d1d92ab76004ce349a97fc5d325eaf9a4a7101b7",
                        "pallet-revive-eth-rpc"
                    ]
                ),
            },
        ]
    );
    assert_eq!(answers[5], vec![generate()]);
}

#[test]
fn the_second_stock_dependency_installs_under_its_install_name() {
    let (_, answers) = run(
        Supervisor::new(config(stock_dependencies())),
        &[Event::Started, Event::Probed { present: true }, Event::Probed { present: false }],
    );
    assert_eq!(
        answers[2],
        vec![Action::Install {
            index: 1,
            command: command(
                "cargo",
                &[
                    "install",
                    "--git",
                    SDK,
                    "--tag",
                    "polkadot-stable2412",
                    "staging-chain-spec-builder"
                ]
            ),
        }]
    );
}

#[test]
fn a_failed_install_stops_everything() {
    let (supervisor, answers) = run(
        Supervisor::new(config(stock_dependencies())),
        &[
            Event::Started,
            Event::Probed { present: true },
            Event::Probed { present: false },
            Event::InstallFinished { success: false },
            Event::Probed { present: true },
            Event::InstallFinished { success: true },
            Event::Started,
        ],
    );
    let failure = Some(SupervisorError::InstallFailure { index: 1 });
    assert_eq!(answers[3], vec![Action::Exit { error: failure }]);
    assert!(answers[4].is_empty());
    assert!(answers[5].is_empty());
    assert!(answers[6].is_empty());
    assert_eq!(installs(&answers).len(), 1);
    assert_eq!(*supervisor.stage(), Stage::Stopped { error: failure });
    assert_eq!(exit_code(failure), 1);
}

#[test]
fn without_dependencies_the_chain_is_prepared_at_once() {
    let (supervisor, answers) = run(Supervisor::new(config(Vec::new())), &[Event::Started]);
    assert_eq!(answers[0], vec![generate()]);
    assert_eq!(*supervisor.stage(), Stage::Generating);
}

#[test]
fn generation_comes_before_the_purge() {
    let (supervisor, answers) = run(
        Supervisor::new(config(Vec::new())),
        &[Event::Started, Event::GenerateFinished { success: true }],
    );
    assert_eq!(answers, vec![vec![generate()], vec![purge()]]);
    assert_eq!(*supervisor.stage(), Stage::Purging);
}

#[test]
fn a_failed_generation_skips_the_purge() {
    let (supervisor, answers) = run(
        Supervisor::new(config(Vec::new())),
        &[
            Event::Started,
            Event::GenerateFinished { success: false },
            Event::GenerateFinished { success: true },
            Event::PurgeFinished { success: true },
        ],
    );
    let failure =
        Some(SupervisorError::PrepareFailure { step: PrepareStep::GenerateChainSpec });
    assert_eq!(answers[1], vec![Action::Exit { error: failure }]);
    assert!(answers[2].is_empty());
    assert!(answers[3].is_empty());
    assert!(!all(&answers).into_iter().any(|a| matches!(a, Action::PurgeChainData { .. })));
    assert_eq!(*supervisor.stage(), Stage::Stopped { error: failure });
}

#[test]
fn a_failed_purge_starts_no_service() {
    let (supervisor, answers) = run(
        Supervisor::new(config(Vec::new())),
        &[
            Event::Started,
            Event::GenerateFinished { success: true },
            Event::PurgeFinished { success: false },
            Event::Launched { pid: 5 },
        ],
    );
    let failure = Some(SupervisorError::PrepareFailure { step: PrepareStep::PurgeChainData });
    assert_eq!(answers[2], vec![Action::Exit { error: failure }]);
    assert!(answers[3].is_empty());
    assert!(!all(&answers).into_iter().any(|a| matches!(a, Action::Launch { .. })));
    assert_eq!(*supervisor.stage(), Stage::Stopped { error: failure });
}

#[test]
fn both_services_are_launched_in_turn() {
    let (supervisor, answers) = run(Supervisor::new(config(Vec::new())), &up_to_running(11, 22));
    assert_eq!(answers[2], vec![node_launch()]);
    assert_eq!(answers[3], vec![rpc_bridge_launch()]);
    assert_eq!(answers[4], vec![Action::RegisterInterruptHandler]);
    assert_eq!(answers[5], vec![Action::AwaitInterrupt]);
    assert_eq!(
        *supervisor.stage(),
        Stage::Running {
            node: ManagedProcess { pid: 11, role: Role::Node },
            rpc_bridge: ManagedProcess { pid: 22, role: Role::RpcBridge },
        }
    );
    assert_eq!(supervisor.stage().phase(), Phase::Running);
}

#[test]
fn interrupt_after_both_launches_terminates_both_and_exits_with_success() {
    let mut events = up_to_running(11, 22);
    events.push(Event::Interrupted);
    events.push(Event::TerminateFinished { success: true });
    events.push(Event::TerminateFinished { success: true });
    let (supervisor, answers) = run(Supervisor::new(config(Vec::new())), &events);
    assert_eq!(answers[6], vec![terminate(11, Role::Node)]);
    assert_eq!(answers[7], vec![terminate(22, Role::RpcBridge)]);
    assert_eq!(answers[8], vec![Action::Exit { error: None }]);
    assert_eq!(terminations(&answers).len(), 2);
    assert_eq!(exit_code(None), 0);
    assert_eq!(*supervisor.stage(), Stage::Stopped { error: None });
    assert_eq!(supervisor.stage().phase(), Phase::Stopped);
}

#[test]
fn second_launch_failure_terminates_the_first_and_reports_failure() {
    let (supervisor, answers) = run(
        Supervisor::new(config(Vec::new())),
        &[
            Event::Started,
            Event::GenerateFinished { success: true },
            Event::PurgeFinished { success: true },
            Event::Launched { pid: 77 },
            Event::LaunchFailed,
            Event::TerminateFinished { success: true },
        ],
    );
    let failure = Some(SupervisorError::SpawnFailure { role: Role::RpcBridge });
    assert_eq!(answers[4], vec![terminate(77, Role::Node)]);
    assert_eq!(answers[5], vec![Action::Exit { error: failure }]);
    assert_eq!(terminations(&answers), vec![&terminate(77, Role::Node)]);
    assert_eq!(exit_code(failure), 1);
    assert_eq!(*supervisor.stage(), Stage::Stopped { error: failure });
    assert!(!all(&answers).into_iter().any(|a| matches!(a, Action::AwaitInterrupt)));
}

#[test]
fn first_launch_failure_has_nothing_to_terminate() {
    let (supervisor, answers) = run(
        Supervisor::new(config(Vec::new())),
        &[
            Event::Started,
            Event::GenerateFinished { success: true },
            Event::PurgeFinished { success: true },
            Event::LaunchFailed,
            Event::Launched { pid: 9 },
        ],
    );
    let failure = Some(SupervisorError::SpawnFailure { role: Role::Node });
    assert_eq!(answers[3], vec![Action::Exit { error: failure }]);
    assert!(answers[4].is_empty());
    assert!(terminations(&answers).is_empty());
    assert_eq!(
        all(&answers).into_iter().filter(|a| matches!(a, Action::Launch { .. })).count(),
        1
    );
    assert_eq!(*supervisor.stage(), Stage::Stopped { error: failure });
}

#[test]
fn a_second_interrupt_does_nothing() {
    let mut events = up_to_running(3, 4);
    events.push(Event::Interrupted);
    let (supervisor, answers) = run(Supervisor::new(config(Vec::new())), &events);
    assert_eq!(answers[6], vec![terminate(3, Role::Node)]);
    let stopping = Stage::Stopping {
        current: ManagedProcess { pid: 3, role: Role::Node },
        next: Some(ManagedProcess { pid: 4, role: Role::RpcBridge }),
        cause: None,
    };
    assert_eq!(*supervisor.stage(), stopping);
    assert_eq!(supervisor.stage().phase(), Phase::ShuttingDown);
    let (supervisor, again) = supervisor.step(Event::Interrupted);
    assert!(again.is_empty());
    assert_eq!(*supervisor.stage(), stopping);
    let (supervisor, answers) = run(
        supervisor,
        &[
            Event::TerminateFinished { success: true },
            Event::Interrupted,
            Event::TerminateFinished { success: true },
            Event::Interrupted,
        ],
    );
    assert_eq!(
        answers,
        vec![
            vec![terminate(4, Role::RpcBridge)],
            vec![],
            vec![Action::Exit { error: None }],
            vec![],
        ]
    );
    assert_eq!(*supervisor.stage(), Stage::Stopped { error: None });
}

#[test]
fn an_interrupt_before_the_services_run_is_not_waited_for() {
    let (supervisor, answers) = run(
        Supervisor::new(config(Vec::new())),
        &[Event::Interrupted, Event::Started, Event::Interrupted],
    );
    assert!(answers[0].is_empty());
    assert_eq!(answers[1], vec![generate()]);
    assert!(answers[2].is_empty());
    assert_eq!(*supervisor.stage(), Stage::Generating);
}

#[test]
fn a_failed_termination_is_reported_and_the_shutdown_goes_on() {
    let mut events = up_to_running(11, 22);
    events.push(Event::Interrupted);
    events.push(Event::TerminateFinished { success: false });
    events.push(Event::TerminateFinished { success: false });
    let (supervisor, answers) = run(Supervisor::new(config(Vec::new())), &events);
    assert_eq!(
        answers[7],
        vec![
            Action::Report {
                failure: SupervisorError::TerminateFailure { pid: 11, role: Role::Node },
            },
            terminate(22, Role::RpcBridge),
        ]
    );
    assert_eq!(
        answers[8],
        vec![
            Action::Report {
                failure: SupervisorError::TerminateFailure { pid: 22, role: Role::RpcBridge },
            },
            Action::Exit { error: None },
        ]
    );
    assert_eq!(*supervisor.stage(), Stage::Stopped { error: None });
}

#[test]
fn a_failed_handler_registration_stops_both_services() {
    let (supervisor, answers) = run(
        Supervisor::new(config(Vec::new())),
        &[
            Event::Started,
            Event::GenerateFinished { success: true },
            Event::PurgeFinished { success: true },
            Event::Launched { pid: 1 },
            Event::Launched { pid: 2 },
            Event::HandlerFailed,
            Event::TerminateFinished { success: true },
            Event::TerminateFinished { success: true },
        ],
    );
    let failure = Some(SupervisorError::HandlerFailure);
    assert_eq!(answers[5], vec![terminate(1, Role::Node)]);
    assert_eq!(answers[6], vec![terminate(2, Role::RpcBridge)]);
    assert_eq!(answers[7], vec![Action::Exit { error: failure }]);
    assert_eq!(*supervisor.stage(), Stage::Stopped { error: failure });
}

#[test]
fn events_that_are_not_waited_for_change_nothing() {
    let strays = [
        Event::Probed { present: true },
        Event::Probed { present: false },
        Event::InstallFinished { success: true },
        Event::InstallFinished { success: false },
        Event::GenerateFinished { success: true },
        Event::PurgeFinished { success: true },
        Event::Launched { pid: 1 },
        Event::LaunchFailed,
        Event::HandlerRegistered,
        Event::HandlerFailed,
        Event::Interrupted,
        Event::TerminateFinished { success: true },
    ];
    let (idle, answers) = run(Supervisor::new(config(stock_dependencies())), &strays);
    assert!(answers.iter().all(|a| a.is_empty()));
    assert_eq!(*idle.stage(), Stage::Idle);

    let (running, _) = run(Supervisor::new(config(Vec::new())), &up_to_running(5, 6));
    let before = Stage::Running {
        node: ManagedProcess { pid: 5, role: Role::Node },
        rpc_bridge: ManagedProcess { pid: 6, role: Role::RpcBridge },
    };
    let not_interrupts: Vec<Event> =
        strays.iter().copied().filter(|e| *e != Event::Interrupted).collect();
    let (running, answers) = run(running, &not_interrupts);
    assert!(answers.iter().all(|a| a.is_empty()));
    assert_eq!(*running.stage(), before);
}

#[test]
fn nothing_happens_after_the_stop() {
    let mut events = up_to_running(11, 22);
    events.push(Event::Interrupted);
    events.push(Event::TerminateFinished { success: true });
    events.push(Event::TerminateFinished { success: true });
    let (stopped, _) = run(Supervisor::new(config(Vec::new())), &events);
    let (stopped, answers) = run(
        stopped,
        &[
            Event::Started,
            Event::Interrupted,
            Event::TerminateFinished { success: true },
            Event::Launched { pid: 1 },
        ],
    );
    assert!(answers.iter().all(|a| a.is_empty()));
    assert_eq!(*stopped.stage(), Stage::Stopped { error: None });
}

#[test]
fn the_phases_follow_each_other() {
    let mut events = vec![Event::Started, Event::Probed { present: false }];
    events.push(Event::InstallFinished { success: true });
    events.extend(up_to_running(1, 2).into_iter().skip(1));
    events.push(Event::Interrupted);
    events.push(Event::TerminateFinished { success: true });
    events.push(Event::TerminateFinished { success: true });
    let mut supervisor = Supervisor::new(config(vec![Dependency::new("foo", "foo-pkg", None)]));
    let mut phases = vec![supervisor.stage().phase()];
    for event in events {
        let (next, _) = supervisor.step(event);
        supervisor = next;
        phases.push(supervisor.stage().phase());
    }
    assert_eq!(
        phases,
        vec![
            Phase::Idle,
            Phase::Idle,
            Phase::Idle,
            Phase::Idle,
            Phase::Idle,
            Phase::Launching,
            Phase::Launching,
            Phase::Launching,
            Phase::Running,
            Phase::ShuttingDown,
            Phase::ShuttingDown,
            Phase::Stopped,
        ]
    );
}
