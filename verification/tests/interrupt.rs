use carp::dependency::Dependency;
use carp::service::{ManagedProcess, Role};
use carp::supervisor::{Action, Config, Event, Stage, Supervisor, SupervisorError};

fn config(dependencies: Vec<Dependency>) -> Config {
    Config {
        dependencies,
        chain_spec_builder: "chain-spec-builder".to_string(),
        node: "polkadot-omni-node".to_string(),
        rpc_bridge: "eth-rpc".to_string(),
        runtime: "./runtimes/westend.wasm".to_string(),
        para_id: 100,
        relay_chain: "paseo".to_string(),
        preset: "development".to_string(),
        chain_spec: "./chain_spec.json".to_string(),
        block_time_ms: 6000,
    }
}

fn armable(node: u32, rpc_bridge: u32) -> Supervisor {
    let mut supervisor = Supervisor::new(config(Vec::new()));
    for event in [
        Event::Started,
        Event::GenerateFinished { success: true },
        Event::PurgeFinished { success: true },
        Event::Launched { pid: node },
        Event::Launched { pid: rpc_bridge },
    ] {
        supervisor = supervisor.step(event).0;
    }
    supervisor
}

/// The only test that registers a handler with the operating system. The
/// process accepts one registration: the first goes through, the second is
/// turned down, and the supervisor follows either outcome.
#[test]
fn arming_registers_one_handler_and_follows_the_outcome() {
    // Before both services run, nothing is registered.
    let idle = Supervisor::new(config(Vec::new()));
    let (idle, actions, error) = idle.arm(|| {});
    assert!(actions.is_empty());
    assert!(error.is_none());
    assert_eq!(*idle.stage(), Stage::Idle);

    // With both services running the handler is registered.
    let (running, actions, error) = armable(10, 20).arm(|| {});
    assert!(error.is_none());
    assert_eq!(actions, vec![Action::AwaitInterrupt]);
    assert_eq!(
        *running.stage(),
        Stage::Running {
            node: ManagedProcess { pid: 10, role: Role::Node },
            rpc_bridge: ManagedProcess { pid: 20, role: Role::RpcBridge },
        }
    );

    // Once running, arming again registers nothing.
    let (running, actions, error) = running.arm(|| {});
    assert!(actions.is_empty());
    assert!(error.is_none());
    assert!(matches!(running.stage(), Stage::Running { .. }));

    // A second registration in this process is turned down: the services
    // of that supervisor are stopped.
    let (stopping, actions, error) = armable(30, 40).arm(|| {});
    assert!(matches!(error, Some(ctrlc::Error::MultipleHandlers)));
    assert_eq!(actions.len(), 1);
    assert!(matches!(actions[0], Action::Terminate { pid: 30, role: Role::Node, .. }));
    assert_eq!(
        *stopping.stage(),
        Stage::Stopping {
            current: ManagedProcess { pid: 30, role: Role::Node },
            next: Some(ManagedProcess { pid: 40, role: Role::RpcBridge }),
            cause: Some(SupervisorError::HandlerFailure),
        }
    );
}
