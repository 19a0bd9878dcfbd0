//! The supervisor: one state machine from start to exit.
//!
//! A driver feeds the supervisor one [`Event`] at a time and performs the
//! [`Action`]s it gets back. The supervisor decides; it starts no process
//! itself. An event that the current stage does not wait for changes
//! nothing and asks for nothing.

use crate::chain::{generate_chain_spec, generate_command, purge_chain_data, purge_command};
use crate::command::{CommandLine, CommandLineView};
use crate::dependency::{
    dependency_views, install_command, install_dependency, Dependency, DependencyView,
};
use crate::service::{
    launch_node, launch_rpc_bridge, node_command, rpc_bridge_command, terminate_command,
    terminate_process, ManagedProcess, Role,
};
use crate::signal::set_interrupt_handler;
use vstd::prelude::*;

verus! {

/// Everything that is fixed before the stack starts.
#[derive(Debug, PartialEq, Eq)]
pub struct Config {
    /// The binaries that must be present, in the order in which they are
    /// probed and installed.
    pub dependencies: Vec<Dependency>,
    /// The program that generates the chain specification.
    pub chain_spec_builder: String,
    /// The program that purges chain state and runs the node.
    pub node: String,
    /// The program that runs the RPC bridge.
    pub rpc_bridge: String,
    /// Where the runtime artifact lies.
    pub runtime: String,
    /// The parachain id of the chain.
    pub para_id: u32,
    /// The name of the relay chain.
    pub relay_chain: String,
    /// The name of the preset the chain specification is made from.
    pub preset: String,
    /// Where the chain specification is written and read.
    pub chain_spec: String,
    /// Time between blocks of the node, in milliseconds.
    pub block_time_ms: u64,
}

/// The mathematical content of a [`Config`].
pub struct ConfigView {
    pub dependencies: Seq<DependencyView>,
    pub chain_spec_builder: Seq<char>,
    pub node: Seq<char>,
    pub rpc_bridge: Seq<char>,
    pub runtime: Seq<char>,
    pub para_id: u32,
    pub relay_chain: Seq<char>,
    pub preset: Seq<char>,
    pub chain_spec: Seq<char>,
    pub block_time_ms: u64,
}

impl View for Config {
    type V = ConfigView;

    open spec fn view(&self) -> ConfigView {
        ConfigView {
            dependencies: dependency_views(self.dependencies@),
            chain_spec_builder: self.chain_spec_builder@,
            node: self.node@,
            rpc_bridge: self.rpc_bridge@,
            runtime: self.runtime@,
            para_id: self.para_id,
            relay_chain: self.relay_chain@,
            preset: self.preset@,
            chain_spec: self.chain_spec@,
            block_time_ms: self.block_time_ms,
        }
    }
}

impl ConfigView {
    /// Whether the dependencies can be counted by the machine. This holds
    /// of the content of every [`Config`].
    pub open spec fn valid(self) -> bool {
        self.dependencies.len() <= usize::MAX
    }

    /// The command that generates the chain specification.
    pub open spec fn generate(self) -> CommandLineView {
        generate_command(
            self.chain_spec_builder,
            self.runtime,
            self.para_id,
            self.relay_chain,
            self.preset,
        )
    }

    /// The command that purges earlier chain state.
    pub open spec fn purge(self) -> CommandLineView {
        purge_command(self.node, self.chain_spec)
    }

    /// The command that starts the service with the given role.
    pub open spec fn launch(self, role: Role) -> CommandLineView {
        match role {
            Role::Node => node_command(self.node, self.chain_spec, self.block_time_ms),
            Role::RpcBridge => rpc_bridge_command(self.rpc_bridge, self.chain_spec),
        }
    }
}

/// The content of a configuration is valid: a list in memory is never
/// longer than the machine can count.
pub proof fn lemma_config_is_valid(config: &Config)
    ensures
        config@.valid(),
{
    vstd::std_specs::vec::axiom_spec_len(&config.dependencies);
}

/// The two steps of chain preparation.
#[derive(Clone, Copy, Debug, PartialEq, Eq)]
pub enum PrepareStep {
    GenerateChainSpec,
    PurgeChainData,
}

/// What can go wrong.
#[derive(Clone, Copy, Debug, PartialEq, Eq)]
pub enum SupervisorError {
    /// A required service could not be started.
    SpawnFailure { role: Role },
    /// The dependency at `index` was absent and could not be installed.
    InstallFailure { index: usize },
    /// A step of chain preparation could not be started or did not succeed.
    PrepareFailure { step: PrepareStep },
    /// The interrupt handler could not be registered.
    HandlerFailure,
    /// A managed process could not be asked to terminate, or did not
    /// confirm that it has.
    TerminateFailure { pid: u32, role: Role },
}

/// What the driver reports to the supervisor.
#[derive(Clone, Copy, Debug, PartialEq, Eq)]
pub enum Event {
    /// The program has started.
    Started,
    /// A presence probe has ended: the executable could be started, or not.
    Probed { present: bool },
    /// An install command has run to its end, or could not be started.
    InstallFinished { success: bool },
    /// The generation of the chain specification has ended.
    GenerateFinished { success: bool },
    /// The purge of earlier chain state has ended.
    PurgeFinished { success: bool },
    /// The service asked for is running as the process `pid`.
    Launched { pid: u32 },
    /// The service asked for could not be started.
    LaunchFailed,
    /// The interrupt handler is in place.
    HandlerRegistered,
    /// The interrupt handler could not be put in place.
    HandlerFailed,
    /// The program was interrupted. The handler is registered only once
    /// both services run, so no interrupt is expected before.
    Interrupted,
    /// The request to terminate a process has ended.
    TerminateFinished { success: bool },
}

/// Where the supervisor stands. Every stage but the first and the last
/// waits for the outcome of exactly one request.
#[derive(Debug, PartialEq, Eq)]
pub enum Stage {
    /// Nothing has happened yet.
    Idle,
    /// Waiting for the presence probe of the dependency at `index`.
    Probing { index: usize },
    /// Waiting for the installation of the dependency at `index`.
    Installing { index: usize },
    /// Waiting for the generation of the chain specification.
    Generating,
    /// Waiting for the purge of earlier chain state.
    Purging,
    /// Waiting for the node to start.
    LaunchingNode,
    /// The node runs; waiting for the RPC bridge to start.
    LaunchingRpcBridge { node: ManagedProcess },
    /// Both services run; waiting for the interrupt handler.
    Arming { node: ManagedProcess, rpc_bridge: ManagedProcess },
    /// Both services run; waiting for an interrupt.
    Running { node: ManagedProcess, rpc_bridge: ManagedProcess },
    /// Waiting for `current` to terminate; `next` is terminated after it.
    /// `cause` is the failure that led here, or nothing after an interrupt.
    Stopping { current: ManagedProcess, next: Option<ManagedProcess>, cause: Option<SupervisorError> },
    /// Nothing is left to do.
    Stopped { error: Option<SupervisorError> },
}

/// The five states of supervision.
#[derive(Clone, Copy, Debug, PartialEq, Eq)]
pub enum Phase {
    Idle,
    Launching,
    Running,
    ShuttingDown,
    Stopped,
}

impl Stage {
    /// The state of supervision that a stage belongs to. The supervisor is
    /// idle until the chain is prepared.
    pub open spec fn phase_of(self) -> Phase {
        match self {
            Stage::Idle
            | Stage::Probing { .. }
            | Stage::Installing { .. }
            | Stage::Generating
            | Stage::Purging => Phase::Idle,
            Stage::LaunchingNode
            | Stage::LaunchingRpcBridge { .. }
            | Stage::Arming { .. } => Phase::Launching,
            Stage::Running { .. } => Phase::Running,
            Stage::Stopping { .. } => Phase::ShuttingDown,
            Stage::Stopped { .. } => Phase::Stopped,
        }
    }

    pub fn phase(&self) -> (phase: Phase)
        ensures
            phase == self.phase_of(),
    {
        match self {
            Stage::Idle => Phase::Idle,
            Stage::Probing { .. } => Phase::Idle,
            Stage::Installing { .. } => Phase::Idle,
            Stage::Generating => Phase::Idle,
            Stage::Purging => Phase::Idle,
            Stage::LaunchingNode => Phase::Launching,
            Stage::LaunchingRpcBridge { .. } => Phase::Launching,
            Stage::Arming { .. } => Phase::Launching,
            Stage::Running { .. } => Phase::Running,
            Stage::Stopping { .. } => Phase::ShuttingDown,
            Stage::Stopped { .. } => Phase::Stopped,
        }
    }

    /// The processes that were started and have not been asked to
    /// terminate, or have been asked and have not answered.
    pub open spec fn live(self) -> Seq<ManagedProcess> {
        match self {
            Stage::LaunchingRpcBridge { node } => seq![node],
            Stage::Arming { node, rpc_bridge } => seq![node, rpc_bridge],
            Stage::Running { node, rpc_bridge } => seq![node, rpc_bridge],
            Stage::Stopping { current, next: Some(next), .. } => seq![current, next],
            Stage::Stopping { current, next: None, .. } => seq![current],
            _ => Seq::empty(),
        }
    }

    /// Whether a stage can occur with `count` dependencies: the dependency
    /// it works on is one of them, and each process it holds has the role
    /// of the place it is held in.
    pub open spec fn sound(self, count: nat) -> bool {
        match self {
            Stage::Probing { index } => index < count,
            Stage::Installing { index } => index < count,
            Stage::LaunchingRpcBridge { node } => node.role == Role::Node,
            Stage::Arming { node, rpc_bridge } => node.role == Role::Node && rpc_bridge.role
                == Role::RpcBridge,
            Stage::Running { node, rpc_bridge } => node.role == Role::Node && rpc_bridge.role
                == Role::RpcBridge,
            Stage::Stopping { current, next: Some(next), .. } => current.role == Role::Node
                && next.role == Role::RpcBridge,
            _ => true,
        }
    }
}

/// What the supervisor asks the driver to do.
#[derive(Debug, PartialEq, Eq)]
pub enum Action {
    /// Start the executable with its output discarded and report whether it
    /// could be started.
    Probe { index: usize, executable: String },
    /// Run the command to its end and report whether it succeeded.
    Install { index: usize, command: CommandLine },
    /// Run the command to its end and report whether it succeeded.
    GenerateChainSpec { command: CommandLine },
    /// Run the command to its end and report whether it succeeded.
    PurgeChainData { command: CommandLine },
    /// Start the command without waiting for it and report its process.
    Launch { role: Role, command: CommandLine },
    /// Register the interrupt handler, with [`Supervisor::arm`].
    RegisterInterruptHandler,
    /// Wait until the program is interrupted.
    AwaitInterrupt,
    /// Run the command to its end and report whether the process has
    /// terminated.
    Terminate { pid: u32, role: Role, command: CommandLine },
    /// Tell the operator of a failure that does not end the program.
    Report { failure: SupervisorError },
    /// End the program: with success if there is no error.
    Exit { error: Option<SupervisorError> },
}

/// The mathematical content of an [`Action`].
pub enum ActionView {
    Probe { index: usize, executable: Seq<char> },
    Install { index: usize, command: CommandLineView },
    GenerateChainSpec { command: CommandLineView },
    PurgeChainData { command: CommandLineView },
    Launch { role: Role, command: CommandLineView },
    RegisterInterruptHandler,
    AwaitInterrupt,
    Terminate { pid: u32, role: Role, command: CommandLineView },
    Report { failure: SupervisorError },
    Exit { error: Option<SupervisorError> },
}

impl View for Action {
    type V = ActionView;

    open spec fn view(&self) -> ActionView {
        match *self {
            Action::Probe { index, executable } => ActionView::Probe {
                index,
                executable: executable@,
            },
            Action::Install { index, command } => ActionView::Install { index, command: command@ },
            Action::GenerateChainSpec { command } => ActionView::GenerateChainSpec {
                command: command@,
            },
            Action::PurgeChainData { command } => ActionView::PurgeChainData { command: command@ },
            Action::Launch { role, command } => ActionView::Launch { role, command: command@ },
            Action::RegisterInterruptHandler => ActionView::RegisterInterruptHandler,
            Action::AwaitInterrupt => ActionView::AwaitInterrupt,
            Action::Terminate { pid, role, command } => ActionView::Terminate {
                pid,
                role,
                command: command@,
            },
            Action::Report { failure } => ActionView::Report { failure },
            Action::Exit { error } => ActionView::Exit { error },
        }
    }
}

/// The contents of each action of a list, in order.
pub open spec fn action_views(list: Seq<Action>) -> Seq<ActionView> {
    list.map_values(|a: Action| a@)
}

/// The status with which the program ends: zero if and only if nothing
/// went wrong.
pub open spec fn exit_status(error: Option<SupervisorError>) -> int {
    if error is None {
        0
    } else {
        1
    }
}

/// The status with which the program ends.
pub fn exit_code(error: Option<SupervisorError>) -> (code: i32)
    ensures
        code == exit_status(error),
{
    match error {
        None => 0,
        Some(_) => 1,
    }
}

/// The request to terminate a process.
pub open spec fn terminate(process: ManagedProcess) -> ActionView {
    ActionView::Terminate {
        pid: process.pid,
        role: process.role,
        command: terminate_command(process.pid),
    }
}

/// Turns to the dependency at `index`: probes it, or, when none is left,
/// goes on to prepare the chain.
pub open spec fn begin_dependency(config: ConfigView, index: int) -> (Stage, Seq<ActionView>) {
    if 0 <= index < config.dependencies.len() {
        (
            Stage::Probing { index: index as usize },
            seq![
                ActionView::Probe {
                    index: index as usize,
                    executable: config.dependencies[index].bin,
                },
            ],
        )
    } else {
        (Stage::Generating, seq![ActionView::GenerateChainSpec { command: config.generate() }])
    }
}

/// Gives up: nothing runs that would have to be stopped.
pub open spec fn abandon(error: SupervisorError) -> (Stage, Seq<ActionView>) {
    (Stage::Stopped { error: Some(error) }, seq![ActionView::Exit { error: Some(error) }])
}

/// Begins to stop the services that run, `first` before `next`.
pub open spec fn begin_stopping(
    first: ManagedProcess,
    next: Option<ManagedProcess>,
    cause: Option<SupervisorError>,
) -> (Stage, Seq<ActionView>) {
    (Stage::Stopping { current: first, next, cause }, seq![terminate(first)])
}

/// What to tell the operator once the request to terminate `process` has
/// ended.
pub open spec fn termination_report(process: ManagedProcess, success: bool) -> Seq<ActionView> {
    if success {
        Seq::empty()
    } else {
        seq![
            ActionView::Report {
                failure: SupervisorError::TerminateFailure { pid: process.pid, role: process.role },
            },
        ]
    }
}

/// The supervisor's rule: the stage that follows `stage` on `event`, and
/// the actions asked for.
pub open spec fn transition(config: ConfigView, stage: Stage, event: Event) -> (
    Stage,
    Seq<ActionView>,
) {
    match stage {
        Stage::Idle => match event {
            Event::Started => begin_dependency(config, 0),
            _ => (stage, Seq::empty()),
        },
        Stage::Probing { index } => match event {
            Event::Probed { present: true } => begin_dependency(config, index + 1),
            Event::Probed { present: false } => (
                Stage::Installing { index },
                seq![
                    ActionView::Install {
                        index,
                        command: install_command(config.dependencies[index as int]),
                    },
                ],
            ),
            _ => (stage, Seq::empty()),
        },
        Stage::Installing { index } => match event {
            Event::InstallFinished { success: true } => begin_dependency(config, index + 1),
            Event::InstallFinished { success: false } => abandon(
                SupervisorError::InstallFailure { index },
            ),
            _ => (stage, Seq::empty()),
        },
        Stage::Generating => match event {
            Event::GenerateFinished { success: true } => (
                Stage::Purging,
                seq![ActionView::PurgeChainData { command: config.purge() }],
            ),
            Event::GenerateFinished { success: false } => abandon(
                SupervisorError::PrepareFailure { step: PrepareStep::GenerateChainSpec },
            ),
            _ => (stage, Seq::empty()),
        },
        Stage::Purging => match event {
            Event::PurgeFinished { success: true } => (
                Stage::LaunchingNode,
                seq![ActionView::Launch { role: Role::Node, command: config.launch(Role::Node) }],
            ),
            Event::PurgeFinished { success: false } => abandon(
                SupervisorError::PrepareFailure { step: PrepareStep::PurgeChainData },
            ),
            _ => (stage, Seq::empty()),
        },
        Stage::LaunchingNode => match event {
            Event::Launched { pid } => (
                Stage::LaunchingRpcBridge { node: ManagedProcess { pid, role: Role::Node } },
                seq![
                    ActionView::Launch {
                        role: Role::RpcBridge,
                        command: config.launch(Role::RpcBridge),
                    },
                ],
            ),
            Event::LaunchFailed => abandon(SupervisorError::SpawnFailure { role: Role::Node }),
            _ => (stage, Seq::empty()),
        },
        Stage::LaunchingRpcBridge { node } => match event {
            Event::Launched { pid } => (
                Stage::Arming { node, rpc_bridge: ManagedProcess { pid, role: Role::RpcBridge } },
                seq![ActionView::RegisterInterruptHandler],
            ),
            Event::LaunchFailed => begin_stopping(
                node,
                None,
                Some(SupervisorError::SpawnFailure { role: Role::RpcBridge }),
            ),
            _ => (stage, Seq::empty()),
        },
        Stage::Arming { node, rpc_bridge } => match event {
            Event::HandlerRegistered => (
                Stage::Running { node, rpc_bridge },
                seq![ActionView::AwaitInterrupt],
            ),
            Event::HandlerFailed => begin_stopping(
                node,
                Some(rpc_bridge),
                Some(SupervisorError::HandlerFailure),
            ),
            _ => (stage, Seq::empty()),
        },
        Stage::Running { node, rpc_bridge } => match event {
            Event::Interrupted => begin_stopping(node, Some(rpc_bridge), None),
            _ => (stage, Seq::empty()),
        },
        Stage::Stopping { current, next, cause } => match event {
            Event::TerminateFinished { success } => match next {
                Some(process) => (
                    Stage::Stopping { current: process, next: None, cause },
                    termination_report(current, success).push(terminate(process)),
                ),
                None => (
                    Stage::Stopped { error: cause },
                    termination_report(current, success).push(ActionView::Exit { error: cause }),
                ),
            },
            _ => (stage, Seq::empty()),
        },
        Stage::Stopped { .. } => (stage, Seq::empty()),
    }
}

/// The mathematical content of a [`Supervisor`].
pub struct SupervisorView {
    pub config: ConfigView,
    pub stage: Stage,
}

/// The supervisor of one run of the stack.
#[derive(Debug)]
pub struct Supervisor {
    config: Config,
    stage: Stage,
}

impl View for Supervisor {
    type V = SupervisorView;

    closed spec fn view(&self) -> SupervisorView {
        SupervisorView { config: self.config@, stage: self.stage }
    }
}

fn nothing() -> (actions: Vec<Action>)
    ensures
        action_views(actions@) == Seq::<ActionView>::empty(),
{
    let actions: Vec<Action> = Vec::new();
    assert(action_views(actions@) =~= Seq::<ActionView>::empty());
    actions
}

fn only(action: Action) -> (actions: Vec<Action>)
    ensures
        action_views(actions@) == seq![action@],
{
    let mut actions: Vec<Action> = Vec::new();
    actions.push(action);
    assert(action_views(actions@) =~= seq![action@]);
    actions
}

fn terminate_action(process: &ManagedProcess) -> (action: Action)
    ensures
        action@ == terminate(*process),
{
    Action::Terminate {
        pid: process.pid,
        role: process.role,
        command: terminate_process(process.pid),
    }
}

fn launch_action(config: &Config, role: Role) -> (action: Action)
    ensures
        action@ == (ActionView::Launch { role, command: config@.launch(role) }),
{
    let command = match role {
        Role::Node => launch_node(
            config.node.as_str(),
            config.chain_spec.as_str(),
            config.block_time_ms,
        ),
        Role::RpcBridge => launch_rpc_bridge(
            config.rpc_bridge.as_str(),
            config.chain_spec.as_str(),
        ),
    };
    Action::Launch { role, command }
}

fn report_of(process: &ManagedProcess, success: bool) -> (actions: Vec<Action>)
    ensures
        action_views(actions@) == termination_report(*process, success),
{
    if success {
        nothing()
    } else {
        only(
            Action::Report {
                failure: SupervisorError::TerminateFailure { pid: process.pid, role: process.role },
            },
        )
    }
}

impl Supervisor {
    #[verifier::type_invariant]
    spec fn well_formed(self) -> bool {
        self.stage.sound(self.config@.dependencies.len())
    }

    /// A supervisor that has done nothing yet.
    pub fn new(config: Config) -> (supervisor: Self)
        ensures
            supervisor@ == (SupervisorView { config: config@, stage: Stage::Idle }),
            supervisor@.config.valid(),
    {
        proof {
            lemma_config_is_valid(&config);
        }
        Supervisor { config, stage: Stage::Idle }
    }

    /// The stage at which the supervisor stands.
    pub fn stage(&self) -> (stage: &Stage)
        ensures
            *stage == self@.stage,
            stage.sound(self@.config.dependencies.len()),
    {
        proof {
            use_type_invariant(self);
        }
        &self.stage
    }

    /// What the supervisor was configured with.
    pub fn config(&self) -> (config: &Config)
        ensures
            config@ == self@.config,
    {
        &self.config
    }

    fn at(config: Config, stage: Stage, actions: Vec<Action>) -> (r: (Self, Vec<Action>))
        requires
            stage.sound(config@.dependencies.len()),
        ensures
            r.0@ == (SupervisorView { config: config@, stage }),
            r.1 == actions,
    {
        (Supervisor { config, stage }, actions)
    }

    fn begin_dependency(config: Config, index: usize) -> (r: (Self, Vec<Action>))
        ensures
            r.0@.config == config@,
            (r.0@.stage, action_views(r.1@)) == begin_dependency(config@, index as int),
    {
        if index < config.dependencies.len() {
            let executable = config.dependencies[index].bin.clone();
            let actions = only(Action::Probe { index, executable });
            Self::at(config, Stage::Probing { index }, actions)
        } else {
            let command = generate_chain_spec(
                config.chain_spec_builder.as_str(),
                config.runtime.as_str(),
                config.para_id,
                config.relay_chain.as_str(),
                config.preset.as_str(),
            );
            let actions = only(Action::GenerateChainSpec { command });
            Self::at(config, Stage::Generating, actions)
        }
    }

    fn abandon(config: Config, error: SupervisorError) -> (r: (Self, Vec<Action>))
        ensures
            r.0@.config == config@,
            (r.0@.stage, action_views(r.1@)) == abandon(error),
    {
        let actions = only(Action::Exit { error: Some(error) });
        Self::at(config, Stage::Stopped { error: Some(error) }, actions)
    }

    fn begin_stopping(
        config: Config,
        first: ManagedProcess,
        next: Option<ManagedProcess>,
        cause: Option<SupervisorError>,
    ) -> (r: (Self, Vec<Action>))
        requires
            next is Some ==> first.role == Role::Node && next->0.role == Role::RpcBridge,
        ensures
            r.0@.config == config@,
            (r.0@.stage, action_views(r.1@)) == begin_stopping(first, next, cause),
    {
        let actions = only(terminate_action(&first));
        Self::at(config, Stage::Stopping { current: first, next, cause }, actions)
    }

    /// Takes in one event: moves to the stage that follows and returns the
    /// actions to perform, in order. An event that the stage does not wait
    /// for leaves the supervisor as it is and returns no action.
    pub fn step(self, event: Event) -> (r: (Self, Vec<Action>))
        ensures
            r.0@.config == self@.config,
            (r.0@.stage, action_views(r.1@)) == transition(self@.config, self@.stage, event),
            r.0@.stage.sound(self@.config.dependencies.len()),
    {
        proof {
            use_type_invariant(&self);
        }
        let Supervisor { config, stage } = self;
        let count = config.dependencies.len();
        assert(config@.dependencies.len() == count);
        let r = match stage {
            Stage::Idle => match event {
                Event::Started => Self::begin_dependency(config, 0),
                _ => Self::at(config, Stage::Idle, nothing()),
            },
            Stage::Probing { index } => match event {
                Event::Probed { present: true } => Self::begin_dependency(config, index + 1),
                Event::Probed { present: false } => {
                    let command = install_dependency(config.dependencies[index].clone());
                    let actions = only(Action::Install { index, command });
                    Self::at(config, Stage::Installing { index }, actions)
                },
                _ => Self::at(config, Stage::Probing { index }, nothing()),
            },
            Stage::Installing { index } => match event {
                Event::InstallFinished { success: true } => Self::begin_dependency(
                    config,
                    index + 1,
                ),
                Event::InstallFinished { success: false } => Self::abandon(
                    config,
                    SupervisorError::InstallFailure { index },
                ),
                _ => Self::at(config, Stage::Installing { index }, nothing()),
            },
            Stage::Generating => match event {
                Event::GenerateFinished { success: true } => {
                    let command = purge_chain_data(
                        config.node.as_str(),
                        config.chain_spec.as_str(),
                    );
                    let actions = only(Action::PurgeChainData { command });
                    Self::at(config, Stage::Purging, actions)
                },
                Event::GenerateFinished { success: false } => Self::abandon(
                    config,
                    SupervisorError::PrepareFailure { step: PrepareStep::GenerateChainSpec },
                ),
                _ => Self::at(config, Stage::Generating, nothing()),
            },
            Stage::Purging => match event {
                Event::PurgeFinished { success: true } => {
                    let actions = only(launch_action(&config, Role::Node));
                    Self::at(config, Stage::LaunchingNode, actions)
                },
                Event::PurgeFinished { success: false } => Self::abandon(
                    config,
                    SupervisorError::PrepareFailure { step: PrepareStep::PurgeChainData },
                ),
                _ => Self::at(config, Stage::Purging, nothing()),
            },
            Stage::LaunchingNode => match event {
                Event::Launched { pid } => {
                    let actions = only(launch_action(&config, Role::RpcBridge));
                    let node = ManagedProcess { pid, role: Role::Node };
                    Self::at(config, Stage::LaunchingRpcBridge { node }, actions)
                },
                Event::LaunchFailed => Self::abandon(
                    config,
                    SupervisorError::SpawnFailure { role: Role::Node },
                ),
                _ => Self::at(config, Stage::LaunchingNode, nothing()),
            },
            Stage::LaunchingRpcBridge { node } => match event {
                Event::Launched { pid } => {
                    let rpc_bridge = ManagedProcess { pid, role: Role::RpcBridge };
                    let actions = only(Action::RegisterInterruptHandler);
                    Self::at(config, Stage::Arming { node, rpc_bridge }, actions)
                },
                Event::LaunchFailed => Self::begin_stopping(
                    config,
                    node,
                    None,
                    Some(SupervisorError::SpawnFailure { role: Role::RpcBridge }),
                ),
                _ => Self::at(config, Stage::LaunchingRpcBridge { node }, nothing()),
            },
            Stage::Arming { node, rpc_bridge } => match event {
                Event::HandlerRegistered => {
                    let actions = only(Action::AwaitInterrupt);
                    Self::at(config, Stage::Running { node, rpc_bridge }, actions)
                },
                Event::HandlerFailed => Self::begin_stopping(
                    config,
                    node,
                    Some(rpc_bridge),
                    Some(SupervisorError::HandlerFailure),
                ),
                _ => Self::at(config, Stage::Arming { node, rpc_bridge }, nothing()),
            },
            Stage::Running { node, rpc_bridge } => match event {
                Event::Interrupted => Self::begin_stopping(config, node, Some(rpc_bridge), None),
                _ => Self::at(config, Stage::Running { node, rpc_bridge }, nothing()),
            },
            Stage::Stopping { current, next, cause } => match event {
                Event::TerminateFinished { success } => {
                    let mut actions = report_of(&current, success);
                    let ghost report = action_views(actions@);
                    match next {
                        Some(process) => {
                            let action = terminate_action(&process);
                            actions.push(action);
                            assert(action_views(actions@) =~= report.push(terminate(process)));
                            Self::at(
                                config,
                                Stage::Stopping { current: process, next: None, cause },
                                actions,
                            )
                        },
                        None => {
                            actions.push(Action::Exit { error: cause });
                            assert(action_views(actions@) =~= report.push(
                                ActionView::Exit { error: cause },
                            ));
                            Self::at(config, Stage::Stopped { error: cause }, actions)
                        },
                    }
                },
                _ => Self::at(config, Stage::Stopping { current, next, cause }, nothing()),
            },
            Stage::Stopped { error } => Self::at(config, Stage::Stopped { error }, nothing()),
        };
        r
    }

    /// Registers `handler` to run whenever the program is interrupted, and
    /// takes in the outcome as [`Event::HandlerRegistered`] or
    /// [`Event::HandlerFailed`]. At any stage but [`Stage::Arming`] nothing
    /// is registered and nothing changes, so that at most one handler is
    /// ever asked for.
    ///
    /// Whether the registration succeeds is not decided here. Whatever the
    /// outcome, the supervisor moves as [`transition`] says for the event
    /// that stands for it; the error, if any, is handed back with it.
    pub fn arm<F>(self, handler: F) -> (r: (Self, Vec<Action>, Option<ctrlc::Error>)) where
        F: FnMut() + Send + 'static,

        ensures
            r.0@.config == self@.config,
            r.0@.stage.sound(self@.config.dependencies.len()),
            !(self@.stage is Arming) ==> r.0@.stage == self@.stage && r.1@.len() == 0 && r.2
                is None,
            self@.stage is Arming ==> (r.0@.stage, action_views(r.1@)) == transition(
                self@.config,
                self@.stage,
                if r.2 is None {
                    Event::HandlerRegistered
                } else {
                    Event::HandlerFailed
                },
            ),
    {
        proof {
            use_type_invariant(&self);
        }
        match self.stage {
            Stage::Arming { .. } => match set_interrupt_handler(handler) {
                Ok(()) => {
                    let (supervisor, actions) = self.step(Event::HandlerRegistered);
                    (supervisor, actions, None)
                },
                Err(error) => {
                    let (supervisor, actions) = self.step(Event::HandlerFailed);
                    (supervisor, actions, Some(error))
                },
            },
            _ => (self, Vec::new(), None),
        }
    }
}

} // verus!
