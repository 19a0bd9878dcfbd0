//! What holds of every run of the supervisor.
//!
//! A run is a sequence of events, taken in one after the other from
//! [`Stage::Idle`]. The events are arbitrary: nothing is assumed of the
//! driver that reports them.

use crate::dependency::install_command;
use crate::service::{ManagedProcess, Role};
use crate::supervisor::{
    terminate, transition, ActionView, ConfigView, Event, Phase, PrepareStep, Stage,
    SupervisorError,
};
use vstd::prelude::*;

verus! {

/// The stage reached once all the events have been taken in.
pub open spec fn stage_after(config: ConfigView, events: Seq<Event>) -> Stage
    decreases events.len(),
{
    if events.len() == 0 {
        Stage::Idle
    } else {
        transition(config, stage_after(config, events.drop_last()), events.last()).0
    }
}

/// The stage at which the event at position `k` arrives.
pub open spec fn stage_before(config: ConfigView, events: Seq<Event>, k: int) -> Stage {
    stage_after(config, events.take(k))
}

/// The actions asked for in answer to the event at position `k`.
pub open spec fn answer(config: ConfigView, events: Seq<Event>, k: int) -> Seq<ActionView> {
    transition(config, stage_before(config, events, k), events[k]).1
}

/// How far a stage lies from the start, with `count` dependencies.
pub open spec fn progress(count: nat, stage: Stage) -> int {
    let after_dependencies = 2 * (count as int);
    match stage {
        Stage::Idle => 0,
        Stage::Probing { index } => 2 * (index as int) + 1,
        Stage::Installing { index } => 2 * (index as int) + 2,
        Stage::Generating => after_dependencies + 1,
        Stage::Purging => after_dependencies + 2,
        Stage::LaunchingNode => after_dependencies + 3,
        Stage::LaunchingRpcBridge { .. } => after_dependencies + 4,
        Stage::Arming { .. } => after_dependencies + 5,
        Stage::Running { .. } => after_dependencies + 6,
        Stage::Stopping { next: Some(_), .. } => after_dependencies + 7,
        Stage::Stopping { next: None, .. } => after_dependencies + 8,
        Stage::Stopped { .. } => after_dependencies + 9,
    }
}

/// The place of a state of supervision in the order in which the states
/// follow each other.
pub open spec fn phase_rank(phase: Phase) -> int {
    match phase {
        Phase::Idle => 0,
        Phase::Launching => 1,
        Phase::Running => 2,
        Phase::ShuttingDown => 3,
        Phase::Stopped => 4,
    }
}

/// Whether an action installs the dependency at `index`.
pub open spec fn installs(action: ActionView, index: usize) -> bool {
    action matches ActionView::Install { index: i, .. } && i == index
}

/// Whether an action asks the process with the given role to terminate.
pub open spec fn terminates(action: ActionView, role: Role) -> bool {
    action matches ActionView::Terminate { role: r, .. } && r == role
}

/// Whether a stage is on the way out with the given cause: nothing after
/// an interrupt, or the failure that made the supervisor give up.
pub open spec fn ending_with(stage: Stage, cause: Option<SupervisorError>) -> bool {
    match stage {
        Stage::Stopping { cause: c, .. } => c == cause,
        Stage::Stopped { error } => error == cause,
        _ => false,
    }
}

/// Whether the driver reported, before position `k`, that a process with
/// this identifier was launched.
pub open spec fn reported_launch(events: Seq<Event>, k: int, pid: u32) -> bool {
    exists|i: int| 0 <= i < k && #[trigger] events[i] == (Event::Launched { pid })
}

/// Every step moves forward or stands still: a sound stage is followed by
/// a sound stage that lies no nearer to the start. The stage stands still
/// exactly when the event was not waited for, and then nothing is asked.
pub proof fn law_steps_move_forward(config: ConfigView, stage: Stage, event: Event)
    requires
        config.valid(),
        stage.sound(config.dependencies.len()),
    ensures
        ({
            let count = config.dependencies.len();
            let (next, actions) = transition(config, stage, event);
            &&& next.sound(count)
            &&& progress(count, stage) <= progress(count, next)
            &&& phase_rank(stage.phase_of()) <= phase_rank(next.phase_of())
            &&& progress(count, stage) == progress(count, next) ==> next == stage && actions.len()
                == 0
            &&& progress(count, stage) < progress(count, next) ==> 1 <= actions.len() <= 2
        }),
{
}

proof fn lemma_unfold(config: ConfigView, events: Seq<Event>, k: int)
    requires
        0 <= k < events.len(),
    ensures
        stage_before(config, events, k + 1) == transition(
            config,
            stage_before(config, events, k),
            events[k],
        ).0,
{
    assert(events.take(k + 1).drop_last() =~= events.take(k));
}

proof fn lemma_run_sound(config: ConfigView, events: Seq<Event>, k: int)
    requires
        config.valid(),
        0 <= k <= events.len(),
    ensures
        stage_before(config, events, k).sound(config.dependencies.len()),
    decreases k,
{
    if k > 0 {
        lemma_run_sound(config, events, k - 1);
        lemma_unfold(config, events, k - 1);
        law_steps_move_forward(config, stage_before(config, events, k - 1), events[k - 1]);
    }
}

proof fn lemma_run_monotone(config: ConfigView, events: Seq<Event>, a: int, b: int)
    requires
        config.valid(),
        0 <= a <= b <= events.len(),
    ensures
        progress(config.dependencies.len(), stage_before(config, events, a)) <= progress(
            config.dependencies.len(),
            stage_before(config, events, b),
        ),
    decreases b - a,
{
    if a < b {
        lemma_run_monotone(config, events, a, b - 1);
        lemma_run_sound(config, events, b - 1);
        lemma_unfold(config, events, b - 1);
        law_steps_move_forward(config, stage_before(config, events, b - 1), events[b - 1]);
    }
}

/// An answer that asks for something moves the run past the stage it was
/// given at.
proof fn lemma_answer_advances(config: ConfigView, events: Seq<Event>, k: int, m: int)
    requires
        config.valid(),
        0 <= k < m <= events.len(),
        answer(config, events, k).len() > 0,
    ensures
        progress(config.dependencies.len(), stage_before(config, events, k)) < progress(
            config.dependencies.len(),
            stage_before(config, events, m),
        ),
{
    lemma_run_sound(config, events, k);
    lemma_unfold(config, events, k);
    law_steps_move_forward(config, stage_before(config, events, k), events[k]);
    lemma_run_monotone(config, events, k + 1, m);
}

/// No stage answers twice: two answers that ask for something were given
/// at stages that lie at different distances from the start.
proof fn lemma_one_answer_per_stage(config: ConfigView, events: Seq<Event>, k: int, m: int)
    requires
        config.valid(),
        0 <= k < events.len(),
        0 <= m < events.len(),
        answer(config, events, k).len() > 0,
        answer(config, events, m).len() > 0,
        progress(config.dependencies.len(), stage_before(config, events, k)) == progress(
            config.dependencies.len(),
            stage_before(config, events, m),
        ),
    ensures
        k == m,
{
    if k < m {
        lemma_answer_advances(config, events, k, m);
    } else if m < k {
        lemma_answer_advances(config, events, m, k);
    }
}

/// Whether an action probes the dependency at `index`.
pub open spec fn probes(action: ActionView, index: usize) -> bool {
    action matches ActionView::Probe { index: i, .. } && i == index
}

/// The dependencies are taken in list order, one after the other: the
/// first is probed at the start, and each later one only when the one
/// before it was found present or has been installed. The executable that
/// is probed is that of the dependency.
pub proof fn law_probes_follow_list_order(
    config: ConfigView,
    stage: Stage,
    event: Event,
    j: int,
    index: usize,
)
    requires
        config.valid(),
        stage.sound(config.dependencies.len()),
        0 <= j < transition(config, stage, event).1.len(),
        probes(transition(config, stage, event).1[j], index),
    ensures
        index < config.dependencies.len(),
        transition(config, stage, event) == (
            Stage::Probing { index },
            seq![ActionView::Probe { index, executable: config.dependencies[index as int].bin }],
        ),
        index == 0 ==> stage == Stage::Idle && event == Event::Started,
        index > 0 ==> (stage == (Stage::Probing { index: (index - 1) as usize }) && event == (
        Event::Probed { present: true })) || (stage == (Stage::Installing {
            index: (index - 1) as usize,
        }) && event == (Event::InstallFinished { success: true })),
{
}

/// In every run each dependency is probed at most once.
pub proof fn law_each_dependency_is_probed_once(
    config: ConfigView,
    events: Seq<Event>,
    index: usize,
    k: int,
    i: int,
    m: int,
    j: int,
)
    requires
        config.valid(),
        0 <= k < events.len(),
        0 <= i < answer(config, events, k).len(),
        probes(answer(config, events, k)[i], index),
        0 <= m < events.len(),
        0 <= j < answer(config, events, m).len(),
        probes(answer(config, events, m)[j], index),
    ensures
        k == m,
        i == j,
{
    lemma_run_sound(config, events, k);
    lemma_run_sound(config, events, m);
    law_probes_follow_list_order(config, stage_before(config, events, k), events[k], i, index);
    law_probes_follow_list_order(config, stage_before(config, events, m), events[m], j, index);
    lemma_unfold(config, events, k);
    lemma_unfold(config, events, m);
    if k < m {
        lemma_run_monotone(config, events, k + 1, m);
    } else if m < k {
        lemma_run_monotone(config, events, m + 1, k);
    }
}

/// The supervisor asks for an installation only in answer to a probe that
/// found the dependency absent.
pub proof fn law_install_answers_failed_probe(
    config: ConfigView,
    stage: Stage,
    event: Event,
    j: int,
    index: usize,
)
    requires
        0 <= j < transition(config, stage, event).1.len(),
        installs(transition(config, stage, event).1[j], index),
    ensures
        stage == (Stage::Probing { index }),
        event == (Event::Probed { present: false }),
        transition(config, stage, event).1 == seq![
            ActionView::Install {
                index,
                command: install_command(config.dependencies[index as int]),
            },
        ],
{
}

/// In no run is a dependency installed whose presence probe succeeded:
/// once the probe of the dependency at `index` has found it present, no
/// answer of the run, earlier or later, asks to install it.
pub proof fn law_present_dependency_is_never_installed(
    config: ConfigView,
    events: Seq<Event>,
    k: int,
    index: usize,
    m: int,
    j: int,
)
    requires
        config.valid(),
        0 <= k < events.len(),
        stage_before(config, events, k) == (Stage::Probing { index }),
        events[k] == (Event::Probed { present: true }),
        0 <= m < events.len(),
        0 <= j < answer(config, events, m).len(),
    ensures
        !installs(answer(config, events, m)[j], index),
{
    if installs(answer(config, events, m)[j], index) {
        law_install_answers_failed_probe(
            config,
            stage_before(config, events, m),
            events[m],
            j,
            index,
        );
        lemma_run_sound(config, events, k);
        law_steps_move_forward(config, stage_before(config, events, k), events[k]);
        lemma_one_answer_per_stage(config, events, k, m);
    }
}

/// In every run an absent dependency is installed exactly once: the probe
/// that finds the dependency at `index` absent is answered by the one
/// command that installs it, and no other answer of the run asks to
/// install it.
pub proof fn law_absent_dependency_is_installed_once(
    config: ConfigView,
    events: Seq<Event>,
    k: int,
    index: usize,
    m: int,
    j: int,
)
    requires
        config.valid(),
        0 <= k < events.len(),
        stage_before(config, events, k) == (Stage::Probing { index }),
        events[k] == (Event::Probed { present: false }),
        0 <= m < events.len(),
        0 <= j < answer(config, events, m).len(),
    ensures
        index < config.dependencies.len(),
        answer(config, events, k) == seq![
            ActionView::Install {
                index,
                command: install_command(config.dependencies[index as int]),
            },
        ],
        installs(answer(config, events, m)[j], index) ==> m == k && j == 0,
{
    lemma_run_sound(config, events, k);
    if installs(answer(config, events, m)[j], index) {
        law_install_answers_failed_probe(
            config,
            stage_before(config, events, m),
            events[m],
            j,
            index,
        );
        lemma_one_answer_per_stage(config, events, k, m);
    }
}

/// A failed installation ends the run: it is answered by the exit with
/// that failure, and nothing is asked for afterwards.
pub proof fn law_failed_install_is_fatal(
    config: ConfigView,
    events: Seq<Event>,
    k: int,
    index: usize,
    m: int,
)
    requires
        config.valid(),
        0 <= k < events.len(),
        stage_before(config, events, k) == (Stage::Installing { index }),
        events[k] == (Event::InstallFinished { success: false }),
        k < m < events.len(),
    ensures
        answer(config, events, k) == seq![
            ActionView::Exit { error: Some(SupervisorError::InstallFailure { index }) },
        ],
        answer(config, events, m).len() == 0,
{
    let cause = Some(SupervisorError::InstallFailure { index });
    lemma_unfold(config, events, k);
    lemma_ending_is_final(config, events, k + 1, m, cause);
    lemma_run_sound(config, events, m);
    lemma_run_monotone(config, events, k + 1, m);
}

/// Whether an action asks to purge earlier chain state.
pub open spec fn purges(action: ActionView) -> bool {
    action is PurgeChainData
}

proof fn lemma_generating_was_asked_for(config: ConfigView, events: Seq<Event>, m: int) -> (k:
    int)
    requires
        0 <= m <= events.len(),
        stage_before(config, events, m) == Stage::Generating,
    ensures
        0 <= k < m,
        answer(config, events, k) == seq![
            ActionView::GenerateChainSpec { command: config.generate() },
        ],
    decreases m,
{
    assert(m > 0) by {
        assert(events.take(0).len() == 0);
    }
    lemma_unfold(config, events, m - 1);
    if stage_before(config, events, m - 1) == Stage::Generating {
        lemma_generating_was_asked_for(config, events, m - 1)
    } else {
        m - 1
    }
}

/// Generation comes before the purge: whenever a run asks for the purge,
/// it does so in answer to a generation that succeeded, and it has asked
/// for that generation in an earlier answer.
pub proof fn law_purge_follows_generation(
    config: ConfigView,
    events: Seq<Event>,
    m: int,
    j: int,
) -> (k: int)
    requires
        0 <= m < events.len(),
        0 <= j < answer(config, events, m).len(),
        purges(answer(config, events, m)[j]),
    ensures
        0 <= k < m,
        answer(config, events, k) == seq![
            ActionView::GenerateChainSpec { command: config.generate() },
        ],
        events[m] == (Event::GenerateFinished { success: true }),
        answer(config, events, m) == seq![ActionView::PurgeChainData { command: config.purge() }],
{
    lemma_generating_was_asked_for(config, events, m)
}

/// If the generation fails, the purge is never attempted: the failure is
/// answered by the exit with that failure, and no answer of the run, earlier
/// or later, asks for the purge.
pub proof fn law_failed_generation_skips_purge(
    config: ConfigView,
    events: Seq<Event>,
    k: int,
    m: int,
    j: int,
)
    requires
        config.valid(),
        0 <= k < events.len(),
        stage_before(config, events, k) == Stage::Generating,
        events[k] == (Event::GenerateFinished { success: false }),
        0 <= m < events.len(),
        0 <= j < answer(config, events, m).len(),
    ensures
        answer(config, events, k) == seq![
            ActionView::Exit {
                error: Some(
                    SupervisorError::PrepareFailure { step: PrepareStep::GenerateChainSpec },
                ),
            },
        ],
        !purges(answer(config, events, m)[j]),
{
    if purges(answer(config, events, m)[j]) {
        lemma_one_answer_per_stage(config, events, k, m);
    }
}

/// The services are started only once the chain is prepared: the
/// supervisor leaves the idle state for the launching state exactly on the
/// success of the purge, and then asks for the node.
pub proof fn law_launching_begins_after_preparation(
    config: ConfigView,
    stage: Stage,
    event: Event,
)
    requires
        stage.phase_of() == Phase::Idle,
    ensures
        ({
            let (next, actions) = transition(config, stage, event);
            &&& next.phase_of() != Phase::Running && next.phase_of() != Phase::ShuttingDown
            &&& next.phase_of() == Phase::Launching <==> stage == Stage::Purging && event == (
            Event::PurgeFinished { success: true })
            &&& next.phase_of() == Phase::Launching ==> next == Stage::LaunchingNode && actions
                == seq![
                ActionView::Launch { role: Role::Node, command: config.launch(Role::Node) },
            ]
        }),
{
}

proof fn lemma_live_were_launched(config: ConfigView, events: Seq<Event>, k: int, i: int)
    requires
        0 <= k <= events.len(),
        0 <= i < stage_before(config, events, k).live().len(),
    ensures
        reported_launch(events, k, stage_before(config, events, k).live()[i].pid),
    decreases k,
{
    if k == 0 {
        assert(events.take(0).len() == 0);
    } else {
        lemma_unfold(config, events, k - 1);
        let before = stage_before(config, events, k - 1);
        let process = stage_before(config, events, k).live()[i];
        if events[k - 1] == (Event::Launched { pid: process.pid }) {
        } else {
            let h = choose|h: int| 0 <= h < before.live().len() && before.live()[h] == process;
            assert(0 <= h < before.live().len() && before.live()[h] == process) by {
                lemma_live_is_kept(config, before, events[k - 1], i);
            }
            lemma_live_were_launched(config, events, k - 1, h);
            let w = choose|w: int|
                0 <= w < k - 1 && #[trigger] events[w] == (Event::Launched { pid: process.pid });
            assert(0 <= w < k && events[w] == (Event::Launched { pid: process.pid }));
        }
    }
}

/// A process that is live after a step was live before it, unless the
/// step took in the report of its launch.
proof fn lemma_live_is_kept(config: ConfigView, stage: Stage, event: Event, i: int)
    requires
        0 <= i < transition(config, stage, event).0.live().len(),
        event != (Event::Launched { pid: transition(config, stage, event).0.live()[i].pid }),
    ensures
        exists|h: int|
            0 <= h < stage.live().len() && stage.live()[h] == transition(
                config,
                stage,
                event,
            ).0.live()[i],
{
    let next = transition(config, stage, event).0;
    let process = next.live()[i];
    if next == stage {
        assert(stage.live()[i] == process);
    } else {
        match stage {
            Stage::LaunchingRpcBridge { node } => {
                assert(stage.live()[0] == process);
            },
            Stage::Arming { node, rpc_bridge } => {
                assert(stage.live()[i] == process);
            },
            Stage::Running { node, rpc_bridge } => {
                assert(stage.live()[i] == process);
            },
            Stage::Stopping { current, next: Some(following), .. } => {
                assert(stage.live()[1] == process);
            },
            _ => {},
        }
    }
}

/// The supervisor runs with both services or not at all: wherever a run
/// stands at [`Stage::Running`], it holds two live processes, the node and
/// the RPC bridge, and the driver reported the launch of each.
pub proof fn law_running_holds_both_services(config: ConfigView, events: Seq<Event>, k: int)
    requires
        config.valid(),
        0 <= k <= events.len(),
        stage_before(config, events, k).phase_of() == Phase::Running,
    ensures
        ({
            let live = stage_before(config, events, k).live();
            &&& live.len() == 2
            &&& live[0].role == Role::Node
            &&& live[1].role == Role::RpcBridge
            &&& reported_launch(events, k, live[0].pid)
            &&& reported_launch(events, k, live[1].pid)
        }),
{
    lemma_run_sound(config, events, k);
    lemma_live_were_launched(config, events, k, 0);
    lemma_live_were_launched(config, events, k, 1);
}

proof fn lemma_ending_is_final(
    config: ConfigView,
    events: Seq<Event>,
    k: int,
    m: int,
    cause: Option<SupervisorError>,
)
    requires
        0 <= k <= m <= events.len(),
        ending_with(stage_before(config, events, k), cause),
    ensures
        ending_with(stage_before(config, events, m), cause),
    decreases m - k,
{
    if k < m {
        lemma_ending_is_final(config, events, k, m - 1, cause);
        lemma_unfold(config, events, m - 1);
    }
}

/// The role of the service that a launching stage waits for.
pub open spec fn awaited_service(stage: Stage) -> Role {
    if stage is LaunchingNode {
        Role::Node
    } else {
        Role::RpcBridge
    }
}

/// A failed launch leaks no process and ends in failure. If a service
/// cannot be started, the run never stands at [`Stage::Running`]; the node,
/// if it was started already, is asked to terminate in the same answer;
/// from then on the run is on its way out with the spawn failure as its
/// cause, and every exit it asks for carries that failure.
pub proof fn law_failed_launch_is_rolled_back(
    config: ConfigView,
    events: Seq<Event>,
    k: int,
    m: int,
    j: int,
)
    requires
        config.valid(),
        0 <= k < events.len(),
        stage_before(config, events, k) is LaunchingNode || stage_before(config, events, k)
            is LaunchingRpcBridge,
        events[k] == Event::LaunchFailed,
        0 <= m < events.len(),
        0 <= j < answer(config, events, m).len(),
    ensures
        ({
            let failure = Some(
                SupervisorError::SpawnFailure {
                    role: awaited_service(stage_before(config, events, k)),
                },
            );
            &&& stage_before(config, events, k) matches Stage::LaunchingRpcBridge { node }
                ==> answer(config, events, k) == seq![terminate(node)]
            &&& stage_before(config, events, k) is LaunchingNode ==> stage_before(
                config,
                events,
                k,
            ).live().len() == 0 && answer(config, events, k) == seq![
                ActionView::Exit { error: failure },
            ]
            &&& !(stage_before(config, events, m) is Running)
            &&& !(stage_after(config, events) is Running)
            &&& k < m ==> ending_with(stage_before(config, events, m), failure)
            &&& ending_with(stage_after(config, events), failure)
            &&& answer(config, events, m)[j] matches ActionView::Exit { error } ==> error
                == failure
        }),
{
    let count = config.dependencies.len();
    let failure = Some(
        SupervisorError::SpawnFailure { role: awaited_service(stage_before(config, events, k)) },
    );
    lemma_unfold(config, events, k);
    lemma_run_sound(config, events, k);
    assert(ending_with(stage_before(config, events, k + 1), failure));
    assert(events.take(events.len() as int) =~= events);
    lemma_ending_is_final(config, events, k + 1, events.len() as int, failure);
    if m <= k {
        lemma_run_monotone(config, events, m, k);
        if m < k {
            lemma_answer_advances(config, events, m, k);
            lemma_unfold(config, events, m);
            lemma_run_monotone(config, events, m + 1, k);
        }
    } else {
        lemma_ending_is_final(config, events, k + 1, m, failure);
    }
}

/// A second interrupt does nothing, whatever the stage: the stage that
/// follows an interrupt does not wait for another, so it stays as it is and
/// asks for nothing.
pub proof fn law_interrupt_is_idempotent(config: ConfigView, stage: Stage)
    ensures
        ({
            let (next, _) = transition(config, stage, Event::Interrupted);
            transition(config, next, Event::Interrupted) == (next, Seq::<ActionView>::empty())
        }),
        stage matches Stage::Running { node, rpc_bridge } ==> transition(
            config,
            stage,
            Event::Interrupted,
        ) == (
            Stage::Stopping { current: node, next: Some(rpc_bridge), cause: None },
            seq![terminate(node)],
        ),
        !(stage is Running) ==> transition(config, stage, Event::Interrupted) == (
            stage,
            Seq::<ActionView>::empty(),
        ),
{
}

/// No process is asked to terminate twice: in every run, at most one
/// action asks the service with a given role to terminate, however often
/// the interrupt arrives.
pub proof fn law_each_service_is_terminated_once(
    config: ConfigView,
    events: Seq<Event>,
    role: Role,
    k: int,
    i: int,
    m: int,
    j: int,
)
    requires
        config.valid(),
        0 <= k < events.len(),
        0 <= i < answer(config, events, k).len(),
        terminates(answer(config, events, k)[i], role),
        0 <= m < events.len(),
        0 <= j < answer(config, events, m).len(),
        terminates(answer(config, events, m)[j], role),
    ensures
        k == m,
        i == j,
{
    let count = config.dependencies.len();
    lemma_run_sound(config, events, k);
    lemma_run_sound(config, events, m);
    lemma_terminate_source(config, stage_before(config, events, k), events[k], i, role);
    lemma_terminate_source(config, stage_before(config, events, m), events[m], j, role);
    lemma_unfold(config, events, k);
    lemma_unfold(config, events, m);
    if k < m {
        lemma_run_monotone(config, events, k + 1, m);
    } else if m < k {
        lemma_run_monotone(config, events, m + 1, k);
    }
}

/// Where a request to terminate comes from: the node is asked when the
/// supervisor begins to stop, the RPC bridge when the node has answered.
proof fn lemma_terminate_source(
    config: ConfigView,
    stage: Stage,
    event: Event,
    i: int,
    role: Role,
)
    requires
        config.valid(),
        stage.sound(config.dependencies.len()),
        0 <= i < transition(config, stage, event).1.len(),
        terminates(transition(config, stage, event).1[i], role),
    ensures
        ({
            let count = config.dependencies.len();
            let (next, actions) = transition(config, stage, event);
            &&& forall|h: int|
                0 <= h < actions.len() && h != i ==> !terminates(#[trigger] actions[h], role)
            &&& role == Role::Node ==> progress(count, stage) < 2 * count + 7 && progress(
                count,
                next,
            ) >= 2 * count + 7
            &&& role == Role::RpcBridge ==> progress(count, stage) == 2 * count + 7 && progress(
                count,
                next,
            ) == 2 * count + 8
        }),
{
}

/// The run ends once: at most one answer of a run asks for the exit, it
/// leaves the supervisor at [`Stage::Stopped`], and the exit carries the
/// cause with which the supervisor was stopping.
pub proof fn law_exit_is_asked_once(
    config: ConfigView,
    events: Seq<Event>,
    k: int,
    i: int,
    m: int,
    j: int,
)
    requires
        config.valid(),
        0 <= k < events.len(),
        0 <= i < answer(config, events, k).len(),
        answer(config, events, k)[i] is Exit,
        0 <= m < events.len(),
        0 <= j < answer(config, events, m).len(),
        answer(config, events, m)[j] is Exit,
    ensures
        k == m,
        i == j,
        stage_before(config, events, k + 1) == (Stage::Stopped {
            error: answer(config, events, k)[i]->Exit_error,
        }),
{
    lemma_run_sound(config, events, k);
    lemma_run_sound(config, events, m);
    lemma_exit_source(config, stage_before(config, events, k), events[k], i);
    lemma_exit_source(config, stage_before(config, events, m), events[m], j);
    lemma_unfold(config, events, k);
    lemma_unfold(config, events, m);
    if k < m {
        lemma_run_monotone(config, events, k + 1, m);
    } else if m < k {
        lemma_run_monotone(config, events, m + 1, k);
    }
}

/// Where a request to exit comes from: it is the last action of the step
/// that stops the supervisor.
proof fn lemma_exit_source(config: ConfigView, stage: Stage, event: Event, i: int)
    requires
        config.valid(),
        stage.sound(config.dependencies.len()),
        0 <= i < transition(config, stage, event).1.len(),
        transition(config, stage, event).1[i] is Exit,
    ensures
        ({
            let count = config.dependencies.len();
            let (next, actions) = transition(config, stage, event);
            &&& i == actions.len() - 1
            &&& next == (Stage::Stopped { error: actions[i]->Exit_error })
            &&& progress(count, stage) < 2 * count + 9
        }),
{
}

/// Whether some answer before position `k` asked the process to terminate.
pub open spec fn asked_to_terminate(
    config: ConfigView,
    events: Seq<Event>,
    k: int,
    process: ManagedProcess,
) -> bool {
    exists|h: int, g: int|
        0 <= h < k && 0 <= g < answer(config, events, h).len() && #[trigger] answer(
            config,
            events,
            h,
        )[g] == terminate(process)
}

/// The process that a stopping stage waits for was asked to terminate.
proof fn lemma_current_was_asked(config: ConfigView, events: Seq<Event>, k: int)
    requires
        config.valid(),
        0 <= k <= events.len(),
        stage_before(config, events, k) is Stopping,
    ensures
        asked_to_terminate(config, events, k, stage_before(config, events, k)->Stopping_current),
    decreases k,
{
    let process = stage_before(config, events, k)->Stopping_current;
    assert(k > 0) by {
        assert(events.take(0).len() == 0);
    }
    lemma_unfold(config, events, k - 1);
    lemma_run_sound(config, events, k - 1);
    if stage_before(config, events, k - 1) == stage_before(config, events, k) {
        lemma_current_was_asked(config, events, k - 1);
        let (h, g) = choose|h: int, g: int|
            0 <= h < k - 1 && 0 <= g < answer(config, events, h).len() && #[trigger] answer(
                config,
                events,
                h,
            )[g] == terminate(process);
        assert(0 <= h < k && 0 <= g < answer(config, events, h).len() && answer(
            config,
            events,
            h,
        )[g] == terminate(process));
    } else {
        let last = answer(config, events, k - 1).len() - 1;
        assert(0 <= last && answer(config, events, k - 1)[last] == terminate(process));
    }
}

/// A live process stays live until it is the one whose termination the
/// supervisor waits for.
proof fn lemma_live_persists(config: ConfigView, stage: Stage, event: Event, i: int) -> (h: int)
    requires
        0 <= i < stage.live().len(),
        !(stage is Stopping && stage->Stopping_current == stage.live()[i]),
    ensures
        0 <= h < transition(config, stage, event).0.live().len(),
        transition(config, stage, event).0.live()[h] == stage.live()[i],
{
    let next = transition(config, stage, event).0;
    if next == stage {
        i
    } else {
        match stage {
            Stage::LaunchingRpcBridge { .. } => 0,
            Stage::Stopping { .. } => 0,
            _ => i,
        }
    }
}

/// No process is left behind: when a run asks for the exit, every process
/// that was live at any point of the run has been asked to terminate in
/// an earlier answer.
pub proof fn law_no_process_is_left_behind(
    config: ConfigView,
    events: Seq<Event>,
    k: int,
    i: int,
    m: int,
    j: int,
)
    requires
        config.valid(),
        0 <= k <= m < events.len(),
        0 <= i < stage_before(config, events, k).live().len(),
        0 <= j < answer(config, events, m).len(),
        answer(config, events, m)[j] is Exit,
    ensures
        asked_to_terminate(config, events, m, stage_before(config, events, k).live()[i]),
    decreases m - k,
{
    let stage = stage_before(config, events, k);
    let process = stage.live()[i];
    lemma_run_sound(config, events, k);
    if stage is Stopping && stage->Stopping_current == process {
        lemma_current_was_asked(config, events, k);
        let (h, g) = choose|h: int, g: int|
            0 <= h < k && 0 <= g < answer(config, events, h).len() && #[trigger] answer(
                config,
                events,
                h,
            )[g] == terminate(process);
        assert(0 <= h < m && 0 <= g < answer(config, events, h).len() && answer(
            config,
            events,
            h,
        )[g] == terminate(process));
    } else {
        assert(k < m);
        lemma_unfold(config, events, k);
        let h = lemma_live_persists(config, stage, events[k], i);
        law_no_process_is_left_behind(config, events, k + 1, h, m, j);
    }
}

/// An interrupt while both services run ends the program with success:
/// the node is asked to terminate, then the RPC bridge, then the exit is
/// asked for without an error, whether or not the terminations succeeded.
/// A termination that failed is reported before the next request.
pub proof fn law_interrupt_shuts_down_cleanly(
    config: ConfigView,
    node: ManagedProcess,
    rpc_bridge: ManagedProcess,
    first: bool,
    second: bool,
)
    ensures
        ({
            let running = Stage::Running { node, rpc_bridge };
            let (s1, a1) = transition(config, running, Event::Interrupted);
            let (s2, a2) = transition(config, s1, Event::TerminateFinished { success: first });
            let (s3, a3) = transition(config, s2, Event::TerminateFinished { success: second });
            &&& a1 == seq![terminate(node)]
            &&& a2 == if first {
                seq![terminate(rpc_bridge)]
            } else {
                seq![
                    ActionView::Report {
                        failure: SupervisorError::TerminateFailure {
                            pid: node.pid,
                            role: node.role,
                        },
                    },
                    terminate(rpc_bridge),
                ]
            }
            &&& a3 == if second {
                seq![ActionView::Exit { error: None }]
            } else {
                seq![
                    ActionView::Report {
                        failure: SupervisorError::TerminateFailure {
                            pid: rpc_bridge.pid,
                            role: rpc_bridge.role,
                        },
                    },
                    ActionView::Exit { error: None },
                ]
            }
            &&& s3 == (Stage::Stopped { error: None })
        }),
{
    let running = Stage::Running { node, rpc_bridge };
    let (s1, a1) = transition(config, running, Event::Interrupted);
    let (s2, a2) = transition(config, s1, Event::TerminateFinished { success: first });
    let (s3, a3) = transition(config, s2, Event::TerminateFinished { success: second });
    assert(a2 =~= if first {
        seq![terminate(rpc_bridge)]
    } else {
        seq![
            ActionView::Report {
                failure: SupervisorError::TerminateFailure { pid: node.pid, role: node.role },
            },
            terminate(rpc_bridge),
        ]
    });
    assert(a3 =~= if second {
        seq![ActionView::Exit { error: None }]
    } else {
        seq![
            ActionView::Report {
                failure: SupervisorError::TerminateFailure {
                    pid: rpc_bridge.pid,
                    role: rpc_bridge.role,
                },
            },
            ActionView::Exit { error: None },
        ]
    });
}

} // verus!
