//! The desktop shell's supervision of the packaged daemon.
//!
//! The desktop owns availability, not policy: it may launch only its
//! packaged daemon, refuses any local endpoint that does not identify as a
//! compatible Gateway daemon, and never restarts a daemon the user stopped
//! explicitly from the CLI (the stop marker in the data directory).
//!
//! [`ensure_ready_step`] holds every decision of one "make sure a daemon is
//! ready" run as a state machine: the runtime performs the action it
//! returns (clear or check the stop marker, probe the endpoint, ask a stale
//! daemon to stop, spawn, wait for readiness) and hands the outcome back as
//! the next event. The lifecycle views it returns are published in order.

use vstd::prelude::*;
use vstd::string::*;

use crate::config::{transport_mode_name, CompanionConfig};
use crate::time_model::Duration;

verus! {

/// Where the packaged daemon stands, as the desktop UI shows it.
#[derive(Debug, Clone, Copy, PartialEq, Eq, Structural)]
pub enum DaemonLifecycleState {
    Starting,
    Ready,
    Stopped,
    Failed,
}

/// One published lifecycle view, without the daemon identity that the
/// runtime attaches to a `Ready` view.
#[derive(Debug, Clone, PartialEq, Eq)]
pub struct LifecycleUpdate {
    pub state: DaemonLifecycleState,
    pub message: Option<String>,
}

/// How a probe of the local endpoint ended.
#[derive(Debug, Clone, PartialEq, Eq)]
pub enum ProbeOutcome {
    /// A compatible daemon of the packaged version answered.
    Ready,
    /// Nothing usable answered (yet).
    Unavailable(String),
    /// Something answered that is not a compatible Gateway daemon.
    Incompatible(String),
    /// A Gateway daemon of another version answered.
    VersionMismatch { expected: String, actual: String },
}

/// How a daemon answered a shutdown request.
#[derive(Debug, Clone, Copy, PartialEq, Eq, Structural)]
pub enum ShutdownAnswer {
    Ack,
    Refused,
    Unexpected,
}

/// Why a daemon is being stopped.
#[derive(Debug, Clone, Copy, PartialEq, Eq, Structural)]
pub enum StopContext {
    /// A stale daemon of another version holds the endpoint.
    Stale,
    /// A daemon became ready while the user's stop marker was present.
    AfterStopMarker,
}

/// Launch attempts of one run.
pub const START_ATTEMPTS: u64 = 3;

/// Where one run stands.
#[derive(Debug, Clone, PartialEq, Eq)]
pub enum EnsurePhase {
    /// Not started; `first_start` holds for the launcher's first run, which
    /// adopts (clears) a stop marker left from before.
    Start { first_start: bool },
    AwaitMarkerCleared,
    AwaitMarkerChecked,
    AwaitProbe,
    AwaitShutdownAnswer { context: StopContext },
    AwaitStopped { context: StopContext },
    /// Waiting for the spawn of launch attempt `attempt` (from 0).
    AwaitSpawn { attempt: u64, last_error: String },
    AwaitReadiness { attempt: u64, last_error: String },
    Finished,
}

/// What the runtime reports.
#[derive(Debug, Clone, PartialEq, Eq)]
pub enum EnsureEvent {
    Begin,
    /// The stop marker was removed, or was not there.
    MarkerCleared,
    MarkerClearFailed(String),
    MarkerChecked { present: bool },
    /// The probe's outcome, and whether the stop marker is present now.
    Probed { outcome: ProbeOutcome, marker_present: bool },
    ShutdownSendFailed(String),
    ShutdownAnswered(ShutdownAnswer),
    StopWaitFailed(String),
    Stopped,
    Spawned,
    /// The packaged daemon binary is missing or invalid.
    SidecarMissing(String),
    SpawnFailed(String),
    /// The readiness wait's outcome, and whether the stop marker is present now.
    Readiness { outcome: ProbeOutcome, marker_present: bool },
}

/// What the runtime does next.
#[derive(Debug, Clone, PartialEq, Eq)]
pub enum EnsureAction {
    ClearStopMarker,
    CheckStopMarker,
    Probe,
    SendShutdown,
    WaitStopped,
    /// Wait `delay_ms`, then spawn the packaged daemon.
    Spawn { delay_ms: u64 },
    WaitReady,
    /// The run is over: `Ok` with the data directory, or `Err` with `message`.
    Finish { ok: bool, message: Option<String> },
    /// The event does not belong to this phase; nothing changes.
    Ignore,
}

/// One step of a run.
#[derive(Debug, Clone, PartialEq, Eq)]
pub struct EnsureStep {
    pub phase: EnsurePhase,
    pub action: EnsureAction,
    pub updates: Vec<LifecycleUpdate>,
}

pub open spec fn starting_message() -> Seq<char> {
    "Starting the packaged Gateway daemon"@
}

pub open spec fn stopped_by_cli_message() -> Seq<char> {
    "Gateway daemon was stopped explicitly from the CLI. Run `kicad-mcp-gateway daemon start` or reopen Gateway Desktop."@
}

pub open spec fn not_restarted_message() -> Seq<char> {
    "Gateway daemon was stopped explicitly from the CLI; the desktop supervisor did not restart it."@
}

pub open spec fn marker_clear_failed_message(e: Seq<char>) -> Seq<char> {
    "Could not clear the previous explicit daemon-stop state: "@ + e + ". No daemon was launched."@
}

pub open spec fn refused_endpoint_message(m: Seq<char>) -> Seq<char> {
    "Refusing local endpoint: "@ + m + ". No alternate endpoint or process will be used."@
}

pub open spec fn stale_during_startup_message(expected: Seq<char>, actual: Seq<char>) -> Seq<char> {
    "A stale Gateway daemon "@ + actual + " appeared during startup; expected "@ + expected
        + ". It will not receive privileged requests."@
}

pub open spec fn not_ready_message(last_error: Seq<char>) -> Seq<char> {
    "Packaged Gateway daemon did not become ready: "@ + last_error
        + ". Reinstall Gateway; no alternate daemon will be launched."@
}

pub open spec fn stop_send_failed_message(e: Seq<char>) -> Seq<char> {
    "Stale Gateway daemon could not be stopped safely: "@ + e + ". No replacement daemon was launched."@
}

pub open spec fn stop_refused_message() -> Seq<char> {
    "Stale Gateway daemon refused shutdown. No replacement daemon was launched."@
}

pub open spec fn stop_unexpected_message() -> Seq<char> {
    "Stale Gateway daemon returned an unexpected shutdown response variant. No replacement daemon was launched."@
}

pub open spec fn stop_wait_failed_message(e: Seq<char>) -> Seq<char> {
    "Stale Gateway daemon did not release its local endpoint: "@ + e
        + ". No replacement daemon was launched."@
}

pub open spec fn sidecar_missing_message(e: Seq<char>) -> Seq<char> {
    "Packaged Gateway daemon is missing or invalid: "@ + e
        + ". Reinstall Gateway; no alternate daemon will be launched."@
}

pub open spec fn spawn_failed_message(e: Seq<char>) -> Seq<char> {
    "Packaged Gateway daemon could not start: "@ + e + ". No alternate daemon will be launched."@
}

pub open spec fn initial_last_error() -> Seq<char> {
    "packaged daemon did not become ready"@
}

/// A lifecycle view as plain values.
pub open spec fn update_view(u: LifecycleUpdate) -> (DaemonLifecycleState, Option<Seq<char>>) {
    (
        u.state,
        match u.message {
            Some(m) => Some(m@),
            None => None,
        },
    )
}

/// The published views of a step, as plain values.
pub open spec fn updates_view(updates: Seq<LifecycleUpdate>) -> Seq<(DaemonLifecycleState, Option<Seq<char>>)> {
    updates.map_values(|u: LifecycleUpdate| update_view(u))
}

/// The step's action, as plain values.
pub open spec fn action_view(a: EnsureAction) -> (int, u64, bool, Option<Seq<char>>) {
    match a {
        EnsureAction::ClearStopMarker => (0, 0, false, None),
        EnsureAction::CheckStopMarker => (1, 0, false, None),
        EnsureAction::Probe => (2, 0, false, None),
        EnsureAction::SendShutdown => (3, 0, false, None),
        EnsureAction::WaitStopped => (4, 0, false, None),
        EnsureAction::Spawn { delay_ms } => (5, delay_ms, false, None),
        EnsureAction::WaitReady => (6, 0, false, None),
        EnsureAction::Finish { ok, message } => (
            7,
            0,
            ok,
            match message {
                Some(m) => Some(m@),
                None => None,
            },
        ),
        EnsureAction::Ignore => (8, 0, false, None),
    }
}

/// A run that ends with `message` as a failure, published as `state`.
pub open spec fn ends_with(
    step: EnsureStep,
    state: DaemonLifecycleState,
    message: Seq<char>,
) -> bool {
    &&& step.phase == EnsurePhase::Finished
    &&& action_view(step.action) == (7int, 0u64, false, Some(message))
    &&& updates_view(step.updates@) == seq![(state, Some(message))]
}

/// A step that moves to `phase`, asks for `action`, and publishes nothing.
pub open spec fn moves_to(step: EnsureStep, phase: EnsurePhase, action: EnsureAction) -> bool {
    &&& step.phase == phase
    &&& step.action == action
    &&& step.updates@.len() == 0
}

/// A step that publishes `Starting` and spawns attempt `attempt` after its
/// back-off.
pub open spec fn launches(step: EnsureStep, attempt: u64, last_error: Seq<char>) -> bool {
    &&& step.phase matches EnsurePhase::AwaitSpawn { attempt: a, last_error: l } && a == attempt
        && l@ == last_error
    &&& step.action == EnsureAction::Spawn { delay_ms: (250 * attempt) as u64 }
    &&& updates_view(step.updates@) == seq![
        (DaemonLifecycleState::Starting, Some(starting_message())),
    ]
}

/// What a run does with an event in a phase.
pub open spec fn ensure_step_ok(phase: EnsurePhase, event: EnsureEvent, step: EnsureStep) -> bool {
    match (phase, event) {
        (EnsurePhase::Start { first_start }, EnsureEvent::Begin) => if first_start {
            moves_to(step, EnsurePhase::AwaitMarkerCleared, EnsureAction::ClearStopMarker)
        } else {
            moves_to(step, EnsurePhase::AwaitMarkerChecked, EnsureAction::CheckStopMarker)
        },
        (EnsurePhase::AwaitMarkerCleared, EnsureEvent::MarkerCleared) => moves_to(
            step,
            EnsurePhase::AwaitProbe,
            EnsureAction::Probe,
        ),
        (EnsurePhase::AwaitMarkerCleared, EnsureEvent::MarkerClearFailed(e)) => ends_with(
            step,
            DaemonLifecycleState::Failed,
            marker_clear_failed_message(e@),
        ),
        (EnsurePhase::AwaitMarkerChecked, EnsureEvent::MarkerChecked { present }) => if present {
            ends_with(step, DaemonLifecycleState::Stopped, stopped_by_cli_message())
        } else {
            moves_to(step, EnsurePhase::AwaitProbe, EnsureAction::Probe)
        },
        (EnsurePhase::AwaitProbe, EnsureEvent::Probed { outcome, marker_present }) => match outcome {
            ProbeOutcome::Ready => {
                &&& step.phase == EnsurePhase::Finished
                &&& action_view(step.action) == (7int, 0u64, true, None::<Seq<char>>)
                &&& updates_view(step.updates@) == seq![(DaemonLifecycleState::Ready, None::<Seq<char>>)]
            },
            ProbeOutcome::Incompatible(m) => ends_with(
                step,
                DaemonLifecycleState::Failed,
                refused_endpoint_message(m@),
            ),
            ProbeOutcome::VersionMismatch { .. } => {
                &&& step.phase == EnsurePhase::AwaitShutdownAnswer { context: StopContext::Stale }
                &&& step.action == EnsureAction::SendShutdown
                &&& updates_view(step.updates@) == seq![
                    (DaemonLifecycleState::Starting, Some(starting_message())),
                ]
            },
            ProbeOutcome::Unavailable(_) => if marker_present {
                ends_with(step, DaemonLifecycleState::Stopped, stopped_by_cli_message())
            } else {
                launches(step, 0, initial_last_error())
            },
        },
        (EnsurePhase::AwaitShutdownAnswer { context }, EnsureEvent::ShutdownSendFailed(e)) => stop_failed(
            step,
            context,
            stop_send_failed_message(e@),
        ),
        (EnsurePhase::AwaitShutdownAnswer { context }, EnsureEvent::ShutdownAnswered(answer)) => match answer {
            ShutdownAnswer::Ack => moves_to(
                step,
                EnsurePhase::AwaitStopped { context },
                EnsureAction::WaitStopped,
            ),
            ShutdownAnswer::Refused => stop_failed(step, context, stop_refused_message()),
            ShutdownAnswer::Unexpected => stop_failed(step, context, stop_unexpected_message()),
        },
        (EnsurePhase::AwaitStopped { context }, EnsureEvent::StopWaitFailed(e)) => stop_failed(
            step,
            context,
            stop_wait_failed_message(e@),
        ),
        (EnsurePhase::AwaitStopped { context }, EnsureEvent::Stopped) => match context {
            StopContext::Stale => launches(step, 0, initial_last_error()),
            StopContext::AfterStopMarker => ends_with(
                step,
                DaemonLifecycleState::Stopped,
                not_restarted_message(),
            ),
        },
        (EnsurePhase::AwaitSpawn { attempt, last_error }, EnsureEvent::Spawned) => {
            &&& step.phase matches EnsurePhase::AwaitReadiness { attempt: a, last_error: l }
                && a == attempt && l@ == last_error@
            &&& step.action == EnsureAction::WaitReady
            &&& step.updates@.len() == 0
        },
        (EnsurePhase::AwaitSpawn { .. }, EnsureEvent::SidecarMissing(e)) => ends_with(
            step,
            DaemonLifecycleState::Failed,
            sidecar_missing_message(e@),
        ),
        (EnsurePhase::AwaitSpawn { .. }, EnsureEvent::SpawnFailed(e)) => ends_with(
            step,
            DaemonLifecycleState::Failed,
            spawn_failed_message(e@),
        ),
        (
            EnsurePhase::AwaitReadiness { attempt, last_error },
            EnsureEvent::Readiness { outcome, marker_present },
        ) => match outcome {
            ProbeOutcome::Ready => if marker_present {
                moves_to(
                    step,
                    EnsurePhase::AwaitShutdownAnswer { context: StopContext::AfterStopMarker },
                    EnsureAction::SendShutdown,
                )
            } else {
                &&& step.phase == EnsurePhase::Finished
                &&& action_view(step.action) == (7int, 0u64, true, None::<Seq<char>>)
                &&& updates_view(step.updates@) == seq![(DaemonLifecycleState::Ready, None::<Seq<char>>)]
            },
            ProbeOutcome::Incompatible(m) => ends_with(
                step,
                DaemonLifecycleState::Failed,
                refused_endpoint_message(m@),
            ),
            ProbeOutcome::VersionMismatch { expected, actual } => ends_with(
                step,
                DaemonLifecycleState::Failed,
                stale_during_startup_message(expected@, actual@),
            ),
            ProbeOutcome::Unavailable(m) => if attempt + 1 < START_ATTEMPTS {
                &&& step.phase matches EnsurePhase::AwaitSpawn { attempt: a, last_error: l } && a
                    == attempt + 1 && l@ == m@
                &&& step.action == EnsureAction::Spawn { delay_ms: (250 * (attempt + 1)) as u64 }
                &&& step.updates@.len() == 0
            } else {
                ends_with(step, DaemonLifecycleState::Failed, not_ready_message(m@))
            },
        },
        _ => {
            &&& step.phase == phase
            &&& step.action == EnsureAction::Ignore
            &&& step.updates@.len() == 0
        },
    }
}

/// A stop that failed: for a stale daemon the run fails with the stop's
/// message; for a daemon stopped because of the stop marker, the failure is
/// published and the run then ends as stopped by the user.
pub open spec fn stop_failed(step: EnsureStep, context: StopContext, message: Seq<char>) -> bool {
    match context {
        StopContext::Stale => ends_with(step, DaemonLifecycleState::Failed, message),
        StopContext::AfterStopMarker => {
            &&& step.phase == EnsurePhase::Finished
            &&& action_view(step.action) == (7int, 0u64, false, Some(not_restarted_message()))
            &&& updates_view(step.updates@) == seq![
                (DaemonLifecycleState::Failed, Some(message)),
                (DaemonLifecycleState::Stopped, Some(not_restarted_message())),
            ]
        },
    }
}

fn update(state: DaemonLifecycleState, message: Option<String>) -> (u: LifecycleUpdate)
    ensures
        u.state == state,
        u.message == message,
{
    LifecycleUpdate { state, message }
}

fn finish_failed(state: DaemonLifecycleState, message: String) -> (step: EnsureStep)
    ensures
        ends_with(step, state, message@),
{
    let mut updates = Vec::new();
    updates.push(update(state, Some(message.clone())));
    proof {
        assert(updates_view(updates@) =~= seq![(state, Some(message@))]);
    }
    EnsureStep { phase: EnsurePhase::Finished, action: EnsureAction::Finish { ok: false, message: Some(message) }, updates }
}

fn finish_ready() -> (step: EnsureStep)
    ensures
        step.phase == EnsurePhase::Finished,
        action_view(step.action) == (7int, 0u64, true, None::<Seq<char>>),
        updates_view(step.updates@) == seq![(DaemonLifecycleState::Ready, None::<Seq<char>>)],
{
    let mut updates = Vec::new();
    updates.push(update(DaemonLifecycleState::Ready, None));
    proof {
        assert(updates_view(updates@) =~= seq![(DaemonLifecycleState::Ready, None::<Seq<char>>)]);
    }
    EnsureStep { phase: EnsurePhase::Finished, action: EnsureAction::Finish { ok: true, message: None }, updates }
}

fn go(phase: EnsurePhase, action: EnsureAction) -> (step: EnsureStep)
    ensures
        moves_to(step, phase, action),
{
    EnsureStep { phase, action, updates: Vec::new() }
}

fn starting_update() -> (u: LifecycleUpdate)
    ensures
        update_view(u) == (DaemonLifecycleState::Starting, Some(starting_message())),
{
    update(DaemonLifecycleState::Starting, Some(String::from_str("Starting the packaged Gateway daemon")))
}

fn launch(attempt: u64, last_error: String) -> (step: EnsureStep)
    requires
        attempt < START_ATTEMPTS,
    ensures
        launches(step, attempt, last_error@),
{
    let mut updates = Vec::new();
    updates.push(starting_update());
    proof {
        assert(updates_view(updates@) =~= seq![
            (DaemonLifecycleState::Starting, Some(starting_message())),
        ]);
    }
    EnsureStep {
        phase: EnsurePhase::AwaitSpawn { attempt, last_error },
        action: EnsureAction::Spawn { delay_ms: 250 * attempt },
        updates,
    }
}

fn stop_failure(context: StopContext, message: String) -> (step: EnsureStep)
    ensures
        stop_failed(step, context, message@),
{
    match context {
        StopContext::Stale => finish_failed(DaemonLifecycleState::Failed, message),
        StopContext::AfterStopMarker => {
            let mut updates = Vec::new();
            updates.push(update(DaemonLifecycleState::Failed, Some(message)));
            let final_message = not_restarted_text();
            updates.push(update(DaemonLifecycleState::Stopped, Some(final_message.clone())));
            proof {
                assert(updates_view(updates@) =~= seq![
                    (DaemonLifecycleState::Failed, Some(message@)),
                    (DaemonLifecycleState::Stopped, Some(not_restarted_message())),
                ]);
            }
            EnsureStep {
                phase: EnsurePhase::Finished,
                action: EnsureAction::Finish { ok: false, message: Some(final_message) },
                updates,
            }
        },
    }
}

fn text(s: &str) -> (r: String)
    ensures
        r@ == s@,
{
    String::from_str(s)
}

fn not_restarted_text() -> (r: String)
    ensures
        r@ == not_restarted_message(),
{
    text("Gateway daemon was stopped explicitly from the CLI; the desktop supervisor did not restart it.")
}

fn stopped_by_cli_text() -> (r: String)
    ensures
        r@ == stopped_by_cli_message(),
{
    text("Gateway daemon was stopped explicitly from the CLI. Run `kicad-mcp-gateway daemon start` or reopen Gateway Desktop.")
}

fn wrap(before: &str, middle: &str, after: &str) -> (r: String)
    ensures
        r@ == before@ + middle@ + after@,
{
    String::from_str(before).concat(middle).concat(after)
}

/// Decides one step of a run: given where the run stands and what the
/// runtime reports, the next phase, the next action and the lifecycle views
/// to publish.
pub fn ensure_ready_step(phase: EnsurePhase, event: EnsureEvent) -> (step: EnsureStep)
    requires
        phase matches EnsurePhase::AwaitSpawn { attempt, .. } ==> attempt < START_ATTEMPTS,
        phase matches EnsurePhase::AwaitReadiness { attempt, .. } ==> attempt < START_ATTEMPTS,
    ensures
        ensure_step_ok(phase, event, step),
        step.phase matches EnsurePhase::AwaitSpawn { attempt, .. } ==> attempt < START_ATTEMPTS,
        step.phase matches EnsurePhase::AwaitReadiness { attempt, .. } ==> attempt < START_ATTEMPTS,
{
    match (phase, event) {
        (EnsurePhase::Start { first_start }, EnsureEvent::Begin) => if first_start {
            go(EnsurePhase::AwaitMarkerCleared, EnsureAction::ClearStopMarker)
        } else {
            go(EnsurePhase::AwaitMarkerChecked, EnsureAction::CheckStopMarker)
        },
        (EnsurePhase::AwaitMarkerCleared, EnsureEvent::MarkerCleared) => go(
            EnsurePhase::AwaitProbe,
            EnsureAction::Probe,
        ),
        (EnsurePhase::AwaitMarkerCleared, EnsureEvent::MarkerClearFailed(e)) => finish_failed(
            DaemonLifecycleState::Failed,
            wrap(
                "Could not clear the previous explicit daemon-stop state: ",
                e.as_str(),
                ". No daemon was launched.",
            ),
        ),
        (EnsurePhase::AwaitMarkerChecked, EnsureEvent::MarkerChecked { present }) => if present {
            finish_failed(DaemonLifecycleState::Stopped, stopped_by_cli_text())
        } else {
            go(EnsurePhase::AwaitProbe, EnsureAction::Probe)
        },
        (EnsurePhase::AwaitProbe, EnsureEvent::Probed { outcome, marker_present }) => match outcome {
            ProbeOutcome::Ready => finish_ready(),
            ProbeOutcome::Incompatible(m) => finish_failed(
                DaemonLifecycleState::Failed,
                wrap(
                    "Refusing local endpoint: ",
                    m.as_str(),
                    ". No alternate endpoint or process will be used.",
                ),
            ),
            ProbeOutcome::VersionMismatch { .. } => {
                let mut updates = Vec::new();
                updates.push(starting_update());
                proof {
                    assert(updates_view(updates@) =~= seq![
                        (DaemonLifecycleState::Starting, Some(starting_message())),
                    ]);
                }
                EnsureStep {
                    phase: EnsurePhase::AwaitShutdownAnswer { context: StopContext::Stale },
                    action: EnsureAction::SendShutdown,
                    updates,
                }
            },
            ProbeOutcome::Unavailable(_) => if marker_present {
                finish_failed(DaemonLifecycleState::Stopped, stopped_by_cli_text())
            } else {
                launch(0, text("packaged daemon did not become ready"))
            },
        },
        (EnsurePhase::AwaitShutdownAnswer { context }, EnsureEvent::ShutdownSendFailed(e)) => stop_failure(
            context,
            wrap(
                "Stale Gateway daemon could not be stopped safely: ",
                e.as_str(),
                ". No replacement daemon was launched.",
            ),
        ),
        (EnsurePhase::AwaitShutdownAnswer { context }, EnsureEvent::ShutdownAnswered(answer)) => match answer {
            ShutdownAnswer::Ack => go(EnsurePhase::AwaitStopped { context }, EnsureAction::WaitStopped),
            ShutdownAnswer::Refused => stop_failure(
                context,
                text("Stale Gateway daemon refused shutdown. No replacement daemon was launched."),
            ),
            ShutdownAnswer::Unexpected => stop_failure(
                context,
                text(
                    "Stale Gateway daemon returned an unexpected shutdown response variant. No replacement daemon was launched.",
                ),
            ),
        },
        (EnsurePhase::AwaitStopped { context }, EnsureEvent::StopWaitFailed(e)) => stop_failure(
            context,
            wrap(
                "Stale Gateway daemon did not release its local endpoint: ",
                e.as_str(),
                ". No replacement daemon was launched.",
            ),
        ),
        (EnsurePhase::AwaitStopped { context }, EnsureEvent::Stopped) => match context {
            StopContext::Stale => launch(0, text("packaged daemon did not become ready")),
            StopContext::AfterStopMarker => finish_failed(
                DaemonLifecycleState::Stopped,
                not_restarted_text(),
            ),
        },
        (EnsurePhase::AwaitSpawn { attempt, last_error }, EnsureEvent::Spawned) => go(
            EnsurePhase::AwaitReadiness { attempt, last_error },
            EnsureAction::WaitReady,
        ),
        (EnsurePhase::AwaitSpawn { .. }, EnsureEvent::SidecarMissing(e)) => finish_failed(
            DaemonLifecycleState::Failed,
            wrap(
                "Packaged Gateway daemon is missing or invalid: ",
                e.as_str(),
                ". Reinstall Gateway; no alternate daemon will be launched.",
            ),
        ),
        (EnsurePhase::AwaitSpawn { .. }, EnsureEvent::SpawnFailed(e)) => finish_failed(
            DaemonLifecycleState::Failed,
            wrap(
                "Packaged Gateway daemon could not start: ",
                e.as_str(),
                ". No alternate daemon will be launched.",
            ),
        ),
        (
            EnsurePhase::AwaitReadiness { attempt, last_error },
            EnsureEvent::Readiness { outcome, marker_present },
        ) => match outcome {
            ProbeOutcome::Ready => if marker_present {
                go(
                    EnsurePhase::AwaitShutdownAnswer { context: StopContext::AfterStopMarker },
                    EnsureAction::SendShutdown,
                )
            } else {
                finish_ready()
            },
            ProbeOutcome::Incompatible(m) => finish_failed(
                DaemonLifecycleState::Failed,
                wrap(
                    "Refusing local endpoint: ",
                    m.as_str(),
                    ". No alternate endpoint or process will be used.",
                ),
            ),
            ProbeOutcome::VersionMismatch { expected, actual } => {
                let message = String::from_str("A stale Gateway daemon ").concat(
                    actual.as_str(),
                ).concat(" appeared during startup; expected ").concat(expected.as_str()).concat(
                    ". It will not receive privileged requests.",
                );
                finish_failed(DaemonLifecycleState::Failed, message)
            },
            ProbeOutcome::Unavailable(m) => if attempt + 1 < START_ATTEMPTS {
                EnsureStep {
                    phase: EnsurePhase::AwaitSpawn { attempt: attempt + 1, last_error: m },
                    action: EnsureAction::Spawn { delay_ms: 250 * (attempt + 1) },
                    updates: Vec::new(),
                }
            } else {
                finish_failed(
                    DaemonLifecycleState::Failed,
                    wrap(
                        "Packaged Gateway daemon did not become ready: ",
                        m.as_str(),
                        ". Reinstall Gateway; no alternate daemon will be launched.",
                    ),
                )
            },
        },
        (phase, _) => go(phase, EnsureAction::Ignore),
    }
}

/// The shortest pause of the readiness watchdog.
pub open spec fn watchdog_min_delay() -> Duration {
    Duration { nanos: 2_000_000_000 }
}

/// The longest pause of the readiness watchdog.
pub open spec fn watchdog_max_delay() -> Duration {
    Duration { nanos: 30_000_000_000 }
}

/// The watchdog's pause after a failed readiness check: twice the current
/// pause, capped at thirty seconds.
pub open spec fn spec_next_watchdog_delay(current: Duration) -> Duration {
    if 2 * current.nanos < watchdog_max_delay().nanos {
        Duration { nanos: (2 * current.nanos) as i128 }
    } else {
        watchdog_max_delay()
    }
}

/// The first and shortest pause of the readiness watchdog: two seconds.
pub fn min_watchdog_delay() -> (d: Duration)
    ensures
        d == watchdog_min_delay(),
{
    Duration { nanos: 2_000_000_000 }
}

/// The longest pause of the readiness watchdog: thirty seconds.
pub fn max_watchdog_delay() -> (d: Duration)
    ensures
        d == watchdog_max_delay(),
{
    Duration { nanos: 30_000_000_000 }
}

/// The watchdog's pause after a failed readiness check: twice `current`,
/// capped at thirty seconds.
pub fn next_watchdog_delay(current: Duration) -> (next: Duration)
    requires
        current.nanos >= 0,
    ensures
        next == spec_next_watchdog_delay(current),
{
    if current.nanos < 15_000_000_000 {
        Duration { nanos: 2 * current.nanos }
    } else {
        Duration { nanos: 30_000_000_000 }
    }
}

/// The watchdog's back-off is bounded: from any non-negative pause of at
/// most thirty seconds, the next one is no shorter and still at most
/// thirty seconds, and it reaches thirty seconds from the shortest pause
/// within four doublings.
pub proof fn lemma_watchdog_backoff_is_bounded(current: Duration)
    requires
        0 <= current.nanos <= watchdog_max_delay().nanos,
    ensures
        current.nanos <= spec_next_watchdog_delay(current).nanos <= watchdog_max_delay().nanos,
        spec_next_watchdog_delay(
            spec_next_watchdog_delay(
                spec_next_watchdog_delay(spec_next_watchdog_delay(watchdog_min_delay())),
            ),
        ) == watchdog_max_delay(),
{
}

/// What the desktop shows of the configuration.
#[derive(Debug, Clone, PartialEq, Eq)]
pub struct ConfigView {
    pub data_dir: String,
    pub log_level: String,
    pub core_bridge_endpoint: String,
    pub transport_mode: String,
}

impl ConfigView {
    /// The view of `config`.
    pub fn from_config(config: &CompanionConfig) -> (v: ConfigView)
        ensures
            v.data_dir@ == config.data_dir@,
            v.log_level@ == config.log_level@,
            v.core_bridge_endpoint@ == config.core_bridge_endpoint.spec_text(),
            v.transport_mode@ == transport_mode_name(config.transport_mode),
    {
        ConfigView {
            data_dir: config.data_dir.clone(),
            log_level: config.log_level.clone(),
            core_bridge_endpoint: String::from_str(config.core_bridge_endpoint.as_str()),
            transport_mode: config.transport_mode.to_string(),
        }
    }
}

/// What `daemon start` of the CLI does after probing the endpoint.
#[derive(Debug, Clone, PartialEq, Eq)]
pub enum CliStartPlan {
    /// A compatible daemon already serves: clear the stop marker and report it.
    AlreadyReady,
    /// The endpoint is not a compatible Gateway daemon: refuse, launch nothing.
    Refuse { message: String },
    /// A stale daemon holds the endpoint: stop it, then start the packaged one.
    StopStaleThenStart,
    /// Nothing serves: clear the stop marker and start the packaged daemon.
    Start,
}

/// Decides `daemon start` from the probe's outcome.
pub fn cli_start_plan(probe: &ProbeOutcome) -> (plan: CliStartPlan)
    ensures
        match *probe {
            ProbeOutcome::Ready => plan == CliStartPlan::AlreadyReady,
            ProbeOutcome::Incompatible(m) => plan matches CliStartPlan::Refuse { message }
                && message@ == "refusing untrusted or incompatible local endpoint: "@ + m@
                + "; no alternate daemon was launched"@,
            ProbeOutcome::VersionMismatch { .. } => plan == CliStartPlan::StopStaleThenStart,
            ProbeOutcome::Unavailable(_) => plan == CliStartPlan::Start,
        },
{
    match probe {
        ProbeOutcome::Ready => CliStartPlan::AlreadyReady,
        ProbeOutcome::Incompatible(m) => CliStartPlan::Refuse {
            message: wrap(
                "refusing untrusted or incompatible local endpoint: ",
                m.as_str(),
                "; no alternate daemon was launched",
            ),
        },
        ProbeOutcome::VersionMismatch { .. } => CliStartPlan::StopStaleThenStart,
        ProbeOutcome::Unavailable(_) => CliStartPlan::Start,
    }
}

/// What `daemon stop` of the CLI does after it has published the stop
/// marker and probed the endpoint.
#[derive(Debug, Clone, PartialEq, Eq)]
pub enum CliStopPlan {
    /// Stop the daemon; should the stop fail, clear the marker again.
    StopAndPause,
    /// Nothing serves: report it stopped.
    AlreadyStopped,
    /// Stop the stale daemon; should the stop fail, clear the marker again.
    StopStaleAndPause,
    /// The endpoint is not a compatible Gateway daemon: clear the marker,
    /// send it nothing, and refuse.
    Refuse { message: String },
}

/// Decides `daemon stop` from the probe's outcome.
pub fn cli_stop_plan(probe: &ProbeOutcome) -> (plan: CliStopPlan)
    ensures
        match *probe {
            ProbeOutcome::Ready => plan == CliStopPlan::StopAndPause,
            ProbeOutcome::Unavailable(_) => plan == CliStopPlan::AlreadyStopped,
            ProbeOutcome::VersionMismatch { .. } => plan == CliStopPlan::StopStaleAndPause,
            ProbeOutcome::Incompatible(m) => plan matches CliStopPlan::Refuse { message }
                && message@ == "refusing to send a lifecycle request to an unverified local endpoint: "@
                + m@ + "; no alternate daemon was launched"@,
        },
{
    match probe {
        ProbeOutcome::Ready => CliStopPlan::StopAndPause,
        ProbeOutcome::Unavailable(_) => CliStopPlan::AlreadyStopped,
        ProbeOutcome::VersionMismatch { .. } => CliStopPlan::StopStaleAndPause,
        ProbeOutcome::Incompatible(m) => CliStopPlan::Refuse {
            message: wrap(
                "refusing to send a lifecycle request to an unverified local endpoint: ",
                m.as_str(),
                "; no alternate daemon was launched",
            ),
        },
    }
}

/// What `daemon status` of the CLI reports.
#[derive(Debug, Clone, Copy, PartialEq, Eq, Structural)]
pub enum CliDaemonStatus {
    Ready,
    Stopped,
    StoppedByUser,
}

/// Decides the `daemon status` report: ready, stopped (by the user where
/// the stop marker is present), or an error for a stale or incompatible
/// endpoint.
pub fn cli_status_report(probe: &ProbeOutcome, marker_present: bool) -> (r: Result<CliDaemonStatus, String>)
    ensures
        match *probe {
            ProbeOutcome::Ready => r == Ok::<CliDaemonStatus, String>(CliDaemonStatus::Ready),
            ProbeOutcome::Unavailable(_) => r == Ok::<CliDaemonStatus, String>(
                if marker_present {
                    CliDaemonStatus::StoppedByUser
                } else {
                    CliDaemonStatus::Stopped
                },
            ),
            ProbeOutcome::VersionMismatch { expected, actual } => r is Err && r->Err_0@
                == "stale Gateway daemon is running (expected "@ + expected@ + ", found "@ + actual@
                + ")"@,
            ProbeOutcome::Incompatible(m) => r is Err && r->Err_0@
                == "local endpoint is not a compatible Gateway daemon: "@ + m@,
        },
{
    match probe {
        ProbeOutcome::Ready => Ok(CliDaemonStatus::Ready),
        ProbeOutcome::Unavailable(_) => Ok(
            if marker_present {
                CliDaemonStatus::StoppedByUser
            } else {
                CliDaemonStatus::Stopped
            },
        ),
        ProbeOutcome::VersionMismatch { expected, actual } => Err(
            String::from_str("stale Gateway daemon is running (expected ").concat(
                expected.as_str(),
            ).concat(", found ").concat(actual.as_str()).concat(")"),
        ),
        ProbeOutcome::Incompatible(m) => Err(
            String::from_str("local endpoint is not a compatible Gateway daemon: ").concat(
                m.as_str(),
            ),
        ),
    }
}

/// The message a run ends with when it leaves a user-stopped daemon stopped.
pub open spec fn user_stop_kept_text() -> Seq<char> {
    "Gateway daemon was stopped explicitly from the CLI; the desktop supervisor did not restart it."@
}

/// A step that ends the run as a failure reported as `Stopped` with the
/// text that the daemon was not restarted, asking for nothing else.
pub open spec fn keeps_user_stop(step: EnsureStep) -> bool {
    &&& step.phase == EnsurePhase::Finished
    &&& !(step.action is Spawn)
    &&& step.action matches EnsureAction::Finish { ok, message } && !ok && message is Some
        && message->0@ == user_stop_kept_text()
    &&& step.updates@.len() == 1
    &&& step.updates@[0].state == DaemonLifecycleState::Stopped
    &&& step.updates@[0].message is Some
    &&& step.updates@[0].message->0@ == user_stop_kept_text()
}

/// Once a daemon that came up over the user's stop marker has been stopped,
/// the run is over: it ends as a failure reported as `Stopped` with the
/// message that the supervisor did not restart it, and nothing is spawned.
/// A stale daemon stopped for an upgrade, by contrast, is replaced by a
/// first launch attempt.
pub proof fn lemma_user_stopped_daemon_is_not_restarted(
    step: EnsureStep,
    stale_step: EnsureStep,
    after_marker: EnsurePhase,
    stale: EnsurePhase,
)
    requires
        after_marker == (EnsurePhase::AwaitStopped { context: StopContext::AfterStopMarker }),
        stale == (EnsurePhase::AwaitStopped { context: StopContext::Stale }),
    ensures
        ensure_step_ok(after_marker, EnsureEvent::Stopped, step) ==> keeps_user_stop(step),
        ensure_step_ok(stale, EnsureEvent::Stopped, stale_step) ==> (stale_step.action
            == EnsureAction::Spawn { delay_ms: 0 }),
{
    reveal_strlit(
        "Gateway daemon was stopped explicitly from the CLI; the desktop supervisor did not restart it.",
    );
    if ensure_step_ok(after_marker, EnsureEvent::Stopped, step) {
        assert(updates_view(step.updates@).len() == 1);
        assert(update_view(step.updates@[0]) == updates_view(step.updates@)[0]);
    }
}

/// The desktop supervisor never starts a daemon over the user's explicit
/// stop: a run that is not the launcher's first and finds the stop marker
/// ends stopped, and a probe that finds nothing while the marker is present
/// ends stopped instead of launching.
pub proof fn lemma_explicit_stop_is_respected(
    step: EnsureStep,
    outcome: ProbeOutcome,
)
    ensures
        ensure_step_ok(
            EnsurePhase::AwaitMarkerChecked,
            EnsureEvent::MarkerChecked { present: true },
            step,
        ) ==> step.phase == EnsurePhase::Finished && !(step.action matches EnsureAction::Spawn { .. })
            && updates_view(step.updates@) == seq![
            (DaemonLifecycleState::Stopped, Some(stopped_by_cli_message())),
        ],
        outcome is Unavailable && ensure_step_ok(
            EnsurePhase::AwaitProbe,
            EnsureEvent::Probed { outcome, marker_present: true },
            step,
        ) ==> step.phase == EnsurePhase::Finished && !(step.action matches EnsureAction::Spawn { .. }),
{
}

/// An incompatible endpoint is refused wherever it is met: the run ends as
/// failed and nothing is launched in its place.
pub proof fn lemma_incompatible_endpoint_is_never_replaced(
    step: EnsureStep,
    m: String,
    marker_present: bool,
    attempt: u64,
    last_error: String,
)
    ensures
        ensure_step_ok(
            EnsurePhase::AwaitProbe,
            EnsureEvent::Probed { outcome: ProbeOutcome::Incompatible(m), marker_present },
            step,
        ) ==> step.phase == EnsurePhase::Finished && !(step.action matches EnsureAction::Spawn { .. })
            && action_view(step.action).2 == false,
        ensure_step_ok(
            EnsurePhase::AwaitReadiness { attempt, last_error },
            EnsureEvent::Readiness { outcome: ProbeOutcome::Incompatible(m), marker_present },
            step,
        ) ==> step.phase == EnsurePhase::Finished && !(step.action matches EnsureAction::Spawn { .. })
            && action_view(step.action).2 == false,
{
}

/// A run launches at most three times: every spawn it asks for is one of
/// the first three attempts, and after the third the run fails.
pub proof fn lemma_launch_attempts_are_bounded(
    phase: EnsurePhase,
    event: EnsureEvent,
    step: EnsureStep,
)
    requires
        phase matches EnsurePhase::AwaitSpawn { attempt, .. } ==> attempt < START_ATTEMPTS,
        phase matches EnsurePhase::AwaitReadiness { attempt, .. } ==> attempt < START_ATTEMPTS,
        ensure_step_ok(phase, event, step),
    ensures
        step.phase matches EnsurePhase::AwaitSpawn { attempt, .. } ==> attempt < START_ATTEMPTS,
        step.action matches EnsureAction::Spawn { delay_ms } ==> delay_ms < 250 * START_ATTEMPTS,
{
}

/// A run ends well only by publishing a `Ready` view.
pub proof fn lemma_success_is_published_as_ready(phase: EnsurePhase, event: EnsureEvent, step: EnsureStep)
    requires
        ensure_step_ok(phase, event, step),
        action_view(step.action).0 == 7 && action_view(step.action).2,
    ensures
        updates_view(step.updates@) == seq![(DaemonLifecycleState::Ready, None::<Seq<char>>)],
{
}

} // verus!
