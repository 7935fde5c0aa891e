//! The sequential orchestration core, as an explicit state machine.
//!
//! The machine holds the pipeline's state; a driver performs each
//! returned [`Action`] (read the configuration file, change directory,
//! dispatch a shell command, ...) and feeds the resulting [`Event`] back
//! through [`Pipeline::step`]. Each transition also yields the log lines
//! the step produced, in order, for the driver to append to the durable
//! sink. The whole transition relation is the specification function
//! [`spec_step`]; the executable machine refines it exactly.

use vstd::prelude::*;
use crate::commands::{Platform, CommandSpec, CommandModel, spec_build, build};
use crate::config::{Config, ConfigError, spec_parse_config, parse_config};

verus! {

/// One of the three ordered shell invocations of a run.
#[derive(Clone, Copy, PartialEq, Eq, Structural, Debug)]
pub enum StepKind {
    Create,
    Update,
    Run,
}

/// How a dispatched shell command ended: the interpreter could not be
/// spawned at all (fatal), or it ran and exited. `success` is whether the
/// exit status was zero; `status` is its printable form for the log.
pub enum StepOutcome {
    DispatchFailed(String),
    Completed { success: bool, status: String },
}

/// The mathematical contents of a [`StepOutcome`].
#[verifier::ext_equal]
pub enum StepOutcomeModel {
    DispatchFailed(Seq<char>),
    Completed { success: bool, status: Seq<char> },
}

impl View for StepOutcome {
    type V = StepOutcomeModel;

    open spec fn view(&self) -> StepOutcomeModel {
        match self {
            StepOutcome::DispatchFailed(t) => StepOutcomeModel::DispatchFailed(t@),
            StepOutcome::Completed { success, status } => StepOutcomeModel::Completed {
                success: *success,
                status: status@,
            },
        }
    }
}

/// What the driver observed while performing the previous action.
pub enum Event {
    /// The driver is ready; nothing has happened yet.
    Begin,
    /// The configuration file does not exist.
    ConfigMissing,
    /// The configuration file exists but could not be read; the payload
    /// describes the I/O error.
    ConfigReadFailed(String),
    /// The configuration file was read; the payload is its text.
    ConfigContent(String),
    /// The working directory was changed as requested.
    DirChanged,
    /// The working directory could not be changed; the payload describes
    /// the I/O error.
    DirChangeFailed(String),
    /// The dispatched shell command finished.
    StepFinished(StepOutcome),
}

/// The mathematical contents of an [`Event`].
#[verifier::ext_equal]
pub enum EventModel {
    Begin,
    ConfigMissing,
    ConfigReadFailed(Seq<char>),
    ConfigContent(Seq<char>),
    DirChanged,
    DirChangeFailed(Seq<char>),
    StepFinished(StepOutcomeModel),
}

impl View for Event {
    type V = EventModel;

    open spec fn view(&self) -> EventModel {
        match self {
            Event::Begin => EventModel::Begin,
            Event::ConfigMissing => EventModel::ConfigMissing,
            Event::ConfigReadFailed(t) => EventModel::ConfigReadFailed(t@),
            Event::ConfigContent(t) => EventModel::ConfigContent(t@),
            Event::DirChanged => EventModel::DirChanged,
            Event::DirChangeFailed(t) => EventModel::DirChangeFailed(t@),
            Event::StepFinished(o) => EventModel::StepFinished(o@),
        }
    }
}

/// What the driver must do next.
pub enum Action {
    /// Check for the configuration file and read it.
    ReadConfig,
    /// Write the single interactive prompt, block on one line of standard
    /// input, and end the process with exit status 1.
    PromptAndExit,
    /// Abort the process with a failure, as an unrecoverable configuration
    /// error does.
    Abort,
    /// Change the process working directory to the payload.
    ChangeDir(String),
    /// Dispatch the payload to the platform's command interpreter and wait
    /// for it to finish.
    RunShell(String),
    /// The run is over; perform nothing further.
    Stop,
}

/// The mathematical contents of an [`Action`].
#[verifier::ext_equal]
pub enum ActionModel {
    ReadConfig,
    PromptAndExit,
    Abort,
    ChangeDir(Seq<char>),
    RunShell(Seq<char>),
    Stop,
}

impl View for Action {
    type V = ActionModel;

    open spec fn view(&self) -> ActionModel {
        match self {
            Action::ReadConfig => ActionModel::ReadConfig,
            Action::PromptAndExit => ActionModel::PromptAndExit,
            Action::Abort => ActionModel::Abort,
            Action::ChangeDir(t) => ActionModel::ChangeDir(t@),
            Action::RunShell(t) => ActionModel::RunShell(t@),
            Action::Stop => ActionModel::Stop,
        }
    }
}

/// One line for the durable log: its text and whether it reports an error
/// (the only two severities the sink distinguishes).
pub struct LogLine {
    pub error: bool,
    pub text: String,
}

/// The mathematical contents of a [`LogLine`].
#[verifier::ext_equal]
pub struct LogLineModel {
    pub error: bool,
    pub text: Seq<char>,
}

impl View for LogLine {
    type V = LogLineModel;

    open spec fn view(&self) -> LogLineModel {
        LogLineModel { error: self.error, text: self.text@ }
    }
}

/// Where the pipeline stands: which action is outstanding. `Finished` is
/// terminal; no later event changes the state or logs anything.
#[derive(Clone, Copy, PartialEq, Eq, Structural, Debug)]
pub enum Phase {
    Start,
    AwaitingConfig,
    AwaitingDirChange,
    AwaitingCreate,
    AwaitingUpdate,
    AwaitingRun,
    Finished,
}

/// The mathematical state of the pipeline.
#[verifier::ext_equal]
pub struct PipelineModel {
    pub phase: Phase,
    pub platform: Platform,
    pub config: Option<crate::config::ConfigModel>,
    pub commands: Option<CommandModel>,
}

/// The result of one specification-level transition: the next state, the
/// log lines the step emits in order, and the action the driver must
/// perform next.
#[verifier::ext_equal]
pub struct Transition {
    pub state: PipelineModel,
    pub lines: Seq<LogLineModel>,
    pub action: ActionModel,
}

/// An informational log line.
pub open spec fn info_line(t: Seq<char>) -> LogLineModel {
    LogLineModel { error: false, text: t }
}

/// An error log line.
pub open spec fn error_line(t: Seq<char>) -> LogLineModel {
    LogLineModel { error: true, text: t }
}

/// The line announcing that a step's command is about to be dispatched.
pub open spec fn announce_text(k: StepKind, command: Seq<char>) -> Seq<char> {
    match k {
        StepKind::Create => "Running command to create conda environment: "@ + command,
        StepKind::Update => "Running command to update conda environment: "@ + command,
        StepKind::Run => "Running command to start Streamlit app: "@ + command,
    }
}

/// The single log line reporting how a step ended: an informational line
/// when the command exited zero, and an error line carrying the exit
/// status when it exited non-zero, for every step alike.
pub open spec fn outcome_line(k: StepKind, o: StepOutcomeModel) -> LogLineModel {
    match o {
        StepOutcomeModel::Completed { success, status } => match k {
            StepKind::Create => if success {
                info_line("Conda environment created successfully."@)
            } else {
                error_line("Conda environment creation failed with exit code: "@ + status)
            },
            StepKind::Update => if success {
                info_line("Conda environment updated successfully."@)
            } else {
                error_line("Conda environment update failed with exit code: "@ + status)
            },
            StepKind::Run => if success {
                info_line("Streamlit app started successfully."@)
            } else {
                error_line("Streamlit app failed with exit code: "@ + status)
            },
        },
        StepOutcomeModel::DispatchFailed(msg) => match k {
            StepKind::Create => error_line("Failed to create conda environment: "@ + msg),
            StepKind::Update => error_line("Failed to update conda environment: "@ + msg),
            StepKind::Run => error_line("Failed to execute process: "@ + msg),
        },
    }
}

/// The state of a pipeline that has not started yet.
pub open spec fn spec_init(platform: Platform) -> PipelineModel {
    PipelineModel { phase: Phase::Start, platform, config: None, commands: None }
}

/// The transition for an event that the current phase does not expect:
/// the state is unchanged, nothing is logged, and the driver is told to
/// stop.
pub open spec fn stalled(s: PipelineModel) -> Transition {
    Transition { state: s, lines: seq![], action: ActionModel::Stop }
}

/// The pipeline's whole transition relation, one forward path with two
/// exit side-doors:
/// - a missing configuration file ends in the interactive prompt-and-exit;
/// - an unreadable or unparsable configuration aborts the run;
/// - a failed directory change stops the run early;
/// - a create or update command that exited non-zero is logged and the
///   next command is dispatched regardless (the non-fatal policy);
/// - a command whose interpreter could not be spawned is fatal.
pub open spec fn spec_step(s: PipelineModel, ev: EventModel) -> Transition {
    match (s.phase, ev) {
        (Phase::Start, EventModel::Begin) => Transition {
            state: PipelineModel { phase: Phase::AwaitingConfig, ..s },
            lines: seq![info_line("Script started."@)],
            action: ActionModel::ReadConfig,
        },
        (Phase::AwaitingConfig, EventModel::ConfigMissing) => Transition {
            state: PipelineModel { phase: Phase::Finished, ..s },
            lines: seq![
                error_line(
                    "Config file not found in the same directory as the executable. Please ensure 'config.toml' is present."@,
                ),
            ],
            action: ActionModel::PromptAndExit,
        },
        (Phase::AwaitingConfig, EventModel::ConfigReadFailed(t)) => Transition {
            state: PipelineModel { phase: Phase::Finished, ..s },
            lines: seq![error_line("Failed to read configuration file: "@ + t)],
            action: ActionModel::Abort,
        },
        (Phase::AwaitingConfig, EventModel::ConfigContent(c)) => match spec_parse_config(c) {
            Ok(cm) => Transition {
                state: PipelineModel {
                    phase: Phase::AwaitingDirChange,
                    config: Some(cm),
                    ..s
                },
                lines: seq![
                    info_line("Configuration file read successfully."@),
                    info_line("Configuration file parsed successfully."@),
                ],
                action: ActionModel::ChangeDir(cm.directory),
            },
            Err(msg) => Transition {
                state: PipelineModel { phase: Phase::Finished, ..s },
                lines: seq![
                    info_line("Configuration file read successfully."@),
                    error_line("Failed to parse configuration file: "@ + msg),
                ],
                action: ActionModel::Abort,
            },
        },
        (Phase::AwaitingDirChange, EventModel::DirChanged) => match s.config {
            Some(cm) => Transition {
                state: PipelineModel {
                    phase: Phase::AwaitingCreate,
                    commands: Some(spec_build(cm, s.platform)),
                    ..s
                },
                lines: seq![
                    info_line("Changed directory to: "@ + cm.directory),
                    info_line(announce_text(StepKind::Create, spec_build(cm, s.platform).create)),
                ],
                action: ActionModel::RunShell(spec_build(cm, s.platform).create),
            },
            None => stalled(s),
        },
        (Phase::AwaitingDirChange, EventModel::DirChangeFailed(t)) => Transition {
            state: PipelineModel { phase: Phase::Finished, ..s },
            lines: seq![error_line("Failed to change directory: "@ + t)],
            action: ActionModel::Stop,
        },
        (Phase::AwaitingCreate, EventModel::StepFinished(o)) => match o {
            StepOutcomeModel::Completed { .. } => match s.commands {
                Some(cmds) => Transition {
                    state: PipelineModel { phase: Phase::AwaitingUpdate, ..s },
                    lines: seq![
                        outcome_line(StepKind::Create, o),
                        info_line(announce_text(StepKind::Update, cmds.update)),
                    ],
                    action: ActionModel::RunShell(cmds.update),
                },
                None => stalled(s),
            },
            StepOutcomeModel::DispatchFailed(_) => Transition {
                state: PipelineModel { phase: Phase::Finished, ..s },
                lines: seq![outcome_line(StepKind::Create, o)],
                action: ActionModel::Stop,
            },
        },
        (Phase::AwaitingUpdate, EventModel::StepFinished(o)) => match o {
            StepOutcomeModel::Completed { .. } => match s.commands {
                Some(cmds) => Transition {
                    state: PipelineModel { phase: Phase::AwaitingRun, ..s },
                    lines: seq![
                        outcome_line(StepKind::Update, o),
                        info_line(announce_text(StepKind::Run, cmds.run)),
                    ],
                    action: ActionModel::RunShell(cmds.run),
                },
                None => stalled(s),
            },
            StepOutcomeModel::DispatchFailed(_) => Transition {
                state: PipelineModel { phase: Phase::Finished, ..s },
                lines: seq![outcome_line(StepKind::Update, o)],
                action: ActionModel::Stop,
            },
        },
        (Phase::AwaitingRun, EventModel::StepFinished(o)) => match o {
            StepOutcomeModel::Completed { .. } => Transition {
                state: PipelineModel { phase: Phase::Finished, ..s },
                lines: seq![outcome_line(StepKind::Run, o), info_line("Script completed."@)],
                action: ActionModel::Stop,
            },
            StepOutcomeModel::DispatchFailed(_) => Transition {
                state: PipelineModel { phase: Phase::Finished, ..s },
                lines: seq![outcome_line(StepKind::Run, o)],
                action: ActionModel::Stop,
            },
        },
        _ => stalled(s),
    }
}

/// The state a run of the machine reaches from state `s` after the
/// events `evs`, in order.
pub open spec fn trace_state(s: PipelineModel, evs: Seq<EventModel>) -> PipelineModel
    decreases evs.len(),
{
    if evs.len() == 0 {
        s
    } else {
        trace_state(spec_step(s, evs[0]).state, evs.drop_first())
    }
}

/// The actions a run of the machine takes from state `s` on the events
/// `evs`, in order.
pub open spec fn trace_actions(s: PipelineModel, evs: Seq<EventModel>) -> Seq<ActionModel>
    decreases evs.len(),
{
    if evs.len() == 0 {
        seq![]
    } else {
        seq![spec_step(s, evs[0]).action] + trace_actions(spec_step(s, evs[0]).state, evs.drop_first())
    }
}

/// The log lines a run of the machine emits from state `s` on the events
/// `evs`, in order.
pub open spec fn trace_lines(s: PipelineModel, evs: Seq<EventModel>) -> Seq<LogLineModel>
    decreases evs.len(),
{
    if evs.len() == 0 {
        seq![]
    } else {
        spec_step(s, evs[0]).lines + trace_lines(spec_step(s, evs[0]).state, evs.drop_first())
    }
}

/// A finished pipeline is inert: no later event changes its state, logs a
/// line, or asks the driver for anything but `Stop`.
pub proof fn lemma_finished_is_terminal(s: PipelineModel, evs: Seq<EventModel>)
    requires
        s.phase is Finished,
    ensures
        trace_state(s, evs) == s,
        trace_actions(s, evs) =~= Seq::new(evs.len(), |i: int| ActionModel::Stop),
        trace_lines(s, evs) =~= Seq::<LogLineModel>::empty(),
    decreases evs.len(),
{
    if evs.len() > 0 {
        assert(spec_step(s, evs[0]) == stalled(s));
        lemma_finished_is_terminal(s, evs.drop_first());
    }
}

/// The log is append-only: running the machine for one more event appends
/// that step's lines after everything logged before, never reordering or
/// dropping a line.
pub proof fn lemma_log_append_only(s: PipelineModel, evs: Seq<EventModel>, ev: EventModel)
    ensures
        trace_lines(s, evs.push(ev)) =~= trace_lines(s, evs) + spec_step(
            trace_state(s, evs),
            ev,
        ).lines,
    decreases evs.len(),
{
    if evs.len() == 0 {
        assert(evs.push(ev)[0] == ev);
        assert(evs.push(ev).drop_first() =~= Seq::<EventModel>::empty());
        assert(trace_lines(s, evs.push(ev)) == spec_step(s, evs.push(ev)[0]).lines + trace_lines(
            spec_step(s, evs.push(ev)[0]).state,
            evs.push(ev).drop_first(),
        ));
        assert(trace_lines(spec_step(s, ev).state, Seq::<EventModel>::empty()) =~= Seq::<
            LogLineModel,
        >::empty());
        assert(trace_lines(s, evs.push(ev)) =~= spec_step(s, ev).lines);
        assert(trace_lines(s, evs) + spec_step(trace_state(s, evs), ev).lines =~= spec_step(
            s,
            ev,
        ).lines);
    } else {
        assert(evs.push(ev)[0] == evs[0]);
        assert(evs.push(ev).drop_first() =~= evs.drop_first().push(ev));
        lemma_log_append_only(spec_step(s, evs[0]).state, evs.drop_first(), ev);
        assert(trace_lines(s, evs.push(ev)) =~= spec_step(s, evs[0]).lines + trace_lines(
            spec_step(s, evs[0]).state,
            evs.drop_first().push(ev),
        ));
        assert(spec_step(s, evs[0]).lines + (trace_lines(
            spec_step(s, evs[0]).state,
            evs.drop_first(),
        ) + spec_step(trace_state(s, evs), ev).lines) =~= trace_lines(s, evs) + spec_step(
            trace_state(s, evs),
            ev,
        ).lines);
    }
}

/// Every executed step produces exactly one log line reporting its
/// outcome, and that line comes before anything the next step logs.
pub proof fn lemma_step_outcome_logged(s: PipelineModel, o: StepOutcomeModel)
    requires
        s.phase is AwaitingCreate || s.phase is AwaitingUpdate || s.phase is AwaitingRun,
        s.commands is Some,
    ensures
        spec_step(s, EventModel::StepFinished(o)).lines.len() >= 1,
        spec_step(s, EventModel::StepFinished(o)).lines[0] == outcome_line(
            step_of_phase(s.phase),
            o,
        ),
{
}

/// The step a phase is waiting on; meaningful only in the three awaiting
/// phases.
pub open spec fn step_of_phase(p: Phase) -> StepKind {
    match p {
        Phase::AwaitingCreate => StepKind::Create,
        Phase::AwaitingUpdate => StepKind::Update,
        _ => StepKind::Run,
    }
}

/// A missing configuration file ends the run interactively: the machine
/// logs exactly one line, asks for the single prompt-and-exit, and no
/// shell command is dispatched then or on any later event.
pub proof fn lemma_missing_config_never_dispatches(s: PipelineModel, later: Seq<EventModel>)
    requires
        s.phase is AwaitingConfig,
    ensures
        spec_step(s, EventModel::ConfigMissing).action is PromptAndExit,
        spec_step(s, EventModel::ConfigMissing).lines.len() == 1,
        spec_step(s, EventModel::ConfigMissing).state.phase is Finished,
        forall|i: int|
            0 <= i < later.len() ==> !(trace_actions(
                spec_step(s, EventModel::ConfigMissing).state,
                later,
            )[i] is RunShell),
{
    lemma_finished_is_terminal(spec_step(s, EventModel::ConfigMissing).state, later);
}

/// The non-fatal failure policy for the create step: a create command
/// that ran and exited non-zero does not stop the pipeline — the update
/// command is dispatched next — while a create command whose interpreter
/// could not be spawned is fatal: the pipeline stops and no shell command
/// is dispatched on any later event.
pub proof fn lemma_create_failure_policy(
    s: PipelineModel,
    status: Seq<char>,
    msg: Seq<char>,
    later: Seq<EventModel>,
)
    requires
        s.phase is AwaitingCreate,
        s.commands is Some,
    ensures
        spec_step(
            s,
            EventModel::StepFinished(StepOutcomeModel::Completed { success: false, status }),
        ).action == ActionModel::RunShell(s.commands->Some_0.update),
        spec_step(
            s,
            EventModel::StepFinished(StepOutcomeModel::Completed { success: false, status }),
        ).state.phase is AwaitingUpdate,
        spec_step(
            s,
            EventModel::StepFinished(StepOutcomeModel::DispatchFailed(msg)),
        ).action is Stop,
        spec_step(
            s,
            EventModel::StepFinished(StepOutcomeModel::DispatchFailed(msg)),
        ).state.phase is Finished,
        forall|i: int|
            0 <= i < later.len() ==> !(trace_actions(
                spec_step(s, EventModel::StepFinished(StepOutcomeModel::DispatchFailed(msg))).state,
                later,
            )[i] is RunShell),
{
    lemma_finished_is_terminal(
        spec_step(s, EventModel::StepFinished(StepOutcomeModel::DispatchFailed(msg))).state,
        later,
    );
}

/// A complete successful run follows the single forward path: for every
/// configuration text that parses, starting the machine and reporting
/// that the directory changed and that each dispatched command completed
/// makes it ask for exactly — read the configuration, change to its
/// directory, dispatch the create, update and run commands in that order
/// — and then stop, finished.
pub proof fn lemma_successful_run(
    platform: Platform,
    content: Seq<char>,
    o1: StepOutcomeModel,
    o2: StepOutcomeModel,
    o3: StepOutcomeModel,
)
    requires
        spec_parse_config(content) is Ok,
        o1 is Completed,
        o2 is Completed,
        o3 is Completed,
    ensures
        ({
            let cm = spec_parse_config(content)->Ok_0;
            let cmds = spec_build(cm, platform);
            let evs = seq![
                EventModel::Begin,
                EventModel::ConfigContent(content),
                EventModel::DirChanged,
                EventModel::StepFinished(o1),
                EventModel::StepFinished(o2),
                EventModel::StepFinished(o3),
            ];
            trace_actions(spec_init(platform), evs) =~= seq![
                ActionModel::ReadConfig,
                ActionModel::ChangeDir(cm.directory),
                ActionModel::RunShell(cmds.create),
                ActionModel::RunShell(cmds.update),
                ActionModel::RunShell(cmds.run),
                ActionModel::Stop,
            ] && trace_state(spec_init(platform), evs).phase is Finished
        }),
{
    reveal_with_fuel(trace_actions, 7);
    reveal_with_fuel(trace_state, 7);
    let cm = spec_parse_config(content)->Ok_0;
    let cmds = spec_build(cm, platform);
    let e1 = EventModel::Begin;
    let e2 = EventModel::ConfigContent(content);
    let e3 = EventModel::DirChanged;
    let e4 = EventModel::StepFinished(o1);
    let e5 = EventModel::StepFinished(o2);
    let e6 = EventModel::StepFinished(o3);
    let evs = seq![e1, e2, e3, e4, e5, e6];
    let s0 = spec_init(platform);
    let s1 = spec_step(s0, e1).state;
    let s2 = spec_step(s1, e2).state;
    let s3 = spec_step(s2, e3).state;
    let s4 = spec_step(s3, e4).state;
    let s5 = spec_step(s4, e5).state;
    let s6 = spec_step(s5, e6).state;
    assert(evs.drop_first() =~= seq![e2, e3, e4, e5, e6]);
    assert(seq![e2, e3, e4, e5, e6].drop_first() =~= seq![e3, e4, e5, e6]);
    assert(seq![e3, e4, e5, e6].drop_first() =~= seq![e4, e5, e6]);
    assert(seq![e4, e5, e6].drop_first() =~= seq![e5, e6]);
    assert(seq![e5, e6].drop_first() =~= seq![e6]);
    assert(seq![e6].drop_first() =~= Seq::<EventModel>::empty());
    assert(trace_actions(s0, evs) =~= seq![
        spec_step(s0, e1).action,
        spec_step(s1, e2).action,
        spec_step(s2, e3).action,
        spec_step(s3, e4).action,
        spec_step(s4, e5).action,
        spec_step(s5, e6).action,
    ]);
    assert(trace_state(s0, evs) == s6);
}

/// The launcher's pipeline: configuration loading, directory change, and
/// the three dependent shell invocations, executed in strict order by an
/// outside driver that performs each returned action.
pub struct Pipeline {
    phase: Phase,
    platform: Platform,
    config: Option<Config>,
    commands: Option<CommandSpec>,
}

impl View for Pipeline {
    type V = PipelineModel;

    closed spec fn view(&self) -> PipelineModel {
        PipelineModel {
            phase: self.phase,
            platform: self.platform,
            config: match self.config {
                Some(c) => Some(c@),
                None => None,
            },
            commands: match self.commands {
                Some(cs) => Some(cs@),
                None => None,
            },
        }
    }
}

/// A fixed log line.
fn fixed_line(error: bool, text: &str) -> (r: LogLine)
    ensures
        r@ == (LogLineModel { error, text: text@ }),
{
    LogLine { error, text: text.to_owned() }
}

/// A log line made of a fixed prefix and a payload.
fn concat_line(error: bool, prefix: &str, rest: &str) -> (r: LogLine)
    ensures
        r@ == (LogLineModel { error, text: prefix@ + rest@ }),
{
    let mut t = prefix.to_owned();
    t.append(rest);
    LogLine { error, text: t }
}

/// The line announcing that a step's command is about to be dispatched.
fn make_announce_line(k: StepKind, command: &str) -> (r: LogLine)
    ensures
        r@ == info_line(announce_text(k, command@)),
{
    match k {
        StepKind::Create => concat_line(
            false,
            "Running command to create conda environment: ",
            command,
        ),
        StepKind::Update => concat_line(
            false,
            "Running command to update conda environment: ",
            command,
        ),
        StepKind::Run => concat_line(false, "Running command to start Streamlit app: ", command),
    }
}

/// The single log line reporting how a step ended.
fn make_outcome_line(k: StepKind, o: StepOutcome) -> (r: LogLine)
    ensures
        r@ == outcome_line(k, o@),
{
    match o {
        StepOutcome::Completed { success, status } => {
            if success {
                match k {
                    StepKind::Create => fixed_line(false, "Conda environment created successfully."),
                    StepKind::Update => fixed_line(false, "Conda environment updated successfully."),
                    StepKind::Run => fixed_line(false, "Streamlit app started successfully."),
                }
            } else {
                match k {
                    StepKind::Create => concat_line(
                        true,
                        "Conda environment creation failed with exit code: ",
                        status.as_str(),
                    ),
                    StepKind::Update => concat_line(
                        true,
                        "Conda environment update failed with exit code: ",
                        status.as_str(),
                    ),
                    StepKind::Run => concat_line(
                        true,
                        "Streamlit app failed with exit code: ",
                        status.as_str(),
                    ),
                }
            }
        },
        StepOutcome::DispatchFailed(msg) => match k {
            StepKind::Create => concat_line(
                true,
                "Failed to create conda environment: ",
                msg.as_str(),
            ),
            StepKind::Update => concat_line(
                true,
                "Failed to update conda environment: ",
                msg.as_str(),
            ),
            StepKind::Run => concat_line(true, "Failed to execute process: ", msg.as_str()),
        },
    }
}

/// The log lines of a vector, in order.
pub open spec fn lines_model(v: Seq<LogLine>) -> Seq<LogLineModel> {
    v.map_values(|l: LogLine| l@)
}

impl Pipeline {
    /// A pipeline that has not started yet, for the given host platform.
    pub fn new(platform: Platform) -> (r: Pipeline)
        ensures
            r@ == spec_init(platform),
    {
        Pipeline { phase: Phase::Start, platform, config: None, commands: None }
    }

    /// Feed the machine one event: it moves to the next state and returns
    /// the log lines this step emitted, in order, and the action the
    /// driver must perform next — exactly as [`spec_step`] says.
    pub fn step(&mut self, ev: Event) -> (r: (Vec<LogLine>, Action))
        ensures
            final(self)@ == spec_step(old(self)@, ev@).state,
            lines_model(r.0@) == spec_step(old(self)@, ev@).lines,
            r.1@ == spec_step(old(self)@, ev@).action,
    {
        let ghost t = spec_step(old(self)@, ev@);
        let phase = self.phase;
        match (phase, ev) {
            (Phase::Start, Event::Begin) => {
                let line = fixed_line(false, "Script started.");
                self.phase = Phase::AwaitingConfig;
                let r = (vec![line], Action::ReadConfig);
                proof {
                    assert(self@ =~= t.state);
                    assert(lines_model(r.0@) =~= t.lines);
                }
                r
            },
            (Phase::AwaitingConfig, Event::ConfigMissing) => {
                let line = fixed_line(
                    true,
                    "Config file not found in the same directory as the executable. Please ensure 'config.toml' is present.",
                );
                self.phase = Phase::Finished;
                let r = (vec![line], Action::PromptAndExit);
                proof {
                    assert(self@ =~= t.state);
                    assert(lines_model(r.0@) =~= t.lines);
                }
                r
            },
            (Phase::AwaitingConfig, Event::ConfigReadFailed(t_err)) => {
                let line = concat_line(true, "Failed to read configuration file: ", t_err.as_str());
                self.phase = Phase::Finished;
                let r = (vec![line], Action::Abort);
                proof {
                    assert(self@ =~= t.state);
                    assert(lines_model(r.0@) =~= t.lines);
                }
                r
            },
            (Phase::AwaitingConfig, Event::ConfigContent(content)) => {
                let read_line = fixed_line(false, "Configuration file read successfully.");
                match parse_config(content.as_str()) {
                    Ok(config) => {
                        let parsed_line = fixed_line(
                            false,
                            "Configuration file parsed successfully.",
                        );
                        let dir = config.directory.clone();
                        self.config = Some(config);
                        self.phase = Phase::AwaitingDirChange;
                        let r = (vec![read_line, parsed_line], Action::ChangeDir(dir));
                        proof {
                            assert(self@ =~= t.state);
                            assert(lines_model(r.0@) =~= t.lines);
                        }
                        r
                    },
                    Err(e) => {
                        let msg = match e {
                            ConfigError::Parse(m) => m,
                            ConfigError::Missing => {
                                proof {
                                    assert(false);
                                }
                                String::new()
                            },
                            ConfigError::Read(_) => {
                                proof {
                                    assert(false);
                                }
                                String::new()
                            },
                        };
                        let err_line = concat_line(
                            true,
                            "Failed to parse configuration file: ",
                            msg.as_str(),
                        );
                        self.phase = Phase::Finished;
                        let r = (vec![read_line, err_line], Action::Abort);
                        proof {
                            assert(self@ =~= t.state);
                            assert(lines_model(r.0@) =~= t.lines);
                        }
                        r
                    },
                }
            },
            (Phase::AwaitingDirChange, Event::DirChanged) => {
                match &self.config {
                    Some(config) => {
                        let changed = concat_line(
                            false,
                            "Changed directory to: ",
                            config.directory.as_str(),
                        );
                        let cmds = build(config, self.platform);
                        let announce = make_announce_line(StepKind::Create, cmds.create.as_str());
                        let cmd = cmds.create.clone();
                        self.commands = Some(cmds);
                        self.phase = Phase::AwaitingCreate;
                        let r = (vec![changed, announce], Action::RunShell(cmd));
                        proof {
                            assert(self@ =~= t.state);
                            assert(lines_model(r.0@) =~= t.lines);
                        }
                        r
                    },
                    None => {
                        let r = (Vec::new(), Action::Stop);
                        proof {
                            assert(self@ =~= t.state);
                            assert(lines_model(r.0@) =~= t.lines);
                        }
                        r
                    },
                }
            },
            (Phase::AwaitingDirChange, Event::DirChangeFailed(t_err)) => {
                let line = concat_line(true, "Failed to change directory: ", t_err.as_str());
                self.phase = Phase::Finished;
                let r = (vec![line], Action::Stop);
                proof {
                    assert(self@ =~= t.state);
                    assert(lines_model(r.0@) =~= t.lines);
                }
                r
            },
            (Phase::AwaitingCreate, Event::StepFinished(o)) => {
                self.finish_step(StepKind::Create, o, Ghost(t))
            },
            (Phase::AwaitingUpdate, Event::StepFinished(o)) => {
                self.finish_step(StepKind::Update, o, Ghost(t))
            },
            (Phase::AwaitingRun, Event::StepFinished(o)) => {
                let fatal = matches!(o, StepOutcome::DispatchFailed(_));
                let line = make_outcome_line(StepKind::Run, o);
                self.phase = Phase::Finished;
                let r = if fatal {
                    (vec![line], Action::Stop)
                } else {
                    let done = fixed_line(false, "Script completed.");
                    (vec![line, done], Action::Stop)
                };
                proof {
                    assert(self@ =~= t.state);
                    assert(lines_model(r.0@) =~= t.lines);
                }
                r
            },
            _ => {
                let r = (Vec::new(), Action::Stop);
                proof {
                    assert(self@ =~= t.state);
                    assert(lines_model(r.0@) =~= t.lines);
                }
                r
            },
        }
    }

    /// Handle the end of the create or update step: log its outcome, and
    /// — unless the interpreter could not be spawned — announce and
    /// dispatch the next command.
    fn finish_step(&mut self, k: StepKind, o: StepOutcome, tr: Ghost<Transition>) -> (r: (
        Vec<LogLine>,
        Action,
    ))
        requires
            k == StepKind::Create || k == StepKind::Update,
            old(self).phase == (if k == StepKind::Create {
                Phase::AwaitingCreate
            } else {
                Phase::AwaitingUpdate
            }),
            tr@ == spec_step(old(self)@, EventModel::StepFinished(o@)),
        ensures
            final(self)@ == tr@.state,
            lines_model(r.0@) == tr@.lines,
            r.1@ == tr@.action,
    {
        let fatal = matches!(o, StepOutcome::DispatchFailed(_));
        if fatal {
            let line = make_outcome_line(k, o);
            self.phase = Phase::Finished;
            let r = (vec![line], Action::Stop);
            proof {
                assert(self@ =~= tr@.state);
                assert(lines_model(r.0@) =~= tr@.lines);
            }
            r
        } else {
            match &self.commands {
                Some(cmds) => {
                    let (next_kind, cmd) = if matches!(k, StepKind::Create) {
                        (StepKind::Update, cmds.update.clone())
                    } else {
                        (StepKind::Run, cmds.run.clone())
                    };
                    let line = make_outcome_line(k, o);
                    let announce = make_announce_line(next_kind, cmd.as_str());
                    self.phase = if matches!(k, StepKind::Create) {
                        Phase::AwaitingUpdate
                    } else {
                        Phase::AwaitingRun
                    };
                    let r = (vec![line, announce], Action::RunShell(cmd));
                    proof {
                        assert(self@ =~= tr@.state);
                        assert(lines_model(r.0@) =~= tr@.lines);
                    }
                    r
                },
                None => {
                    let r = (Vec::new(), Action::Stop);
                    proof {
                        assert(self@ =~= tr@.state);
                        assert(lines_model(r.0@) =~= tr@.lines);
                    }
                    r
                },
            }
        }
    }
}

} // verus!
