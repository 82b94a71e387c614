//! Shared engine state and the decision logic of the engine facade.
//!
//! The state record tracks the lifecycle phase, the latest merged
//! evaluation snapshot and the options the engine has advertised. It is
//! mutated by applying one parsed protocol event at a time; an async reader
//! outside the library feeds it one line per call. The facade logic here is
//! pure: command texts, the phase a command sets locally, and the bounded
//! polling that waits for an expected phase.

use crate::parse::{
    decode_uci, parse_uci, OptionType, OptionTypeModel, UciModel, UCI,
};
use crate::text::{dec_digits, dec_int, isize_string, usize_string};
use vstd::prelude::*;
use vstd::string::{StrSliceExecFns, StringExecFns};

verus! {

broadcast use vstd::std_specs::vec::vec_clone_deep_view_proof;

/// Possible engine states: the lifecycle phase of the protocol.
#[derive(Debug, PartialEq, Eq, Structural, Clone, Copy)]
pub enum EngineStateEnum {
    Uninitialized,
    Initialized,
    Ready,
    Thinking,
}

/// Engine evaluation info, as merged over the info lines seen so far.
#[derive(Debug, PartialEq)]
pub struct Evaluation {
    pub score: isize,
    pub mate: isize,
    pub depth: isize,
    pub nodes: isize,
    pub seldepth: isize,
    pub multipv: isize,
    pub pv: Vec<String>,
    pub time: isize,
}

/// Mathematical form of an [`Evaluation`].
pub struct EvaluationModel {
    pub score: int,
    pub mate: int,
    pub depth: int,
    pub nodes: int,
    pub seldepth: int,
    pub multipv: int,
    pub pv: Seq<Seq<char>>,
    pub time: int,
}

impl View for Evaluation {
    type V = EvaluationModel;

    open spec fn view(&self) -> EvaluationModel {
        EvaluationModel {
            score: self.score as int,
            mate: self.mate as int,
            depth: self.depth as int,
            nodes: self.nodes as int,
            seldepth: self.seldepth as int,
            multipv: self.multipv as int,
            pv: self.pv.deep_view(),
            time: self.time as int,
        }
    }
}

/// The evaluation before any info line: every field zero, no moves.
pub open spec fn eval_default() -> EvaluationModel {
    EvaluationModel {
        score: 0,
        mate: 0,
        depth: 0,
        nodes: 0,
        seldepth: 0,
        multipv: 0,
        pv: Seq::empty(),
        time: 0,
    }
}

impl Default for Evaluation {
    /// Create evaluation with empty values.
    fn default() -> (r: Self)
        ensures
            r@ == eval_default(),
    {
        let r = Evaluation {
            score: 0,
            mate: 0,
            depth: 0,
            nodes: 0,
            seldepth: 0,
            multipv: 0,
            pv: Vec::new(),
            time: 0,
        };
        proof {
            assert(r.pv.deep_view() =~= Seq::<Seq<char>>::empty());
        }
        r
    }
}

impl Clone for Evaluation {
    fn clone(&self) -> (r: Self)
        ensures
            r@ == self@,
    {
        let pv = self.pv.clone();
        proof {
            assert(pv.deep_view() =~= self.pv.deep_view());
        }
        Evaluation {
            score: self.score,
            mate: self.mate,
            depth: self.depth,
            nodes: self.nodes,
            seldepth: self.seldepth,
            multipv: self.multipv,
            pv,
            time: self.time,
        }
    }
}

/// An option advertised by the engine.
#[derive(Debug, PartialEq, Clone)]
pub struct EngineOption {
    pub name: String,
    pub opt_type: OptionType,
}

/// Mathematical form of an [`EngineOption`].
pub struct EngineOptionModel {
    pub name: Seq<char>,
    pub opt_type: OptionTypeModel,
}

impl View for EngineOption {
    type V = EngineOptionModel;

    open spec fn view(&self) -> EngineOptionModel {
        EngineOptionModel { name: self.name@, opt_type: self.opt_type@ }
    }
}

pub open spec fn options_view(v: Seq<EngineOption>) -> Seq<EngineOptionModel> {
    v.map_values(|o: EngineOption| o@)
}

/// The shared engine state: written by the background reader one event at a
/// time, read by the facade.
pub struct EngineState {
    pub state: EngineStateEnum,
    pub evaluation: Option<Evaluation>,
    pub options: Vec<EngineOption>,
}

/// Mathematical form of an [`EngineState`].
pub struct EngineStateModel {
    pub state: EngineStateEnum,
    pub evaluation: Option<EvaluationModel>,
    pub options: Seq<EngineOptionModel>,
}

impl View for EngineState {
    type V = EngineStateModel;

    open spec fn view(&self) -> EngineStateModel {
        EngineStateModel {
            state: self.state,
            evaluation: match self.evaluation {
                Some(e) => Some(e@),
                None => None,
            },
            options: options_view(self.options@),
        }
    }
}

/// Merging one info event into a snapshot: a field present in the event
/// overwrites, a field absent from it is retained.
pub open spec fn merge_eval(
    prev: EvaluationModel,
    cp: Option<int>,
    mate: Option<int>,
    depth: Option<int>,
    seldepth: Option<int>,
    nodes: Option<int>,
    time: Option<int>,
    multipv: Option<int>,
    pv: Option<Seq<Seq<char>>>,
) -> EvaluationModel {
    EvaluationModel {
        score: or_default(cp, prev.score),
        mate: or_default(mate, prev.mate),
        depth: or_default(depth, prev.depth),
        seldepth: or_default(seldepth, prev.seldepth),
        nodes: or_default(nodes, prev.nodes),
        time: or_default(time, prev.time),
        multipv: or_default(multipv, prev.multipv),
        pv: or_default(pv, prev.pv),
    }
}

pub open spec fn or_default<A>(o: Option<A>, d: A) -> A {
    match o {
        Some(v) => v,
        None => d,
    }
}

/// What one parsed event does to the shared state: `uciok` and `readyok`
/// move the phase, an info event merges into the evaluation, an option
/// advertisement appends, and anything else changes nothing.
pub open spec fn event_apply(m: EngineStateModel, ev: UciModel) -> EngineStateModel {
    match ev {
        UciModel::UciOk => EngineStateModel { state: EngineStateEnum::Initialized, ..m },
        UciModel::ReadyOk => EngineStateModel { state: EngineStateEnum::Ready, ..m },
        UciModel::Info { cp, mate, depth, seldepth, nodes, time, multipv, pv } => {
            let prev = match m.evaluation {
                Some(e) => e,
                None => eval_default(),
            };
            EngineStateModel {
                evaluation: Some(
                    merge_eval(prev, cp, mate, depth, seldepth, nodes, time, multipv, pv),
                ),
                ..m
            }
        },
        UciModel::Option { name, opt_type } => EngineStateModel {
            options: m.options.push(EngineOptionModel { name, opt_type }),
            ..m
        },
        UciModel::Unrecognized => m,
    }
}

/// What one raw line does to the shared state: a decoded event is applied,
/// a hard parse error is skipped, the reader goes on.
pub open spec fn line_apply(m: EngineStateModel, line: Seq<char>) -> EngineStateModel {
    match decode_uci(line) {
        Ok(ev) => event_apply(m, ev),
        Err(_) => m,
    }
}

impl EngineState {
    /// The state of a freshly spawned engine: uninitialized, nothing seen.
    pub fn new() -> (r: Self)
        ensures
            r@ == (EngineStateModel {
                state: EngineStateEnum::Uninitialized,
                evaluation: None,
                options: Seq::empty(),
            }),
    {
        let r = EngineState {
            state: EngineStateEnum::Uninitialized,
            evaluation: None,
            options: Vec::new(),
        };
        proof {
            assert(options_view(r.options@) =~= Seq::<EngineOptionModel>::empty());
        }
        r
    }

    /// Apply one parsed protocol event.
    pub fn apply_event(&mut self, event: UCI)
        ensures
            final(self)@ == event_apply(old(self)@, event@),
    {
        match event {
            UCI::UciOk => {
                self.state = EngineStateEnum::Initialized;
            },
            UCI::ReadyOk => {
                self.state = EngineStateEnum::Ready;
            },
            UCI::Info { cp, mate, depth, seldepth, nodes, time, multipv, pv } => {
                let prev = match &self.evaluation {
                    Some(e) => e.clone(),
                    None => Evaluation::default(),
                };
                let merged = Evaluation {
                    score: match cp {
                        Some(v) => v,
                        None => prev.score,
                    },
                    mate: match mate {
                        Some(v) => v,
                        None => prev.mate,
                    },
                    depth: match depth {
                        Some(v) => v,
                        None => prev.depth,
                    },
                    seldepth: match seldepth {
                        Some(v) => v,
                        None => prev.seldepth,
                    },
                    nodes: match nodes {
                        Some(v) => v,
                        None => prev.nodes,
                    },
                    multipv: match multipv {
                        Some(v) => v,
                        None => prev.multipv,
                    },
                    pv: match pv {
                        Some(v) => v,
                        None => prev.pv,
                    },
                    time: match time {
                        Some(v) => v,
                        None => prev.time,
                    },
                };
                self.evaluation = Some(merged);
            },
            UCI::Option { name, opt_type } => {
                let ghost before = options_view(self.options@);
                let ghost added = EngineOptionModel { name: name@, opt_type: opt_type@ };
                self.options.push(EngineOption { name, opt_type });
                proof {
                    assert(options_view(self.options@) =~= before.push(added));
                }
            },
            UCI::Unrecognized => {},
        }
    }

    /// Decode one line of engine output and apply what it means. A line the
    /// parser rejects is skipped: the engine may emit vendor-specific lines
    /// at any time and the reader must go on.
    pub fn process_line(&mut self, line: String)
        ensures
            final(self)@ == line_apply(old(self)@, line@),
    {
        match parse_uci(line) {
            Ok(event) => self.apply_event(event),
            Err(_) => {},
        }
    }
}

/// Merge law: an info event that carries only `depth` and `nodes` applied
/// to a prior snapshot changes exactly those two fields and retains
/// `score`, `mate`, `seldepth`, `time`, `multipv` and the principal
/// variation.
pub proof fn lemma_merge_law(prev: EvaluationModel, depth: int, nodes: int)
    ensures
        merge_eval(prev, None, None, Some(depth), None, Some(nodes), None, None, None)
            == (EvaluationModel { depth: depth, nodes: nodes, ..prev }),
{
}

/// The merge law at the state level: applying such an event to a state
/// with a prior snapshot replaces only those two fields of it.
pub proof fn lemma_merge_law_event(m: EngineStateModel, prev: EvaluationModel, depth: int, nodes: int)
    requires
        m.evaluation == Some(prev),
    ensures
        event_apply(
            m,
            UciModel::Info {
                cp: None,
                mate: None,
                depth: Some(depth),
                seldepth: None,
                nodes: Some(nodes),
                time: None,
                multipv: None,
                pv: None,
            },
        ) == (EngineStateModel {
            evaluation: Some(EvaluationModel { depth: depth, nodes: nodes, ..prev }),
            ..m
        }),
{
    lemma_merge_law(prev, depth, nodes);
}

/// Errors of the engine facade.
#[derive(Debug, PartialEq, Eq, Structural, Clone, Copy)]
pub enum EngineError {
    /// The executable is missing or the process could not be started.
    SpawnError,
    /// A command could not be written: the pipe is closed.
    WriteError,
    /// An expected phase was not observed within the retry budget.
    ProtocolTimeout,
}

impl EngineError {
    /// A short description of the error.
    pub fn message(&self) -> (r: &'static str)
        ensures
            *self == EngineError::SpawnError ==> r@ == "could not spawn the engine process"@,
            *self == EngineError::WriteError ==> r@ == "could not write to the engine"@,
            *self == EngineError::ProtocolTimeout ==> r@
                == "the engine did not reach the expected state"@,
    {
        match self {
            EngineError::SpawnError => "could not spawn the engine process",
            EngineError::WriteError => "could not write to the engine",
            EngineError::ProtocolTimeout => "the engine did not reach the expected state",
        }
    }
}

/// A command the facade can send to the engine.
#[derive(Debug, PartialEq, Clone)]
pub enum EngineCommand {
    Uci,
    IsReady,
    UciNewGame,
    PositionFen { fen: String },
    GoInfinite,
    GoDepth { plies: usize },
    GoTime { ms: usize },
    GoMate { mate_in: usize },
    Stop,
    SetOption { name: String, value: String },
}

/// Mathematical form of an [`EngineCommand`].
pub enum EngineCommandModel {
    Uci,
    IsReady,
    UciNewGame,
    PositionFen { fen: Seq<char> },
    GoInfinite,
    GoDepth { plies: nat },
    GoTime { ms: nat },
    GoMate { mate_in: nat },
    Stop,
    SetOption { name: Seq<char>, value: Seq<char> },
}

impl View for EngineCommand {
    type V = EngineCommandModel;

    open spec fn view(&self) -> EngineCommandModel {
        match self {
            EngineCommand::Uci => EngineCommandModel::Uci,
            EngineCommand::IsReady => EngineCommandModel::IsReady,
            EngineCommand::UciNewGame => EngineCommandModel::UciNewGame,
            EngineCommand::PositionFen { fen } => EngineCommandModel::PositionFen { fen: fen@ },
            EngineCommand::GoInfinite => EngineCommandModel::GoInfinite,
            EngineCommand::GoDepth { plies } => EngineCommandModel::GoDepth {
                plies: *plies as nat,
            },
            EngineCommand::GoTime { ms } => EngineCommandModel::GoTime { ms: *ms as nat },
            EngineCommand::GoMate { mate_in } => EngineCommandModel::GoMate {
                mate_in: *mate_in as nat,
            },
            EngineCommand::Stop => EngineCommandModel::Stop,
            EngineCommand::SetOption { name, value } => EngineCommandModel::SetOption {
                name: name@,
                value: value@,
            },
        }
    }
}

/// The exact wire text of each command, newline included.
pub open spec fn command_text_model(c: EngineCommandModel) -> Seq<char> {
    match c {
        EngineCommandModel::Uci => "uci\n"@,
        EngineCommandModel::IsReady => "isready\n"@,
        EngineCommandModel::UciNewGame => "ucinewgame\n"@,
        EngineCommandModel::PositionFen { fen } => "position fen "@ + fen + "\n"@,
        EngineCommandModel::GoInfinite => "go infinite\n"@,
        EngineCommandModel::GoDepth { plies } => "go depth "@ + dec_digits(plies) + "\n"@,
        EngineCommandModel::GoTime { ms } => "go movetime "@ + dec_digits(ms) + "\n"@,
        EngineCommandModel::GoMate { mate_in } => "go mate "@ + dec_digits(mate_in) + "\n"@,
        EngineCommandModel::Stop => "stop\n"@,
        EngineCommandModel::SetOption { name, value } => "setoption name "@ + name + " value "@
            + value + "\n"@,
    }
}

/// Render the line written to the engine for `c`.
pub fn command_text(c: &EngineCommand) -> (r: String)
    ensures
        r@ == command_text_model(c@),
{
    match c {
        EngineCommand::Uci => String::from_str("uci\n"),
        EngineCommand::IsReady => String::from_str("isready\n"),
        EngineCommand::UciNewGame => String::from_str("ucinewgame\n"),
        EngineCommand::PositionFen { fen } => {
            let mut out = String::from_str("position fen ");
            out.append(fen.as_str());
            out.append("\n");
            out
        },
        EngineCommand::GoInfinite => String::from_str("go infinite\n"),
        EngineCommand::GoDepth { plies } => {
            let mut out = String::from_str("go depth ");
            let num = usize_string(*plies);
            out.append(num.as_str());
            out.append("\n");
            out
        },
        EngineCommand::GoTime { ms } => {
            let mut out = String::from_str("go movetime ");
            let num = usize_string(*ms);
            out.append(num.as_str());
            out.append("\n");
            out
        },
        EngineCommand::GoMate { mate_in } => {
            let mut out = String::from_str("go mate ");
            let num = usize_string(*mate_in);
            out.append(num.as_str());
            out.append("\n");
            out
        },
        EngineCommand::Stop => String::from_str("stop\n"),
        EngineCommand::SetOption { name, value } => {
            let mut out = String::from_str("setoption name ");
            out.append(name.as_str());
            out.append(" value ");
            out.append(value.as_str());
            out.append("\n");
            out
        },
    }
}

/// Whether `c` starts a search.
pub open spec fn is_go(c: EngineCommandModel) -> bool {
    ||| c matches EngineCommandModel::GoInfinite
    ||| c matches EngineCommandModel::GoDepth { .. }
    ||| c matches EngineCommandModel::GoTime { .. }
    ||| c matches EngineCommandModel::GoMate { .. }
}

/// The phase the facade records locally right after sending `c`: starting
/// a search moves to Thinking optimistically (the protocol has no
/// acknowledgment for it), `stop` and `ucinewgame` move back to
/// Initialized, any other command leaves the phase alone.
pub open spec fn command_phase(p: EngineStateEnum, c: EngineCommandModel) -> EngineStateEnum {
    if is_go(c) {
        EngineStateEnum::Thinking
    } else if (c matches EngineCommandModel::Stop) || (c matches EngineCommandModel::UciNewGame) {
        EngineStateEnum::Initialized
    } else {
        p
    }
}

impl EngineState {
    /// Record the phase that sending `c` implies, leaving the rest of the
    /// state alone.
    pub fn apply_command(&mut self, c: &EngineCommand)
        ensures
            final(self)@ == (EngineStateModel {
                state: command_phase(old(self)@.state, c@),
                ..old(self)@
            }),
    {
        match c {
            EngineCommand::GoInfinite
            | EngineCommand::GoDepth { .. }
            | EngineCommand::GoTime { .. }
            | EngineCommand::GoMate { .. } => {
                self.state = EngineStateEnum::Thinking;
            },
            EngineCommand::Stop | EngineCommand::UciNewGame => {
                self.state = EngineStateEnum::Initialized;
            },
            _ => {},
        }
    }
}

/// How many times a state wait polls before giving up.
pub const RETRY_LIMIT: u32 = 10;

/// How long the caller sleeps between two polls, in milliseconds.
pub const RETRY_SLEEP_MS: u64 = 100;

/// One bounded wait for an expected phase. The caller polls the shared
/// state, feeds each observation here, and sleeps between polls; the wait
/// never blocks and never runs past its retry budget.
#[derive(Debug, PartialEq, Eq, Structural, Clone, Copy)]
pub struct StateWait {
    pub expected: EngineStateEnum,
    pub remaining: u32,
}

/// What one poll decided.
#[derive(Debug, PartialEq, Eq, Structural, Clone, Copy)]
pub enum WaitStep {
    /// The observed phase is the expected one; the wait is over.
    Satisfied,
    /// Not there yet: sleep [`RETRY_SLEEP_MS`] and poll again.
    Retry,
    /// The retry budget is exhausted; the wait failed.
    TimedOut,
}

impl StateWait {
    /// A fresh wait for `expected`, with the full retry budget.
    pub fn new(expected: EngineStateEnum) -> (r: Self)
        ensures
            r == (StateWait { expected: expected, remaining: RETRY_LIMIT }),
    {
        StateWait { expected, remaining: RETRY_LIMIT }
    }

    /// Account one poll that observed `observed`.
    pub fn poll(&mut self, observed: EngineStateEnum) -> (w: WaitStep)
        ensures
            final(self).expected == old(self).expected,
            observed == old(self).expected ==> w == WaitStep::Satisfied && *final(self)
                == *old(self),
            observed != old(self).expected && old(self).remaining > 1 ==> w == WaitStep::Retry
                && final(self).remaining == old(self).remaining - 1,
            observed != old(self).expected && old(self).remaining <= 1 ==> w == WaitStep::TimedOut
                && final(self).remaining == 0,
    {
        if observed == self.expected {
            WaitStep::Satisfied
        } else if self.remaining > 1 {
            self.remaining = self.remaining - 1;
            WaitStep::Retry
        } else {
            self.remaining = 0;
            WaitStep::TimedOut
        }
    }
}

/// Where the start-protocol operation stands.
#[derive(Debug, PartialEq, Eq, Structural, Clone, Copy)]
pub enum StartStage {
    /// `uci` was sent; awaiting phase Initialized.
    AwaitUciOk,
    /// `isready` was sent; awaiting phase Ready.
    AwaitReadyOk,
    /// The engine reached Ready; the protocol is up.
    Done,
    /// A wait exhausted its retry budget.
    Failed,
}

/// What the caller of the start machine must do next.
#[derive(Debug, PartialEq, Eq, Structural, Clone, Copy)]
pub enum StartAction {
    /// Send `isready`, then keep polling.
    SendIsReady,
    /// Sleep [`RETRY_SLEEP_MS`], then poll again.
    Sleep,
    /// The operation succeeded.
    Succeeded,
    /// The operation failed with [`EngineError::ProtocolTimeout`].
    TimedOut,
}

/// The start-protocol operation as a step machine. The caller sends `uci`,
/// then repeatedly reads the shared phase and feeds it to [`Self::poll`],
/// performing the action it returns, until the machine succeeds or times
/// out. The decisions are all here; the caller only sends, sleeps and
/// reads.
#[derive(Debug, PartialEq, Eq, Structural, Clone, Copy)]
pub struct StartProtocol {
    pub stage: StartStage,
    pub wait: StateWait,
}

impl StartProtocol {
    /// The machine awaits the phase that acknowledges its current stage.
    pub open spec fn wf(self) -> bool {
        &&& (self.stage == StartStage::AwaitUciOk ==> self.wait.expected
            == EngineStateEnum::Initialized)
        &&& (self.stage == StartStage::AwaitReadyOk ==> self.wait.expected
            == EngineStateEnum::Ready)
    }

    /// Begin the operation: the machine, and the first command to send.
    pub fn begin() -> (r: (StartProtocol, EngineCommand))
        ensures
            r.0 == (StartProtocol {
                stage: StartStage::AwaitUciOk,
                wait: StateWait {
                    expected: EngineStateEnum::Initialized,
                    remaining: RETRY_LIMIT,
                },
            }),
            r.1 == EngineCommand::Uci,
            r.0.wf(),
    {
        (
            StartProtocol {
                stage: StartStage::AwaitUciOk,
                wait: StateWait::new(EngineStateEnum::Initialized),
            },
            EngineCommand::Uci,
        )
    }

    /// Feed one observed phase and learn what to do next.
    pub fn poll(&mut self, observed: EngineStateEnum) -> (a: StartAction)
        requires
            old(self).wf(),
            old(self).stage == StartStage::AwaitUciOk || old(self).stage
                == StartStage::AwaitReadyOk,
        ensures
            final(self).wf(),
            old(self).stage == StartStage::AwaitUciOk && observed == EngineStateEnum::Initialized
                ==> a == StartAction::SendIsReady && *final(self) == (StartProtocol {
                stage: StartStage::AwaitReadyOk,
                wait: StateWait { expected: EngineStateEnum::Ready, remaining: RETRY_LIMIT },
            }),
            old(self).stage == StartStage::AwaitUciOk && observed != EngineStateEnum::Initialized
                && old(self).wait.remaining > 1 ==> a == StartAction::Sleep && *final(self)
                == (StartProtocol {
                stage: StartStage::AwaitUciOk,
                wait: StateWait {
                    expected: EngineStateEnum::Initialized,
                    remaining: (old(self).wait.remaining - 1) as u32,
                },
            }),
            old(self).stage == StartStage::AwaitUciOk && observed != EngineStateEnum::Initialized
                && old(self).wait.remaining <= 1 ==> a == StartAction::TimedOut
                && final(self).stage == StartStage::Failed,
            old(self).stage == StartStage::AwaitReadyOk && observed == EngineStateEnum::Ready
                ==> a == StartAction::Succeeded && final(self).stage == StartStage::Done,
            old(self).stage == StartStage::AwaitReadyOk && observed != EngineStateEnum::Ready
                && old(self).wait.remaining > 1 ==> a == StartAction::Sleep && *final(self)
                == (StartProtocol {
                stage: StartStage::AwaitReadyOk,
                wait: StateWait {
                    expected: EngineStateEnum::Ready,
                    remaining: (old(self).wait.remaining - 1) as u32,
                },
            }),
            old(self).stage == StartStage::AwaitReadyOk && observed != EngineStateEnum::Ready
                && old(self).wait.remaining <= 1 ==> a == StartAction::TimedOut
                && final(self).stage == StartStage::Failed,
    {
        let step = self.wait.poll(observed);
        match step {
            WaitStep::Satisfied => {
                if matches!(self.stage, StartStage::AwaitUciOk) {
                    self.stage = StartStage::AwaitReadyOk;
                    self.wait = StateWait::new(EngineStateEnum::Ready);
                    StartAction::SendIsReady
                } else {
                    self.stage = StartStage::Done;
                    StartAction::Succeeded
                }
            },
            WaitStep::Retry => StartAction::Sleep,
            WaitStep::TimedOut => {
                self.stage = StartStage::Failed;
                StartAction::TimedOut
            },
        }
    }
}

/// The moves of a principal variation joined with comma and space.
pub open spec fn joined_moves(pv: Seq<Seq<char>>) -> Seq<char>
    decreases pv.len(),
{
    if pv.len() == 0 {
        Seq::empty()
    } else if pv.len() == 1 {
        pv[0]
    } else {
        pv[0] + ", "@ + joined_moves(pv.drop_first())
    }
}

/// The one-line rendering of a snapshot.
pub open spec fn eval_text(e: EvaluationModel) -> Seq<char> {
    "score: "@ + dec_int(e.score) + " mate: "@ + dec_int(e.mate) + " depth: "@ + dec_int(e.depth)
        + " nodes: "@ + dec_int(e.nodes) + " seldepth: "@ + dec_int(e.seldepth) + " multipv: "@
        + dec_int(e.multipv) + " time: "@ + dec_int(e.time)
}

/// The rendering of a snapshot; with `with_moves` the principal variation
/// follows on a second line.
pub open spec fn eval_display(e: EvaluationModel, with_moves: bool) -> Seq<char> {
    if with_moves {
        eval_text(e) + "\npv: "@ + joined_moves(e.pv)
    } else {
        eval_text(e)
    }
}

/// Join the moves from index `i` on with comma and space.
fn join_moves_from(pv: &Vec<String>, i: usize) -> (r: String)
    requires
        i <= pv.len(),
    ensures
        r@ == joined_moves(pv.deep_view().skip(i as int)),
    decreases pv.len() - i,
{
    let n = pv.len();
    if i == n {
        proof {
            assert(pv.deep_view().skip(i as int) =~= Seq::<Seq<char>>::empty());
        }
        String::new()
    } else if i + 1 == n {
        proof {
            assert(pv.deep_view().skip(i as int)[0] == pv.deep_view()[i as int]);
        }
        pv[i].clone()
    } else {
        let mut out = pv[i].clone();
        out.append(", ");
        let rest = join_moves_from(pv, i + 1);
        out.append(rest.as_str());
        proof {
            assert(pv.deep_view().skip(i as int).drop_first() =~= pv.deep_view().skip(
                i + 1 as int,
            ));
            assert(pv.deep_view().skip(i as int)[0] == pv.deep_view()[i as int]);
        }
        out
    }
}

impl Evaluation {
    /// Render the snapshot on one line; with `with_moves` the moves of the
    /// principal variation are appended on a second line.
    pub fn display(&self, with_moves: bool) -> (r: String)
        ensures
            r@ == eval_display(self@, with_moves),
    {
        let mut out = String::from_str("score: ");
        let num = isize_string(self.score);
        out.append(num.as_str());
        out.append(" mate: ");
        let num = isize_string(self.mate);
        out.append(num.as_str());
        out.append(" depth: ");
        let num = isize_string(self.depth);
        out.append(num.as_str());
        out.append(" nodes: ");
        let num = isize_string(self.nodes);
        out.append(num.as_str());
        out.append(" seldepth: ");
        let num = isize_string(self.seldepth);
        out.append(num.as_str());
        out.append(" multipv: ");
        let num = isize_string(self.multipv);
        out.append(num.as_str());
        out.append(" time: ");
        let num = isize_string(self.time);
        out.append(num.as_str());
        if with_moves {
            out.append("\npv: ");
            let moves = join_moves_from(&self.pv, 0);
            out.append(moves.as_str());
            proof {
                assert(self.pv.deep_view().skip(0) =~= self.pv.deep_view());
            }
        }
        out
    }
}

/// The phase change an event causes when the reader applies it.
pub open spec fn event_phase(p: EngineStateEnum, ev: UciModel) -> EngineStateEnum {
    match ev {
        UciModel::UciOk => EngineStateEnum::Initialized,
        UciModel::ReadyOk => EngineStateEnum::Ready,
        _ => p,
    }
}

/// Applying an event moves the phase exactly as [`event_phase`] says.
pub proof fn lemma_event_apply_phase(m: EngineStateModel, ev: UciModel)
    ensures
        event_apply(m, ev).state == event_phase(m.state, ev),
{
}

/// One step of the protocol as the phase sees it: the background reader
/// applies a parsed event, or the facade sends a command.
pub enum ProtocolStep {
    Event(UciModel),
    Command(EngineCommandModel),
}

/// The phase a step leaves behind.
pub open spec fn step_phase(p: EngineStateEnum, s: ProtocolStep) -> EngineStateEnum {
    match s {
        ProtocolStep::Event(ev) => event_phase(p, ev),
        ProtocolStep::Command(c) => command_phase(p, c),
    }
}

/// The phase after the first `i` steps of a trace that starts at a freshly
/// spawned process.
pub open spec fn phase_at(steps: Seq<ProtocolStep>, i: int) -> EngineStateEnum
    decreases i,
{
    if i <= 0 {
        EngineStateEnum::Uninitialized
    } else {
        step_phase(phase_at(steps, i - 1), steps[i - 1])
    }
}

/// Normal operation: each acknowledgment arrives in the phase that awaits
/// it, and a search is started only after the engine has acknowledged
/// readiness.
pub open spec fn normal_trace(steps: Seq<ProtocolStep>) -> bool {
    &&& forall|k: int|
        0 <= k < steps.len() ==> ((#[trigger] steps[k]) matches ProtocolStep::Event(
            UciModel::UciOk,
        ) ==> phase_at(steps, k) == EngineStateEnum::Uninitialized)
    &&& forall|k: int|
        0 <= k < steps.len() ==> ((#[trigger] steps[k]) matches ProtocolStep::Event(
            UciModel::ReadyOk,
        ) ==> phase_at(steps, k) == EngineStateEnum::Initialized)
    &&& forall|k: int|
        0 <= k < steps.len() ==> ((#[trigger] steps[k]) matches ProtocolStep::Command(c)
            && is_go(c) ==> exists|j: int|
            0 <= j < k && (#[trigger] steps[j]) == ProtocolStep::Event(UciModel::ReadyOk))
}

/// The edges of the protocol diagram, a stutter included.
pub open spec fn allowed_transition(p: EngineStateEnum, q: EngineStateEnum) -> bool {
    ||| q == p
    ||| (p == EngineStateEnum::Uninitialized && q == EngineStateEnum::Initialized)
    ||| (p == EngineStateEnum::Initialized && q == EngineStateEnum::Ready)
    ||| ((p == EngineStateEnum::Ready || p == EngineStateEnum::Initialized) && q
        == EngineStateEnum::Thinking)
    ||| ((p == EngineStateEnum::Thinking || p == EngineStateEnum::Ready) && q
        == EngineStateEnum::Initialized)
}

/// No step returns a started protocol to Uninitialized.
proof fn lemma_phase_stays_started(steps: Seq<ProtocolStep>, j: int, k: int)
    requires
        0 <= j <= k,
        phase_at(steps, j) != EngineStateEnum::Uninitialized,
    ensures
        phase_at(steps, k) != EngineStateEnum::Uninitialized,
    decreases k - j,
{
    if k > j {
        lemma_phase_stays_started(steps, j, k - 1);
    }
}

/// The first `i` steps each move along the protocol diagram.
pub open spec fn monotonic_prefix(steps: Seq<ProtocolStep>, i: int) -> bool
    decreases i,
{
    i <= 0 || (allowed_transition(phase_at(steps, i - 1), phase_at(steps, i))
        && monotonic_prefix(steps, i - 1))
}

/// What [`monotonic_prefix`] says of one particular step.
pub proof fn lemma_monotonic_prefix_at(steps: Seq<ProtocolStep>, i: int, k: int)
    requires
        monotonic_prefix(steps, i),
        0 <= k < i,
    ensures
        allowed_transition(phase_at(steps, k), phase_at(steps, k + 1)),
    decreases i,
{
    if k < i - 1 {
        lemma_monotonic_prefix_at(steps, i - 1, k);
    }
}

/// Lifecycle phases are monotonic under normal operation: every step of
/// the trace moves along the protocol diagram `Uninitialized -> Initialized
/// -> Ready -> Thinking <-> Initialized`, and the phase cannot be Thinking
/// before it has been Ready.
pub proof fn lemma_phase_monotonic(steps: Seq<ProtocolStep>, i: int)
    requires
        normal_trace(steps),
        0 <= i <= steps.len(),
    ensures
        monotonic_prefix(steps, i),
        phase_at(steps, i) == EngineStateEnum::Thinking ==> exists|j: int|
            0 <= j < i && #[trigger] phase_at(steps, j) == EngineStateEnum::Ready,
    decreases i,
{
    if i > 0 {
        lemma_phase_monotonic(steps, i - 1);
        let p = phase_at(steps, i - 1);
        let q = phase_at(steps, i);
        let s = steps[i - 1];
        assert(q == step_phase(p, s));
        match s {
            ProtocolStep::Event(ev) => {
                match ev {
                    UciModel::UciOk => {
                        assert(p == EngineStateEnum::Uninitialized);
                        assert(q == EngineStateEnum::Initialized);
                    },
                    UciModel::ReadyOk => {
                        assert(p == EngineStateEnum::Initialized);
                        assert(q == EngineStateEnum::Ready);
                    },
                    _ => {
                        assert(q == p);
                    },
                }
                assert(allowed_transition(p, q));
                if q == EngineStateEnum::Thinking {
                    assert(p == EngineStateEnum::Thinking);
                }
            },
            ProtocolStep::Command(c) => {
                if is_go(c) {
                    assert(q == EngineStateEnum::Thinking);
                    let j = choose|j: int|
                        0 <= j < i - 1 && (#[trigger] steps[j]) == ProtocolStep::Event(
                            UciModel::ReadyOk,
                        );
                    assert(phase_at(steps, j + 1) == EngineStateEnum::Ready);
                    lemma_phase_stays_started(steps, j + 1, i - 1);
                    assert(allowed_transition(p, q));
                    assert(0 <= j + 1 < i && phase_at(steps, j + 1) == EngineStateEnum::Ready);
                } else {
                    assert(q == p || q == EngineStateEnum::Initialized);
                    assert(allowed_transition(p, q));
                    if q == EngineStateEnum::Thinking {
                        assert(p == EngineStateEnum::Thinking);
                    }
                }
            },
        }
    }
}

/// The go command a search request implies: a depth bound takes precedence
/// over a time bound, then a mate search; with no bound at all the search
/// is unbounded until stopped.
pub fn search_go_command(max_depth: usize, max_time: usize, mate_in: usize) -> (c: EngineCommand)
    ensures
        max_depth > 0 ==> c == (EngineCommand::GoDepth { plies: max_depth }),
        max_depth == 0 && max_time > 0 ==> c == (EngineCommand::GoTime { ms: max_time }),
        max_depth == 0 && max_time == 0 && mate_in > 0 ==> c == (EngineCommand::GoMate {
            mate_in: mate_in,
        }),
        max_depth == 0 && max_time == 0 && mate_in == 0 ==> c == EngineCommand::GoInfinite,
        is_go(c@),
{
    if max_depth > 0 {
        EngineCommand::GoDepth { plies: max_depth }
    } else if max_time > 0 {
        EngineCommand::GoTime { ms: max_time }
    } else if mate_in > 0 {
        EngineCommand::GoMate { mate_in }
    } else {
        EngineCommand::GoInfinite
    }
}

} // verus!
