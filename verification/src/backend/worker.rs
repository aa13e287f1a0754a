//! What the worker does with an action, with a trigger of the loop, and with
//! the end of a turn.
use std::collections::VecDeque;

use vstd::prelude::*;
#[allow(unused_imports)]
use vstd::string::*;

use crate::backend::{session_name, session_slug};
use crate::events::{UiEvent, UserAction};
use crate::runtime_builder::RuntimeBuild;
use crate::text::{concat2, concat3, concat4};

verus! {

/// The state of the loop that runs.
#[derive(Clone, Copy, Debug, PartialEq, Eq, Structural)]
pub struct LoopState {
    pub active: bool,
    pub turns_run: u32,
    /// 0 means no limit.
    pub max_turns: u32,
}

impl LoopState {
    /// Whether the loop has run as many turns as it may.
    pub open spec fn is_done(self) -> bool {
        self.max_turns > 0 && self.turns_run >= self.max_turns
    }

    /// The loop with one more turn counted.
    pub open spec fn counted(self) -> LoopState {
        LoopState {
            turns_run: if self.turns_run == u32::MAX {
                u32::MAX
            } else {
                (self.turns_run + 1) as u32
            },
            ..self
        }
    }
}

/// What kind of turn is in flight.
#[derive(Clone, Copy, Debug, PartialEq, Eq, Structural)]
pub enum TurnKind {
    /// Actions are listened to while the turn runs.
    Interactive,
    /// The turn runs a skill; only cancelling it is possible.
    Skill,
}

/// What the runtime is to work on.
#[derive(Clone, Debug)]
pub enum TurnJob {
    /// A message of the user.
    Message(String),
    /// The plan that was just accepted.
    AcceptedPlan,
    /// A goal, for at most so many turns.
    Goal { prompt: String, condition: String, max_turns: u32 },
    /// The prompt of a skill.
    Skill(String),
}

/// What is to be done outside the state machine.
#[derive(Clone, Debug)]
pub enum Effect {
    /// Tell the interface.
    Emit(UiEvent),
    /// Start to save the session under this name.
    OpenSession(String),
    /// Mark the saved session as completed.
    CloseSession,
    /// Start a turn.
    RunTurn(TurnJob),
    /// Run a shell command.
    RunShell(String),
    /// Tell the runtime that its plan is accepted.
    ConfirmPlan,
    /// Tell the runtime that its plan is rejected.
    RejectPlan(String),
    /// Grant the runtime plan mode.
    ApprovePlanMode,
    /// Deny the runtime plan mode.
    RejectPlanMode(String),
    /// Compact the runtime's transcript.
    Compact,
    /// Drop the runtime's goal.
    ClearGoal,
    /// Load the session saved in a directory into the runtime.
    LoadSession(String),
    /// Look the configured MCP servers up.
    ListMcpServers,
    /// Hand the runtime another model.
    SwitchModel { preset_id: String, model: String },
    /// Raise the flag that cancels the turn.
    RaiseCancel,
    /// Lower the flag that cancels the turn.
    LowerCancel,
    /// Cut the runtime's transcript back to where the turn began.
    RewindTranscript,
}

/// The state of the worker.
#[derive(Debug)]
pub struct Worker {
    pub runtime: RuntimeBuild,
    /// Whether the worker holds the runtime; while a turn runs, the turn does.
    pub has_runtime: bool,
    /// Whether the session is being saved.
    pub has_session: bool,
    /// The messages that wait for the turn to end, oldest first.
    pub queued: VecDeque<String>,
    pub loop_state: Option<LoopState>,
    pub turn: Option<TurnKind>,
    /// Whether the loop is to stop once the turn that runs is over.
    pub stop_pending: bool,
    /// Whether the worker is to end.
    pub ended: bool,
}

/// What the worker does next.
#[derive(Clone, Debug)]
pub enum NextStep {
    /// The loop is through: tell the interface that it stopped.
    StopLoop,
    /// Handle this action.
    Act(UserAction),
    /// Wait for a trigger of the loop.
    Arbitrate,
    /// Wait for an action.
    Wait,
}

/// Whether `w` is a worker at its start, and `first` what it tells the interface.
pub open spec fn started(runtime: RuntimeBuild, w: Worker, first: UiEvent) -> bool {
    &&& w.wf()
    &&& w.runtime == runtime
    &&& w.has_runtime == (runtime is Ready)
    &&& !w.has_session
    &&& w.queued@.len() == 0
    &&& w.loop_state is None
    &&& w.turn is None
    &&& !w.stop_pending
    &&& !w.ended
    &&& first == match runtime {
        RuntimeBuild::Ready => UiEvent::RuntimeReady,
        RuntimeBuild::Offline { reason } => UiEvent::RuntimeOffline { reason },
    }
}

impl Worker {
    /// The runtime is either with the worker or with a turn, and there is none
    /// of either without a runtime. Only while a turn runs does the stop of the
    /// loop wait.
    pub open spec fn wf(self) -> bool {
        &&& self.turn is Some ==> !self.has_runtime
        &&& self.stop_pending ==> self.turn is Some
        &&& self.runtime is Offline ==> !self.has_runtime && self.turn is None
    }

    /// A worker at its start, and what it tells the interface first.
    pub fn start(runtime: RuntimeBuild) -> (r: (Worker, UiEvent))
        ensures
            started(runtime, r.0, r.1),
    {
        let mut has_runtime: bool = false;
        let first: UiEvent = match &runtime {
            RuntimeBuild::Ready => {
                has_runtime = true;
                UiEvent::RuntimeReady
            },
            RuntimeBuild::Offline { reason } => UiEvent::RuntimeOffline { reason: reason.clone() },
        };
        (
            Worker {
                runtime,
                has_runtime,
                has_session: false,
                queued: VecDeque::new(),
                loop_state: None,
                turn: None,
                stop_pending: false,
                ended: false,
            },
            first,
        )
    }

    /// Notes that the session is being saved.
    pub fn session_opened(&mut self)
        requires
            old(self).wf(),
        ensures
            *final(self) == (Worker { has_session: true, ..*old(self) }),
            final(self).wf(),
    {
        self.has_session = true;
    }

    /// Notes that the runtime did not come back.
    pub fn runtime_lost(&mut self)
        requires
            old(self).wf(),
        ensures
            *final(self) == (Worker { has_runtime: false, ..*old(self) }),
            final(self).wf(),
    {
        self.has_runtime = false;
    }
}

/// What the worker does next: a loop that is through stops, a message that
/// waits is handled, the oldest first, and else the worker waits for a trigger
/// of the loop or for an action.
pub open spec fn stepped(w: Worker, v: Worker, r: NextStep) -> bool {
    if w.loop_state matches Some(l) && l.is_done() {
        r is StopLoop && v == (Worker { loop_state: None, ..w })
    } else if w.queued@.len() > 0 {
        &&& r == NextStep::Act(UserAction::SendMessage(w.queued@.first()))
        &&& v.queued@ == w.queued@.drop_first()
        &&& v == (Worker {
            queued: v.queued,
            loop_state: match w.loop_state {
                Some(l) => Some(l.counted()),
                None => None,
            },
            ..w
        })
    } else {
        &&& v == w
        &&& r == if w.loop_state matches Some(l) && l.active {
            NextStep::Arbitrate
        } else {
            NextStep::Wait
        }
    }
}

impl Worker {
    fn count_turn(&mut self)
        ensures
            *final(self) == (Worker {
                loop_state: match old(self).loop_state {
                    Some(l) => Some(l.counted()),
                    None => None,
                },
                ..*old(self)
            }),
    {
        if let Some(l) = self.loop_state {
            self.loop_state = Some(
                LoopState {
                    active: l.active,
                    turns_run: l.turns_run.saturating_add(1),
                    max_turns: l.max_turns,
                },
            );
        }
    }

    /// Decides what the worker does next while no turn runs.
    pub fn next_step(&mut self) -> (r: NextStep)
        requires
            old(self).wf(),
        ensures
            stepped(*old(self), *final(self), r),
            final(self).wf(),
    {
        if let Some(l) = self.loop_state {
            if l.max_turns > 0 && l.turns_run >= l.max_turns {
                self.loop_state = None;
                return NextStep::StopLoop;
            }
        }
        if self.queued.len() > 0 {
            if let Some(text) = self.queued.pop_front() {
                proof {
                    assert(self.queued@ =~= old(self).queued@.drop_first());
                }
                self.count_turn();
                return NextStep::Act(UserAction::SendMessage(text));
            }
        }
        if let Some(l) = self.loop_state {
            if l.active {
                return NextStep::Arbitrate;
            }
        }
        NextStep::Wait
    }
}

// ---------------------------------------------------------------------------
// Triggers of the loop
// ---------------------------------------------------------------------------

/// What the arbiter of the loop decides.
#[derive(Clone, Debug)]
pub enum ArbiterDecision {
    /// Run a turn with this prompt.
    Run { prompt: String, source: String, delay_secs: Option<u64> },
    /// Stop the loop.
    Stop,
    /// Nothing is ready yet.
    Idle,
    /// Handle this action, which has nothing to do with the loop.
    Forward(UserAction),
}

/// What the arbiter waits for, in the order in which it is listened to.
#[derive(Clone, Debug)]
pub enum Trigger {
    /// An action of the user.
    Action(UserAction),
    /// There will be no more actions.
    Closed,
    /// A background job is over: its id and what it printed.
    JobDone(Option<(String, String)>),
    /// The wakeup that the agent asked for is due.
    Wakeup { prompt: String, delay_secs: u64 },
}

/// Whether an action ends the loop.
pub open spec fn ends_loop(action: UserAction) -> bool {
    action is StopLoop || action is Interrupt || action is Shutdown
}

/// The prompt of a trigger from the given source.
pub open spec fn trigger_prompt(source: Seq<char>, prompt: Seq<char>) -> Seq<char> {
    "[trigger:"@ + source + "] "@ + prompt
}

/// Whether a decision is to run a turn.
pub open spec fn runs(
    d: ArbiterDecision,
    prompt: Seq<char>,
    source: Seq<char>,
    delay: Option<u64>,
) -> bool {
    d matches ArbiterDecision::Run { prompt: p, source: s, delay_secs } && p@ == prompt && s@
        == source && delay_secs == delay
}

/// Whether `v` is `w` with a message at the end of the queue.
pub open spec fn message_queued(w: Worker, text: String, v: Worker) -> bool {
    v == (Worker { queued: v.queued, ..w }) && v.queued@ == w.queued@.push(text)
}

/// The worker once an action that ends the loop was taken: a shutdown ends the
/// worker too.
pub open spec fn told_to_stop(w: Worker, action: UserAction) -> Worker {
    Worker { ended: w.ended || action is Shutdown, ..w }
}

/// What the arbiter makes of an action that was there before it began to wait.
/// A message waits in the queue, a second start of the loop is passed over, and
/// what has nothing to do with the loop is forwarded.
pub open spec fn drained(
    w: Worker,
    action: UserAction,
    v: Worker,
    r: Option<ArbiterDecision>,
) -> bool {
    match action {
        UserAction::SendMessage(text) => message_queued(w, text, v) && r is None,
        UserAction::LoopTrigger { source, prompt } => v == w && (r matches Some(d) && runs(
            d,
            trigger_prompt(source@, prompt@),
            source@,
            None,
        )),
        UserAction::StartLoop { .. } => v == w && r is None,
        _ => if ends_loop(action) {
            v == told_to_stop(w, action) && r == Some(ArbiterDecision::Stop)
        } else {
            v == w && r == Some(ArbiterDecision::Forward(action))
        },
    }
}

/// What the arbiter decides on a trigger.
pub open spec fn arbitrated(w: Worker, trigger: Trigger, v: Worker, r: ArbiterDecision) -> bool {
    match trigger {
        Trigger::Action(action) => match action {
            UserAction::SendMessage(text) => message_queued(w, text, v) && r is Idle,
            UserAction::LoopTrigger { source, prompt } => v == w && runs(
                r,
                trigger_prompt(source@, prompt@),
                source@,
                None,
            ),
            UserAction::StartLoop { .. } => v == w && r is Idle,
            _ => if ends_loop(action) {
                v == told_to_stop(w, action) && r is Stop
            } else {
                v == w && r == ArbiterDecision::Forward(action)
            },
        },
        Trigger::Closed => v == w && r is Stop,
        Trigger::JobDone(Some((id, output))) => v == w && runs(
            r,
            "Background job '"@ + id@ + "' completed:\n"@ + output@,
            "bg-complete"@,
            None,
        ),
        Trigger::JobDone(None) => v == w && r is Idle,
        Trigger::Wakeup { prompt, delay_secs } => v == w && runs(
            r,
            prompt@,
            "wakeup"@,
            Some(delay_secs),
        ),
    }
}

/// What the worker does with a decision: what the interface is told, and the
/// action to handle, if there is one. Where the worker is to end, that is the
/// shutdown, which closes the session.
pub open spec fn decided(
    w: Worker,
    d: ArbiterDecision,
    v: Worker,
    told: Seq<UiEvent>,
    action: Option<UserAction>,
) -> bool {
    match d {
        ArbiterDecision::Run { prompt, source, delay_secs } => {
            &&& action == Some(UserAction::SendMessage(prompt))
            &&& v == (Worker {
                loop_state: match w.loop_state {
                    Some(l) => Some(l.counted()),
                    None => None,
                },
                ..w
            })
            &&& told == if w.loop_state is Some {
                seq![UiEvent::LoopTurnScheduled { source, delay_secs }]
            } else {
                seq![]
            }
        },
        ArbiterDecision::Stop => {
            &&& action == if w.ended {
                Some(UserAction::Shutdown)
            } else {
                None
            }
            &&& v == (Worker { loop_state: None, ..w })
            &&& told == seq![UiEvent::LoopStopped]
        },
        ArbiterDecision::Idle => {
            &&& action is None
            &&& v == w
            &&& told == seq![UiEvent::LoopIdle]
        },
        ArbiterDecision::Forward(a) => action == Some(a) && v == w && told.len() == 0,
    }
}

/// A list of one item.
fn only<T>(x: T) -> (r: Vec<T>)
    ensures
        r@ == seq![x],
{
    let mut r: Vec<T> = Vec::new();
    r.push(x);
    proof {
        assert(r@ =~= seq![x]);
    }
    r
}

fn run_trigger(source: String, prompt: &str) -> (r: ArbiterDecision)
    ensures
        runs(r, trigger_prompt(source@, prompt@), source@, None),
{
    ArbiterDecision::Run {
        prompt: concat4("[trigger:", source.as_str(), "] ", prompt),
        source,
        delay_secs: None,
    }
}

impl Worker {
    /// Takes an action that was there before the arbiter began to wait. `None`
    /// means that the arbiter goes on.
    pub fn drain_action(&mut self, action: UserAction) -> (r: Option<ArbiterDecision>)
        requires
            old(self).wf(),
        ensures
            drained(*old(self), action, *final(self), r),
            final(self).wf(),
    {
        match action {
            UserAction::StopLoop | UserAction::Interrupt => Some(ArbiterDecision::Stop),
            UserAction::Shutdown => {
                self.ended = true;
                Some(ArbiterDecision::Stop)
            },
            UserAction::SendMessage(text) => {
                self.queued.push_back(text);
                None
            },
            UserAction::LoopTrigger { source, prompt } => Some(
                run_trigger(source, prompt.as_str()),
            ),
            UserAction::StartLoop { .. } => None,
            other => Some(ArbiterDecision::Forward(other)),
        }
    }

    /// Decides on a trigger of the loop.
    pub fn arbitrate(&mut self, trigger: Trigger) -> (r: ArbiterDecision)
        requires
            old(self).wf(),
        ensures
            arbitrated(*old(self), trigger, *final(self), r),
            final(self).wf(),
    {
        match trigger {
            Trigger::Action(action) => match action {
                UserAction::StopLoop | UserAction::Interrupt => ArbiterDecision::Stop,
                UserAction::Shutdown => {
                    self.ended = true;
                    ArbiterDecision::Stop
                },
                UserAction::SendMessage(text) => {
                    self.queued.push_back(text);
                    ArbiterDecision::Idle
                },
                UserAction::LoopTrigger { source, prompt } => {
                    run_trigger(source, prompt.as_str())
                },
                UserAction::StartLoop { .. } => ArbiterDecision::Idle,
                other => ArbiterDecision::Forward(other),
            },
            Trigger::Closed => ArbiterDecision::Stop,
            Trigger::JobDone(done) => match done {
                Some((id, output)) => ArbiterDecision::Run {
                    prompt: concat4(
                        "Background job '",
                        id.as_str(),
                        "' completed:\n",
                        output.as_str(),
                    ),
                    source: "bg-complete".to_owned(),
                    delay_secs: None,
                },
                None => ArbiterDecision::Idle,
            },
            Trigger::Wakeup { prompt, delay_secs } => ArbiterDecision::Run {
                prompt,
                source: "wakeup".to_owned(),
                delay_secs: Some(delay_secs),
            },
        }
    }

    /// Carries a decision of the arbiter out.
    pub fn apply_decision(&mut self, decision: ArbiterDecision) -> (r: (
        Vec<UiEvent>,
        Option<UserAction>,
    ))
        requires
            old(self).wf(),
        ensures
            decided(*old(self), decision, *final(self), r.0@, r.1),
            final(self).wf(),
    {
        match decision {
            ArbiterDecision::Run { prompt, source, delay_secs } => {
                let told: Vec<UiEvent> = if self.loop_state.is_some() {
                    self.count_turn();
                    only(UiEvent::LoopTurnScheduled { source, delay_secs })
                } else {
                    Vec::new()
                };
                (told, Some(UserAction::SendMessage(prompt)))
            },
            ArbiterDecision::Stop => {
                self.loop_state = None;
                let action: Option<UserAction> = if self.ended {
                    Some(UserAction::Shutdown)
                } else {
                    None
                };
                (only(UiEvent::LoopStopped), action)
            },
            ArbiterDecision::Idle => (only(UiEvent::LoopIdle), None),
            ArbiterDecision::Forward(a) => (Vec::new(), Some(a)),
        }
    }
}

// ---------------------------------------------------------------------------
// Actions
// ---------------------------------------------------------------------------

/// Whether the only thing to do is to tell the interface of an error.
pub open spec fn only_error(e: Seq<Effect>, text: Seq<char>) -> bool {
    &&& e.len() == 1
    &&& e[0] matches Effect::Emit(UiEvent::Error { message }) && message@ == text
}

/// Whether the effects are the given ones, after the session was opened where
/// it was not yet.
pub open spec fn with_session(w: Worker, text: Seq<char>, e: Seq<Effect>, rest: Seq<Effect>) -> bool {
    if w.has_session {
        e == rest
    } else {
        &&& e.len() == rest.len() + 1
        &&& e[0] matches Effect::OpenSession(name) && name@ == session_name(text)
        &&& e.skip(1) == rest
    }
}

/// The worker while a turn of the given kind runs.
pub open spec fn turning(w: Worker, kind: TurnKind) -> Worker {
    Worker { turn: Some(kind), has_runtime: false, ..w }
}

/// What the worker does for a message.
pub open spec fn message_handled(w: Worker, text: String, v: Worker, e: Seq<Effect>) -> bool {
    match w.runtime {
        RuntimeBuild::Ready => if w.has_runtime {
            &&& v == turning(w, TurnKind::Interactive)
            &&& with_session(
                w,
                text@,
                e,
                seq![
                    Effect::LowerCancel,
                    Effect::Emit(UiEvent::TurnStarted),
                    Effect::RunTurn(TurnJob::Message(text)),
                ],
            )
        } else {
            v == w && e.len() == 0
        },
        RuntimeBuild::Offline { reason } => {
            &&& v == w
            &&& e == seq![
                Effect::Emit(UiEvent::Error { message: reason }),
                Effect::Emit(UiEvent::TurnFinished),
            ]
        },
    }
}

/// What the worker does when a loop is to be started. A loop excludes a goal,
/// and another loop.
pub open spec fn loop_start_handled(
    w: Worker,
    goal: String,
    max_turns: u32,
    goal_active: bool,
    v: Worker,
    e: Seq<Effect>,
) -> bool {
    match w.runtime {
        RuntimeBuild::Offline { reason } => {
            &&& v == w
            &&& e == seq![Effect::Emit(UiEvent::Error { message: reason })]
        },
        RuntimeBuild::Ready => if !w.has_runtime {
            v == w && e.len() == 0
        } else if goal_active {
            v == w && only_error(
                e,
                "Cannot start loop: a goal loop is already active. Use /goal clear first."@,
            )
        } else if w.loop_state is Some {
            v == w && only_error(e, "Loop is already active. Use /loop stop first."@)
        } else {
            &&& v == (Worker {
                queued: v.queued,
                loop_state: Some(LoopState { active: true, turns_run: 0, max_turns }),
                ..w
            })
            &&& v.queued@ == w.queued@.push(goal)
            &&& with_session(w, goal@, e, seq![Effect::Emit(UiEvent::LoopStarted { goal })])
        },
    }
}

/// The prompt that starts the work towards a goal.
pub open spec fn goal_prompt(condition: Seq<char>) -> Seq<char> {
    "Start working towards the following goal: "@ + condition
        + "\n\nContinue until the goal is achieved."@
}

/// What the worker does when a goal is set. A goal excludes a loop.
pub open spec fn goal_handled(
    w: Worker,
    condition: String,
    max_turns: u32,
    v: Worker,
    e: Seq<Effect>,
) -> bool {
    if w.loop_state is Some {
        v == w && only_error(
            e,
            "Cannot set goal: an event loop is active. Use /loop stop first."@,
        )
    } else {
        match w.runtime {
            RuntimeBuild::Ready => if w.has_runtime {
                &&& v == turning(w, TurnKind::Interactive)
                &&& e.len() == 3
                &&& e[0] is LowerCancel
                &&& e[1] == Effect::Emit(UiEvent::TurnStarted)
                &&& e[2] matches Effect::RunTurn(
                    TurnJob::Goal { prompt, condition: c, max_turns: m },
                ) && prompt@ == goal_prompt(condition@) && c == condition && m == max_turns
            } else {
                v == w && e.len() == 0
            },
            RuntimeBuild::Offline { reason } => {
                &&& v == w
                &&& e == seq![Effect::Emit(UiEvent::Error { message: reason })]
            },
        }
    }
}

/// What the worker does for the prompt of a skill.
pub open spec fn skill_handled(w: Worker, prompt: String, v: Worker, e: Seq<Effect>) -> bool {
    match w.runtime {
        RuntimeBuild::Ready => if w.has_runtime {
            &&& v == turning(w, TurnKind::Skill)
            &&& e == seq![
                Effect::LowerCancel,
                Effect::Emit(UiEvent::TurnStarted),
                Effect::RunTurn(TurnJob::Skill(prompt)),
            ]
        } else {
            v == w && e.len() == 0
        },
        RuntimeBuild::Offline { reason } => {
            &&& v == w
            &&& e == seq![
                Effect::Emit(UiEvent::Error { message: reason }),
                Effect::Emit(UiEvent::TurnFinished),
            ]
        },
    }
}

/// What the worker asks of the runtime, where it holds one.
pub open spec fn asked(w: Worker, effect: Effect, v: Worker, e: Seq<Effect>) -> bool {
    v == w && e == if w.has_runtime {
        seq![effect]
    } else {
        seq![]
    }
}

/// What the worker does with an action. `goal_active` says whether the runtime
/// has a goal.
pub open spec fn acted(
    w: Worker,
    action: UserAction,
    goal_active: bool,
    v: Worker,
    e: Seq<Effect>,
) -> bool {
    match action {
        UserAction::SendMessage(text) => message_handled(w, text, v, e),
        UserAction::StartLoop { goal, max_turns } => loop_start_handled(
            w,
            goal,
            max_turns,
            goal_active,
            v,
            e,
        ),
        UserAction::StopLoop => v == (Worker { loop_state: None, ..w }) && e == seq![
            Effect::Emit(UiEvent::LoopStopped),
        ],
        UserAction::LoopTrigger { source, prompt } => if w.loop_state is Some {
            &&& e.len() == 0
            &&& v == (Worker { queued: v.queued, ..w })
            &&& v.queued@.len() == w.queued@.len() + 1
            &&& v.queued@.drop_last() == w.queued@
            &&& v.queued@.last()@ == trigger_prompt(source@, prompt@)
        } else {
            v == w && only_error(e, "No active loop. Use /loop start first."@)
        },
        UserAction::Shutdown => {
            &&& v == (Worker { ended: true, has_session: false, ..w })
            &&& e == if w.has_session {
                seq![Effect::CloseSession]
            } else {
                seq![]
            }
        },
        UserAction::RunShell(cmd) => v == w && e == seq![Effect::RunShell(cmd)],
        UserAction::ConfirmPlan => if w.has_runtime {
            &&& v == turning(w, TurnKind::Interactive)
            &&& e == seq![
                Effect::ConfirmPlan,
                Effect::LowerCancel,
                Effect::Emit(UiEvent::TurnStarted),
                Effect::RunTurn(TurnJob::AcceptedPlan),
            ]
        } else {
            v == w && e.len() == 0
        },
        UserAction::RejectPlan(reason) => asked(w, Effect::RejectPlan(reason), v, e),
        UserAction::ApprovePlanMode => asked(w, Effect::ApprovePlanMode, v, e),
        UserAction::RejectPlanMode(reason) => asked(w, Effect::RejectPlanMode(reason), v, e),
        UserAction::Compact => if w.runtime is Offline {
            v == w && only_error(e, "compact unavailable in offline mode"@)
        } else {
            asked(w, Effect::Compact, v, e)
        },
        UserAction::SetPlanningMode(_) => v == w && e.len() == 0,
        UserAction::Interrupt => v == w && e == seq![Effect::RaiseCancel],
        UserAction::SetGoal { condition, max_turns } => goal_handled(w, condition, max_turns, v, e),
        UserAction::ClearGoal => asked(w, Effect::ClearGoal, v, e),
        UserAction::ResumeSession { session_dir } => asked(
            w,
            Effect::LoadSession(session_dir),
            v,
            e,
        ),
        UserAction::ListMcpServers => v == w && e == seq![Effect::ListMcpServers],
        UserAction::SwitchModel { preset_id, model } => match w.runtime {
            RuntimeBuild::Offline { reason } => v == w && only_error(
                e,
                "switch model unavailable offline: "@ + reason@,
            ),
            RuntimeBuild::Ready => asked(w, Effect::SwitchModel { preset_id, model }, v, e),
        },
        UserAction::RunSkillPrompt { prompt } => skill_handled(w, prompt, v, e),
    }
}

fn error(text: &str) -> (r: Vec<Effect>)
    ensures
        only_error(r@, text@),
{
    only(Effect::Emit(UiEvent::Error { message: text.to_owned() }))
}

impl Worker {
    fn opening(&self, text: &str) -> (r: Vec<Effect>)
        ensures
            self.has_session ==> r@.len() == 0,
            !self.has_session ==> r@.len() == 1 && (r@[0] matches Effect::OpenSession(name)
                && name@ == session_name(text@)),
    {
        let mut r: Vec<Effect> = Vec::new();
        if !self.has_session {
            r.push(Effect::OpenSession(session_slug(text)));
        }
        r
    }

    fn handle_message(&mut self, text: String) -> (r: Vec<Effect>)
        requires
            old(self).wf(),
        ensures
            message_handled(*old(self), text, *final(self), r@),
            final(self).wf(),
    {
        if let RuntimeBuild::Offline { reason } = &self.runtime {
            let mut r: Vec<Effect> = only(
                Effect::Emit(UiEvent::Error { message: reason.clone() }),
            );
            r.push(Effect::Emit(UiEvent::TurnFinished));
            proof {
                assert(r@ =~= seq![
                    Effect::Emit(UiEvent::Error { message: *reason }),
                    Effect::Emit(UiEvent::TurnFinished),
                ]);
            }
            return r;
        }
        if !self.has_runtime {
            return Vec::new();
        }
        let mut r: Vec<Effect> = self.opening(text.as_str());
        let ghost k = r@.len() as int;
        let ghost last = Effect::RunTurn(TurnJob::Message(text));
        r.push(Effect::LowerCancel);
        r.push(Effect::Emit(UiEvent::TurnStarted));
        r.push(Effect::RunTurn(TurnJob::Message(text)));
        proof {
            let rest = seq![Effect::LowerCancel, Effect::Emit(UiEvent::TurnStarted), last];
            assert(r@.skip(k) =~= rest);
            if k == 0 {
                assert(r@ =~= rest);
            }
        }
        self.turn = Some(TurnKind::Interactive);
        self.has_runtime = false;
        r
    }

    fn handle_start_loop(&mut self, goal: String, max_turns: u32, goal_active: bool) -> (r: Vec<
        Effect,
    >)
        requires
            old(self).wf(),
        ensures
            loop_start_handled(*old(self), goal, max_turns, goal_active, *final(self), r@),
            final(self).wf(),
    {
        if let RuntimeBuild::Offline { reason } = &self.runtime {
            return only(Effect::Emit(UiEvent::Error { message: reason.clone() }));
        }
        if !self.has_runtime {
            return Vec::new();
        }
        if goal_active {
            return error(
                "Cannot start loop: a goal loop is already active. Use /goal clear first.",
            );
        }
        if self.loop_state.is_some() {
            return error("Loop is already active. Use /loop stop first.");
        }
        self.loop_state = Some(LoopState { active: true, turns_run: 0, max_turns });
        let mut r: Vec<Effect> = self.opening(goal.as_str());
        let ghost k = r@.len() as int;
        r.push(Effect::Emit(UiEvent::LoopStarted { goal: goal.clone() }));
        proof {
            let rest = seq![Effect::Emit(UiEvent::LoopStarted { goal })];
            assert(r@.skip(k) =~= rest);
            if k == 0 {
                assert(r@ =~= rest);
            }
        }
        self.queued.push_back(goal);
        r
    }

    fn handle_set_goal(&mut self, condition: String, max_turns: u32) -> (r: Vec<Effect>)
        requires
            old(self).wf(),
        ensures
            goal_handled(*old(self), condition, max_turns, *final(self), r@),
            final(self).wf(),
    {
        if self.loop_state.is_some() {
            return error("Cannot set goal: an event loop is active. Use /loop stop first.");
        }
        if let RuntimeBuild::Offline { reason } = &self.runtime {
            return only(Effect::Emit(UiEvent::Error { message: reason.clone() }));
        }
        if !self.has_runtime {
            return Vec::new();
        }
        let prompt: String = concat3(
            "Start working towards the following goal: ",
            condition.as_str(),
            "\n\nContinue until the goal is achieved.",
        );
        let mut r: Vec<Effect> = only(Effect::LowerCancel);
        r.push(Effect::Emit(UiEvent::TurnStarted));
        r.push(Effect::RunTurn(TurnJob::Goal { prompt, condition, max_turns }));
        self.turn = Some(TurnKind::Interactive);
        self.has_runtime = false;
        r
    }

    fn handle_skill(&mut self, prompt: String) -> (r: Vec<Effect>)
        requires
            old(self).wf(),
        ensures
            skill_handled(*old(self), prompt, *final(self), r@),
            final(self).wf(),
    {
        if let RuntimeBuild::Offline { reason } = &self.runtime {
            let mut r: Vec<Effect> = only(
                Effect::Emit(UiEvent::Error { message: reason.clone() }),
            );
            r.push(Effect::Emit(UiEvent::TurnFinished));
            proof {
                assert(r@ =~= seq![
                    Effect::Emit(UiEvent::Error { message: *reason }),
                    Effect::Emit(UiEvent::TurnFinished),
                ]);
            }
            return r;
        }
        if !self.has_runtime {
            return Vec::new();
        }
        let ghost last = Effect::RunTurn(TurnJob::Skill(prompt));
        let mut r: Vec<Effect> = only(Effect::LowerCancel);
        r.push(Effect::Emit(UiEvent::TurnStarted));
        r.push(Effect::RunTurn(TurnJob::Skill(prompt)));
        proof {
            assert(r@ =~= seq![Effect::LowerCancel, Effect::Emit(UiEvent::TurnStarted), last]);
        }
        self.turn = Some(TurnKind::Skill);
        self.has_runtime = false;
        r
    }

    fn handle_confirm_plan(&mut self) -> (r: Vec<Effect>)
        requires
            old(self).wf(),
        ensures
            acted(*old(self), UserAction::ConfirmPlan, false, *final(self), r@),
            final(self).wf(),
    {
        if !self.has_runtime {
            return Vec::new();
        }
        let mut r: Vec<Effect> = only(Effect::ConfirmPlan);
        r.push(Effect::LowerCancel);
        r.push(Effect::Emit(UiEvent::TurnStarted));
        r.push(Effect::RunTurn(TurnJob::AcceptedPlan));
        proof {
            assert(r@ =~= seq![
                Effect::ConfirmPlan,
                Effect::LowerCancel,
                Effect::Emit(UiEvent::TurnStarted),
                Effect::RunTurn(TurnJob::AcceptedPlan),
            ]);
        }
        self.turn = Some(TurnKind::Interactive);
        self.has_runtime = false;
        r
    }

    fn handle_trigger(&mut self, source: String, prompt: String) -> (r: Vec<Effect>)
        requires
            old(self).wf(),
        ensures
            acted(
                *old(self),
                UserAction::LoopTrigger { source, prompt },
                false,
                *final(self),
                r@,
            ),
            final(self).wf(),
    {
        if self.loop_state.is_none() {
            return error("No active loop. Use /loop start first.");
        }
        self.queued.push_back(concat4("[trigger:", source.as_str(), "] ", prompt.as_str()));
        proof {
            assert(self.queued@.drop_last() =~= old(self).queued@);
        }
        Vec::new()
    }

    fn ask(&self, effect: Effect) -> (r: Vec<Effect>)
        ensures
            r@ == if self.has_runtime {
                seq![effect]
            } else {
                seq![]
            },
    {
        if self.has_runtime {
            only(effect)
        } else {
            Vec::new()
        }
    }

    /// Handles an action while no turn runs. `goal_active` says whether the
    /// runtime has a goal.
    pub fn handle_action(&mut self, action: UserAction, goal_active: bool) -> (r: Vec<Effect>)
        requires
            old(self).wf(),
        ensures
            acted(*old(self), action, goal_active, *final(self), r@),
            final(self).wf(),
    {
        match action {
            UserAction::SendMessage(text) => self.handle_message(text),
            UserAction::StartLoop { goal, max_turns } => {
                self.handle_start_loop(goal, max_turns, goal_active)
            },
            UserAction::StopLoop => {
                self.loop_state = None;
                only(Effect::Emit(UiEvent::LoopStopped))
            },
            UserAction::LoopTrigger { source, prompt } => self.handle_trigger(source, prompt),
            UserAction::Shutdown => {
                let r: Vec<Effect> = if self.has_session {
                    only(Effect::CloseSession)
                } else {
                    Vec::new()
                };
                self.has_session = false;
                self.ended = true;
                r
            },
            UserAction::RunShell(cmd) => only(Effect::RunShell(cmd)),
            UserAction::ConfirmPlan => self.handle_confirm_plan(),
            UserAction::RejectPlan(reason) => self.ask(Effect::RejectPlan(reason)),
            UserAction::ApprovePlanMode => self.ask(Effect::ApprovePlanMode),
            UserAction::RejectPlanMode(reason) => self.ask(Effect::RejectPlanMode(reason)),
            UserAction::Compact => {
                if let RuntimeBuild::Offline { .. } = &self.runtime {
                    return error("compact unavailable in offline mode");
                }
                self.ask(Effect::Compact)
            },
            UserAction::SetPlanningMode(_) => Vec::new(),
            UserAction::Interrupt => only(Effect::RaiseCancel),
            UserAction::SetGoal { condition, max_turns } => {
                self.handle_set_goal(condition, max_turns)
            },
            UserAction::ClearGoal => self.ask(Effect::ClearGoal),
            UserAction::ResumeSession { session_dir } => self.ask(Effect::LoadSession(session_dir)),
            UserAction::ListMcpServers => only(Effect::ListMcpServers),
            UserAction::SwitchModel { preset_id, model } => {
                if let RuntimeBuild::Offline { reason } = &self.runtime {
                    let text: String = concat2(
                        "switch model unavailable offline: ",
                        reason.as_str(),
                    );
                    return error(text.as_str());
                }
                self.ask(Effect::SwitchModel { preset_id, model })
            },
            UserAction::RunSkillPrompt { prompt } => self.handle_skill(prompt),
        }
    }
}

// ---------------------------------------------------------------------------
// Turns
// ---------------------------------------------------------------------------

/// What is to be done about an action that came in while a turn runs.
#[derive(Clone, Debug)]
pub enum TurnStep {
    /// Accept the plan that the turn waits with.
    ApprovePlan,
    /// Reject the plan that the turn waits with.
    RejectPlan(String),
    /// Grant the plan mode that the turn asks for.
    ApprovePlanMode,
    /// Deny the plan mode that the turn asks for.
    RejectPlanMode(String),
    /// Raise the flag that cancels the turn.
    RaiseCancel,
    /// Abort the turn.
    Abort,
    /// Leave the turn to itself.
    Detach,
    /// Nothing.
    Nothing,
}

/// How a turn ended.
#[derive(Clone, Debug)]
pub enum TurnEnd {
    /// It came to its end, perhaps with an error.
    Done(Option<String>),
    /// The user cancelled it.
    Cancelled,
    /// It was aborted because the worker is to end.
    ShutDown,
    /// It was left to itself.
    Detached,
}

/// What the worker does with an action while a turn runs; no action means that
/// there will be no more. A message waits in the queue, the stop of the loop
/// waits for the end of the turn, a shutdown aborts the turn and ends the
/// worker, and what cannot be done without the runtime is dropped.
pub open spec fn acted_in_turn(
    w: Worker,
    action: Option<UserAction>,
    v: Worker,
    r: TurnStep,
) -> bool {
    match action {
        None => v == w && r is Detach,
        Some(a) => match a {
            UserAction::ConfirmPlan => v == w && r is ApprovePlan,
            UserAction::RejectPlan(reason) => v == w && r == TurnStep::RejectPlan(reason),
            UserAction::ApprovePlanMode => v == w && r is ApprovePlanMode,
            UserAction::RejectPlanMode(reason) => v == w && r == TurnStep::RejectPlanMode(reason),
            UserAction::Interrupt => v == w && r is RaiseCancel,
            UserAction::Shutdown => v == (Worker { ended: true, ..w }) && r is Abort,
            UserAction::StopLoop => {
                &&& v == (Worker { stop_pending: w.turn is Some, ..w })
                &&& r is Nothing
            },
            UserAction::SendMessage(text) => message_queued(w, text, v) && r is Nothing,
            _ => v == w && r is Nothing,
        },
    }
}

/// Whether a turn was aborted.
pub open spec fn is_aborted(end: TurnEnd) -> bool {
    end is Cancelled || end is ShutDown
}

/// What the end of a turn alone asks for. What went wrong and that the turn was
/// cancelled is told in any case. Where the runtime came back, what an aborted
/// turn left in the transcript is taken back, and the turn is over.
pub open spec fn end_effects(end: TurnEnd, recovered: bool) -> Seq<Effect> {
    let told = match end {
        TurnEnd::Done(Some(message)) => seq![Effect::Emit(UiEvent::Error { message })],
        TurnEnd::Cancelled => seq![Effect::Emit(UiEvent::Interrupted)],
        _ => seq![],
    };
    told + effect_if(recovered && is_aborted(end), Effect::RewindTranscript) + effect_if(
        recovered,
        Effect::Emit(UiEvent::TurnFinished),
    ) + effect_if(recovered, Effect::LowerCancel)
}

/// The effect, if it is wanted.
pub open spec fn effect_if(wanted: bool, effect: Effect) -> Seq<Effect> {
    if wanted {
        seq![effect]
    } else {
        seq![]
    }
}

/// What the worker does at the end of a turn, given whether the runtime came
/// back. What an aborted turn left in the transcript is taken back, and the
/// messages that wait are dropped with it, unless the turn ran a skill. A loop
/// that is to stop stops now, and a worker that is to end closes its session.
pub open spec fn turn_ended(
    w: Worker,
    end: TurnEnd,
    recovered: bool,
    v: Worker,
    e: Seq<Effect>,
) -> bool {
    let ends = w.ended || end is ShutDown;
    &&& v == (Worker {
        turn: None,
        has_runtime: recovered,
        has_session: w.has_session && !ends,
        queued: v.queued,
        loop_state: if w.stop_pending {
            None
        } else {
            w.loop_state
        },
        stop_pending: false,
        ended: ends,
        ..w
    })
    &&& v.queued@ == if recovered && is_aborted(end) && w.turn == Some(TurnKind::Interactive) {
        seq![]
    } else {
        w.queued@
    }
    &&& e == end_effects(end, recovered) + effect_if(
        w.stop_pending,
        Effect::Emit(UiEvent::LoopStopped),
    ) + effect_if(ends && w.has_session, Effect::CloseSession)
}

/// What the end of a turn alone asks for.
fn effects_of_end(end: TurnEnd, recovered: bool) -> (r: Vec<Effect>)
    ensures
        r@ == end_effects(end, recovered),
{
    let ghost how = end;
    let mut r: Vec<Effect> = Vec::new();
    match end {
        TurnEnd::Done(Some(message)) => {
            r.push(Effect::Emit(UiEvent::Error { message }));
        },
        TurnEnd::Cancelled => {
            r.push(Effect::Emit(UiEvent::Interrupted));
            if recovered {
                r.push(Effect::RewindTranscript);
            }
        },
        TurnEnd::ShutDown => {
            if recovered {
                r.push(Effect::RewindTranscript);
            }
        },
        TurnEnd::Done(None) | TurnEnd::Detached => {},
    }
    if recovered {
        r.push(Effect::Emit(UiEvent::TurnFinished));
        r.push(Effect::LowerCancel);
    }
    proof {
        assert(r@ =~= end_effects(how, recovered));
    }
    r
}

impl Worker {
    /// Handles an action while a turn runs.
    pub fn handle_turn_action(&mut self, action: Option<UserAction>) -> (r: TurnStep)
        requires
            old(self).wf(),
        ensures
            acted_in_turn(*old(self), action, *final(self), r),
            final(self).wf(),
    {
        match action {
            None => TurnStep::Detach,
            Some(a) => match a {
                UserAction::ConfirmPlan => TurnStep::ApprovePlan,
                UserAction::RejectPlan(reason) => TurnStep::RejectPlan(reason),
                UserAction::ApprovePlanMode => TurnStep::ApprovePlanMode,
                UserAction::RejectPlanMode(reason) => TurnStep::RejectPlanMode(reason),
                UserAction::Interrupt => TurnStep::RaiseCancel,
                UserAction::Shutdown => {
                    self.ended = true;
                    TurnStep::Abort
                },
                UserAction::StopLoop => {
                    self.stop_pending = self.turn.is_some();
                    TurnStep::Nothing
                },
                UserAction::SendMessage(text) => {
                    self.queued.push_back(text);
                    TurnStep::Nothing
                },
                _ => TurnStep::Nothing,
            },
        }
    }

    /// Handles the end of a turn, given whether the runtime came back.
    pub fn finish_turn(&mut self, end: TurnEnd, recovered: bool) -> (r: Vec<Effect>)
        requires
            old(self).wf(),
            old(self).turn is Some,
        ensures
            turn_ended(*old(self), end, recovered, *final(self), r@),
            final(self).wf(),
    {
        let aborted: bool = match &end {
            TurnEnd::Cancelled | TurnEnd::ShutDown => true,
            _ => false,
        };
        let interactive: bool = match self.turn {
            Some(TurnKind::Interactive) => true,
            _ => false,
        };
        if let TurnEnd::ShutDown = &end {
            self.ended = true;
        }
        self.has_runtime = recovered;
        self.turn = None;
        if recovered && aborted && interactive {
            self.queued.clear();
            proof {
                assert(self.queued@ =~= seq![]);
            }
        }
        let mut r: Vec<Effect> = effects_of_end(end, recovered);
        let ghost alone = r@;
        if self.stop_pending {
            self.stop_pending = false;
            self.loop_state = None;
            r.push(Effect::Emit(UiEvent::LoopStopped));
        }
        if self.ended && self.has_session {
            self.has_session = false;
            r.push(Effect::CloseSession);
        }
        proof {
            assert(r@ =~= alone + effect_if(
                old(self).stop_pending,
                Effect::Emit(UiEvent::LoopStopped),
            ) + effect_if(self.ended && old(self).has_session, Effect::CloseSession));
        }
        r
    }
}

// ---------------------------------------------------------------------------
// WeChat
// ---------------------------------------------------------------------------

/// What becomes of a message of a WeChat user.
#[derive(Clone, Debug)]
pub enum WeixinStep {
    /// Run a turn on this text, then tell the interface and the user.
    Run(String),
    /// Tell the user that there is no answer.
    NoAnswer,
    /// Nothing: the runtime is not at hand.
    Nothing,
}

/// What becomes of a message of a WeChat user.
pub open spec fn message_received(
    w: Worker,
    user_id: String,
    text: String,
    told: Seq<UiEvent>,
    step: WeixinStep,
) -> bool {
    &&& told == if w.has_runtime && w.runtime is Ready {
        seq![UiEvent::WeixinMessage { user_id, text }, UiEvent::TurnStarted]
    } else {
        seq![UiEvent::WeixinMessage { user_id, text }]
    }
    &&& step == if w.runtime is Offline {
        WeixinStep::NoAnswer
    } else if w.has_runtime {
        WeixinStep::Run(text)
    } else {
        WeixinStep::Nothing
    }
}

impl Worker {
    /// Handles a message of a WeChat user: the interface is told of it, and the
    /// text is run as a turn where there is a runtime, which the interface is
    /// told too.
    pub fn handle_weixin(&self, user_id: String, text: String) -> (r: (Vec<UiEvent>, WeixinStep))
        ensures
            message_received(*self, user_id, text, r.0@, r.1),
    {
        let message: UiEvent = UiEvent::WeixinMessage { user_id, text: text.clone() };
        match &self.runtime {
            RuntimeBuild::Offline { .. } => (only(message), WeixinStep::NoAnswer),
            RuntimeBuild::Ready => {
                if self.has_runtime {
                    let ghost first = message;
                    let mut told: Vec<UiEvent> = only(message);
                    told.push(UiEvent::TurnStarted);
                    proof {
                        assert(told@ =~= seq![first, UiEvent::TurnStarted]);
                    }
                    (told, WeixinStep::Run(text))
                } else {
                    (only(message), WeixinStep::Nothing)
                }
            },
        }
    }
}

// ---------------------------------------------------------------------------
// Laws
// ---------------------------------------------------------------------------

/// Whether the loop has not run more turns than it may.
pub open spec fn within_cap(w: Worker) -> bool {
    w.loop_state matches Some(l) ==> l.max_turns > 0 ==> l.turns_run <= l.max_turns
}

/// A loop with a limit never runs more turns than the limit says: whatever the
/// worker does next, whichever decision of the arbiter it then carries out and
/// whatever action it handles, the turns it has counted stay within the limit.
pub proof fn loop_stays_within_its_cap(
    w: Worker,
    next: NextStep,
    v: Worker,
    d: ArbiterDecision,
    told: Seq<UiEvent>,
    action: Option<UserAction>,
    u: Worker,
)
    requires
        within_cap(w),
        stepped(w, v, next),
        next is Arbitrate ==> decided(v, d, u, told, action),
    ensures
        within_cap(v),
        next is Arbitrate ==> within_cap(u),
{
}

/// An action never makes a loop exceed its limit either.
pub proof fn actions_stay_within_the_cap(
    w: Worker,
    action: UserAction,
    goal_active: bool,
    v: Worker,
    e: Seq<Effect>,
)
    requires
        within_cap(w),
        acted(w, action, goal_active, v, e),
    ensures
        within_cap(v),
{
}

/// A loop whose limit is reached stops before anything else is done, even where
/// messages wait.
pub proof fn loop_stops_at_its_cap(w: Worker, l: LoopState, v: Worker, next: NextStep)
    requires
        w.loop_state == Some(l),
        l.max_turns > 0,
        l.turns_run == l.max_turns,
        stepped(w, v, next),
    ensures
        next is StopLoop,
        v.loop_state is None,
        v.queued@ == w.queued@,
{
}

/// A loop without a limit is never stopped by the count of its turns.
pub proof fn unlimited_loop_goes_on(w: Worker, l: LoopState, v: Worker, next: NextStep)
    requires
        w.loop_state == Some(l),
        l.max_turns == 0,
        stepped(w, v, next),
    ensures
        !(next is StopLoop),
        v.loop_state is Some,
{
}

/// Messages that come in while a turn runs are handled in the order in which
/// they came in: a message is handled once all that waited before it were.
pub proof fn messages_run_in_order(
    w: Worker,
    text: String,
    v: Worker,
    step: TurnStep,
    after: Worker,
    next: NextStep,
    u: Worker,
)
    requires
        acted_in_turn(w, Some(UserAction::SendMessage(text)), v, step),
        after.queued@ == v.queued@.skip(w.queued@.len() as int),
        after.loop_state is None,
        stepped(after, u, next),
    ensures
        forall|i: int| 0 <= i < w.queued@.len() ==> v.queued@[i] == w.queued@[i],
        next == NextStep::Act(UserAction::SendMessage(text)),
        u.queued@.len() == 0,
{
    assert(after.queued@ =~= seq![text]);
}

/// Whether an effect starts a turn.
pub open spec fn starts_turn(e: Effect) -> bool {
    e is RunTurn
}

/// Without a runtime no turn is ever started.
pub proof fn offline_runs_nothing(
    w: Worker,
    action: UserAction,
    goal_active: bool,
    v: Worker,
    e: Seq<Effect>,
)
    requires
        w.wf(),
        w.runtime is Offline,
        acted(w, action, goal_active, v, e),
    ensures
        v.turn is None,
        forall|i: int| 0 <= i < e.len() ==> !starts_turn(#[trigger] e[i]),
{
}

/// Why there is no runtime is said again, in the same words, to everyone who
/// asks for a turn.
pub proof fn offline_reason_is_repeated(
    w: Worker,
    reason: String,
    action: UserAction,
    v: Worker,
    e: Seq<Effect>,
)
    requires
        w.runtime == (RuntimeBuild::Offline { reason }),
        w.loop_state is None,
        action is SendMessage || action is RunSkillPrompt || action is SetGoal || action
            is StartLoop,
        acted(w, action, false, v, e),
    ensures
        e.len() > 0,
        e[0] == Effect::Emit(UiEvent::Error { message: reason }),
{
}

/// An action starts a turn if and only if the worker then waits for its end, and
/// no action is handled while it does.
pub proof fn turn_is_awaited(
    w: Worker,
    action: UserAction,
    goal_active: bool,
    v: Worker,
    e: Seq<Effect>,
)
    requires
        w.wf(),
        w.turn is None,
        acted(w, action, goal_active, v, e),
    ensures
        v.turn is Some <==> exists|i: int| 0 <= i < e.len() && starts_turn(#[trigger] e[i]),
{
    if v.turn is Some {
        let last = e.len() - 1;
        if action is SendMessage && !w.has_session {
            assert(e[last] == e.skip(1)[last - 1]);
        }
        assert(starts_turn(e[last]));
    } else {
        assert forall|i: int| 0 <= i < e.len() implies !starts_turn(#[trigger] e[i]) by {
            if action is StartLoop && !w.has_session && i > 0 {
                assert(e[i] == e.skip(1)[i - 1]);
            }
        }
    }
}

/// The interface is told of every turn that is started, right before it is.
pub proof fn every_turn_is_announced(
    w: Worker,
    action: UserAction,
    goal_active: bool,
    v: Worker,
    e: Seq<Effect>,
    i: int,
)
    requires
        w.wf(),
        w.turn is None,
        acted(w, action, goal_active, v, e),
        0 <= i < e.len(),
        starts_turn(e[i]),
    ensures
        i > 0,
        e[i - 1] == Effect::Emit(UiEvent::TurnStarted),
{
    if (action is SendMessage || action is StartLoop) && !w.has_session && i > 0 {
        assert(e[i] == e.skip(1)[i - 1]);
        if i > 1 {
            assert(e[i - 1] == e.skip(1)[i - 2]);
        }
    }
}

/// A goal and a loop exclude each other: neither is started while the other is
/// there.
pub proof fn goal_and_loop_exclude_each_other(
    w: Worker,
    goal: String,
    max_turns: u32,
    v: Worker,
    e: Seq<Effect>,
)
    requires
        w.wf(),
    ensures
        w.loop_state is Some && acted(
            w,
            UserAction::SetGoal { condition: goal, max_turns },
            false,
            v,
            e,
        ) ==> v == w && e.len() == 1 && (e[0] matches Effect::Emit(UiEvent::Error { .. })),
        w.has_runtime && acted(w, UserAction::StartLoop { goal, max_turns }, true, v, e) ==> v == w
            && e.len() == 1 && (e[0] matches Effect::Emit(UiEvent::Error { .. })),
{
}

/// After a turn that was cancelled the worker is where it was before, with the
/// runtime in its hands, and nothing that was typed during the turn is run.
pub proof fn cancelled_turn_leaves_nothing(
    w: Worker,
    text: String,
    v: Worker,
    e: Seq<Effect>,
    u: Worker,
    f: Seq<Effect>,
)
    requires
        w.wf(),
        w.has_runtime,
        w.has_session,
        !w.ended,
        w.queued@.len() == 0,
        w.turn is None,
        acted(w, UserAction::SendMessage(text), false, v, e),
        turn_ended(v, TurnEnd::Cancelled, true, u, f),
    ensures
        u.queued@ == w.queued@,
        u == (Worker { queued: u.queued, ..w }),
        f.contains(Effect::RewindTranscript),
{
    assert(u.queued@ =~= w.queued@);
    assert(f[1] == Effect::RewindTranscript);
}

/// A shutdown always ends the worker and closes its session, whether it finds
/// the worker waiting, the loop waiting for a trigger, or a turn running.
pub proof fn shutdown_ends_the_worker(
    w: Worker,
    decision: ArbiterDecision,
    step: TurnStep,
    mid: Worker,
    told: Seq<UiEvent>,
    action: Option<UserAction>,
    later: Worker,
    end: TurnEnd,
    recovered: bool,
    v: Worker,
    e: Seq<Effect>,
)
    requires
        ({
            ||| acted(w, UserAction::Shutdown, false, v, e)
            ||| {
                &&& arbitrated(w, Trigger::Action(UserAction::Shutdown), mid, decision) || drained(
                    w,
                    UserAction::Shutdown,
                    mid,
                    Some(decision),
                )
                &&& decided(mid, decision, later, told, action)
                &&& action matches Some(a) && acted(later, a, false, v, e)
            }
            ||| {
                &&& acted_in_turn(w, Some(UserAction::Shutdown), mid, step)
                &&& turn_ended(mid, end, recovered, v, e)
            }
        }),
    ensures
        v.ended,
        !v.has_session,
        w.has_session ==> e.contains(Effect::CloseSession),
{
    if w.has_session {
        assert(e.last() == Effect::CloseSession);
        assert(e[e.len() - 1] == Effect::CloseSession);
    }
}

/// The stop of a loop that comes in while a turn runs is not lost: the turn goes
/// on, and with its end the loop stops.
pub proof fn loop_stops_after_the_turn(
    w: Worker,
    step: TurnStep,
    mid: Worker,
    end: TurnEnd,
    recovered: bool,
    v: Worker,
    e: Seq<Effect>,
)
    requires
        w.turn is Some,
        acted_in_turn(w, Some(UserAction::StopLoop), mid, step),
        turn_ended(mid, end, recovered, v, e),
    ensures
        step is Nothing,
        mid.turn == w.turn,
        mid.loop_state == w.loop_state,
        v.loop_state is None,
        e.contains(Effect::Emit(UiEvent::LoopStopped)),
{
    assert(e[end_effects(end, recovered).len() as int] == Effect::Emit(UiEvent::LoopStopped));
}

/// No action is lost on its way through the arbiter but a second start of the
/// loop: each of the others is queued, runs a turn, stops the loop, or is handed
/// back to be handled, whether it was there before the arbiter began to wait or
/// came in while it did.
pub proof fn arbiter_loses_nothing(
    w: Worker,
    action: UserAction,
    v: Worker,
    r: Option<ArbiterDecision>,
    u: Worker,
    d: ArbiterDecision,
)
    requires
        drained(w, action, v, r),
        arbitrated(w, Trigger::Action(action), u, d),
        !(action is StartLoop),
    ensures
        match action {
            UserAction::SendMessage(text) => v.queued@ == w.queued@.push(text) && u.queued@
                == w.queued@.push(text),
            _ => {
                &&& r matches Some(x) && (x is Run <==> d is Run) && (x is Stop <==> d is Stop)
                    && (x is Forward <==> d is Forward)
                &&& d is Run || d is Stop || d == ArbiterDecision::Forward(action)
                &&& d is Forward ==> r == Some(d)
            },
        },
{
}

} // verus!
