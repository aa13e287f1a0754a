//! The worker: what becomes of the user's requests.
use vstd::prelude::*;
#[allow(unused_imports)]
use vstd::string::*;

use crate::backend::worker::{
    acted, acted_in_turn, arbitrated, decided, drained, message_received, started, stepped,
    turn_ended, ArbiterDecision, Effect, NextStep, Trigger, TurnEnd, TurnJob, TurnKind, TurnStep,
    WeixinStep, Worker,
};
use crate::events::{UiEvent, UserAction};
use crate::runtime_builder::RuntimeBuild;

verus! {

/// Whether the worker is at rest: it holds the runtime, and no turn runs.
pub open spec fn at_rest(w: Worker) -> bool {
    w.runtime is Ready && w.has_runtime && w.turn is None
}

/// Whether a list holds one item, and which.
pub open spec fn is_only(e: Seq<Effect>, effect: Effect) -> bool {
    e.len() == 1 && e[0] == effect
}

/// A message at rest runs one turn, on that message: the flag that cancels is
/// lowered and the turn announced before it runs, and before that the session
/// is opened where none was. Nothing else of the worker changes.
pub proof fn message_runs_its_turn(
    w: Worker,
    text: String,
    goal_active: bool,
    v: Worker,
    e: Seq<Effect>,
)
    requires
        at_rest(w),
        acted(w, UserAction::SendMessage(text), goal_active, v, e),
    ensures
        e.len() == if w.has_session {
            3nat
        } else {
            4nat
        },
        !w.has_session ==> (e[0] matches Effect::OpenSession(name) && (text@.len() <= 200 ==> name@
            == text@) && (text@.len() > 200 ==> name@ == text@.take(200))),
        e[e.len() - 3] is LowerCancel,
        e[e.len() - 2] == Effect::Emit(UiEvent::TurnStarted),
        e.last() == Effect::RunTurn(TurnJob::Message(text)),
        v.turn == Some(TurnKind::Interactive),
        !v.has_runtime,
        v.queued == w.queued,
        v.loop_state == w.loop_state,
        v.ended == w.ended,
{
    if !w.has_session {
        let rest = e.skip(1);
        assert(rest[0] == e[1] && rest[1] == e[2] && rest[2] == e[3]);
    }
}

/// A skill runs its own prompt, an accepted plan is worked off, and a goal is
/// worked towards with the turns that it was given: each in a turn that is
/// announced and that no old cancelling stops.
pub proof fn other_turns_run_what_they_are_for(
    w: Worker,
    action: UserAction,
    goal_active: bool,
    v: Worker,
    e: Seq<Effect>,
)
    requires
        at_rest(w),
        w.loop_state is None,
        action is RunSkillPrompt || action is ConfirmPlan || action is SetGoal,
        acted(w, action, goal_active, v, e),
    ensures
        e.len() >= 3,
        e[e.len() - 3] is LowerCancel,
        e[e.len() - 2] == Effect::Emit(UiEvent::TurnStarted),
        action matches UserAction::RunSkillPrompt { prompt } ==> e.last() == Effect::RunTurn(
            TurnJob::Skill(prompt),
        ) && v.turn == Some(TurnKind::Skill),
        action is ConfirmPlan ==> e.len() == 4 && e[0] is ConfirmPlan && e.last()
            == Effect::RunTurn(TurnJob::AcceptedPlan) && v.turn == Some(TurnKind::Interactive),
        action matches UserAction::SetGoal { condition, max_turns } ==> v.turn == Some(
            TurnKind::Interactive,
        ) && (e.last() matches Effect::RunTurn(
            TurnJob::Goal { prompt, condition: c, max_turns: m },
        ) && c == condition && m == max_turns && prompt@
            == "Start working towards the following goal: "@ + condition@
            + "\n\nContinue until the goal is achieved."@),
        !v.has_runtime,
        v.queued == w.queued,
        v.has_session == w.has_session,
{
}

/// What the runtime is asked for at rest is just what the user asked for, and the
/// worker stays as it is.
pub proof fn requests_are_handed_on(
    w: Worker,
    action: UserAction,
    goal_active: bool,
    v: Worker,
    e: Seq<Effect>,
)
    requires
        at_rest(w),
        acted(w, action, goal_active, v, e),
    ensures
        action matches UserAction::RejectPlan(reason) ==> v == w && is_only(
            e,
            Effect::RejectPlan(reason),
        ),
        action is ApprovePlanMode ==> v == w && is_only(e, Effect::ApprovePlanMode),
        action matches UserAction::RejectPlanMode(reason) ==> v == w && is_only(
            e,
            Effect::RejectPlanMode(reason),
        ),
        action is Compact ==> v == w && is_only(e, Effect::Compact),
        action is ClearGoal ==> v == w && is_only(e, Effect::ClearGoal),
        action is Interrupt ==> v == w && is_only(e, Effect::RaiseCancel),
        action is ListMcpServers ==> v == w && is_only(e, Effect::ListMcpServers),
        action matches UserAction::RunShell(command) ==> v == w && is_only(
            e,
            Effect::RunShell(command),
        ),
        action matches UserAction::ResumeSession { session_dir } ==> v == w && is_only(
            e,
            Effect::LoadSession(session_dir),
        ),
        action matches UserAction::SwitchModel { preset_id, model } ==> v == w && is_only(
            e,
            Effect::SwitchModel { preset_id, model },
        ),
        action is StopLoop ==> v.loop_state is None && v.queued == w.queued && is_only(
            e,
            Effect::Emit(UiEvent::LoopStopped),
        ),
        action is Shutdown ==> v.ended && !v.has_session && (w.has_session ==> is_only(
            e,
            Effect::CloseSession,
        )) && (!w.has_session ==> e.len() == 0),
        !(action is Shutdown) ==> v.ended == w.ended,
        !(e.len() > 0 && e.last() is RunTurn) ==> v.turn == w.turn && v.has_runtime
            == w.has_runtime,
{
}

/// A loop starts with the goal at the end of the queue, no turn counted, and the
/// limit that the user gave, and its first step handles that goal, which counts
/// as its first turn.
pub proof fn loop_starts_with_its_goal(
    w: Worker,
    goal: String,
    max_turns: u32,
    v: Worker,
    e: Seq<Effect>,
    u: Worker,
    next: NextStep,
)
    requires
        at_rest(w),
        w.loop_state is None,
        w.queued@.len() == 0,
        acted(w, UserAction::StartLoop { goal, max_turns }, false, v, e),
        stepped(v, u, next),
    ensures
        v.turn is None,
        v.queued@ == seq![goal],
        v.loop_state matches Some(l) && l.active && l.turns_run == 0 && l.max_turns == max_turns,
        next == NextStep::Act(UserAction::SendMessage(goal)),
        u.queued@.len() == 0,
        u.loop_state matches Some(l) && l.active && l.turns_run == 1 && l.max_turns == max_turns,
        forall|i: int| 0 <= i < e.len() ==> !(#[trigger] e[i] is RunTurn),
{
    assert(v.queued@ =~= seq![goal]);
    if !w.has_session {
        assert forall|i: int| 0 <= i < e.len() implies !(#[trigger] e[i] is RunTurn) by {
            if i > 0 {
                assert(e[i] == e.skip(1)[i - 1]);
            }
        }
    }
}

/// The goal of a loop waits behind all that waits already, a new session goes by it,
/// and the interface is told that the loop runs.
pub proof fn loop_waits_behind_the_messages(
    w: Worker,
    goal: String,
    max_turns: u32,
    v: Worker,
    e: Seq<Effect>,
)
    requires
        at_rest(w),
        w.loop_state is None,
        acted(w, UserAction::StartLoop { goal, max_turns }, false, v, e),
    ensures
        v.queued@ == w.queued@.push(goal),
        v.has_runtime && v.turn is None && v.ended == w.ended,
        w.has_session ==> e.len() == 1,
        !w.has_session ==> e.len() == 2 && (e[0] matches Effect::OpenSession(name) && (goal@.len()
            <= 200 ==> name@ == goal@)),
        e.last() is Emit && e.last()->Emit_0 is LoopStarted,
{
    if !w.has_session {
        assert(e.skip(1)[0] == e[1]);
    }
}

/// A trigger of a loop waits its turn behind all that waits already, under the
/// name of its source, and a trigger without a loop is refused.
pub proof fn trigger_waits_for_its_turn(
    w: Worker,
    source: String,
    prompt: String,
    goal_active: bool,
    v: Worker,
    e: Seq<Effect>,
)
    requires
        acted(w, UserAction::LoopTrigger { source, prompt }, goal_active, v, e),
    ensures
        w.loop_state is Some ==> e.len() == 0 && v.queued@.len() == w.queued@.len() + 1
            && v.queued@.drop_last() == w.queued@ && v.queued@.last()@ == "[trigger:"@ + source@
            + "] "@ + prompt@,
        w.loop_state is None ==> v == w && e.len() == 1 && e[0] is Emit && e[0]->Emit_0 is Error,
        v.turn == w.turn,
        v.loop_state == w.loop_state,
{
}

/// What waits is handled oldest first, one turn of the loop counted for each, and
/// what is behind it stays.
pub proof fn oldest_message_is_next(w: Worker, v: Worker, next: NextStep)
    requires
        stepped(w, v, next),
        w.queued@.len() > 0,
        w.loop_state matches Some(l) ==> l.max_turns == 0 || l.turns_run < l.max_turns,
    ensures
        next == NextStep::Act(UserAction::SendMessage(w.queued@[0])),
        v.queued@.len() == w.queued@.len() - 1,
        forall|i: int| 0 <= i < v.queued@.len() ==> #[trigger] v.queued@[i] == w.queued@[i + 1],
        w.loop_state is None ==> v.loop_state is None,
        w.loop_state matches Some(l) ==> l.turns_run < u32::MAX ==> (v.loop_state matches Some(m)
            && m.turns_run == l.turns_run + 1 && m.max_turns == l.max_turns && m.active
            == l.active),
        v.turn == w.turn,
        v.ended == w.ended,
{
}

/// Where nothing waits, an active loop waits for its triggers and the worker
/// without one for the user.
pub proof fn idle_worker_waits(w: Worker, v: Worker, next: NextStep)
    requires
        stepped(w, v, next),
        w.queued@.len() == 0,
        w.loop_state matches Some(l) ==> l.max_turns == 0 || l.turns_run < l.max_turns,
    ensures
        v == w,
        w.loop_state is None ==> next is Wait,
        w.loop_state matches Some(l) ==> (l.active ==> next is Arbitrate) && (!l.active ==> next
            is Wait),
{
}

/// A message that comes in while the loop waits is kept, behind what waits
/// already, and runs nothing by itself.
pub proof fn loop_keeps_messages(
    w: Worker,
    text: String,
    v: Worker,
    r: Option<ArbiterDecision>,
    u: Worker,
    d: ArbiterDecision,
)
    requires
        drained(w, UserAction::SendMessage(text), v, r),
        arbitrated(w, Trigger::Action(UserAction::SendMessage(text)), u, d),
    ensures
        r is None,
        d is Idle,
        v.queued@ == w.queued@.push(text),
        u.queued@ == w.queued@.push(text),
        v.loop_state == w.loop_state && u.loop_state == w.loop_state,
        v.ended == w.ended && u.ended == w.ended,
{
}

/// A trigger that comes in while the loop waits runs a turn on its prompt, under
/// the name of its source, at once; so does a job that is done, on what it put
/// out, and a wakeup, after its delay.
pub proof fn triggers_run_their_prompts(
    w: Worker,
    source: String,
    prompt: String,
    delay: u64,
    v: Worker,
    d: ArbiterDecision,
    trigger: Trigger,
    told: Seq<UiEvent>,
    action: Option<UserAction>,
    u: Worker,
)
    requires
        arbitrated(w, trigger, v, d),
        decided(v, d, u, told, action),
        w.loop_state is Some,
        trigger == Trigger::Action(UserAction::LoopTrigger { source, prompt }) || trigger
            == Trigger::JobDone(Some((source, prompt))) || trigger == (Trigger::Wakeup {
            prompt,
            delay_secs: delay,
        }),
    ensures
        action is Some,
        action->0 is SendMessage,
        trigger is Action ==> (action->0->SendMessage_0)@ == "[trigger:"@ + source@ + "] "@
            + prompt@,
        trigger is JobDone ==> (action->0->SendMessage_0)@ == "Background job '"@ + source@
            + "' completed:\n"@ + prompt@,
        trigger is Wakeup ==> (action->0->SendMessage_0)@ == prompt@,
        told.len() == 1,
        told[0] matches UiEvent::LoopTurnScheduled { source: s, delay_secs } && (trigger is Action
            ==> s@ == source@ && delay_secs is None) && (trigger is JobDone ==> s@
            == "bg-complete"@ && delay_secs is None) && (trigger is Wakeup ==> s@ == "wakeup"@
            && delay_secs == Some(delay)),
        w.loop_state matches Some(l) ==> l.turns_run < u32::MAX ==> (u.loop_state matches Some(m)
            && m.turns_run == l.turns_run + 1 && m.max_turns == l.max_turns),
        u.queued == w.queued,
{
}

/// The same trigger does the same, whether it was there before the loop began to
/// wait or came in while it did.
pub proof fn early_and_late_triggers_agree(
    w: Worker,
    action: UserAction,
    v: Worker,
    r: Option<ArbiterDecision>,
    u: Worker,
    d: ArbiterDecision,
)
    requires
        drained(w, action, v, r),
        arbitrated(w, Trigger::Action(action), u, d),
    ensures
        v.queued@ == u.queued@,
        v.ended == u.ended,
        v.loop_state == u.loop_state,
        r is None <==> d is Idle,
        r is Some ==> (r->0 is Run <==> d is Run) && (r->0 is Stop <==> d is Stop) && (r->0
            is Forward <==> d is Forward),
        r matches Some(ArbiterDecision::Forward(x)) ==> x == action && d
            == ArbiterDecision::Forward(action),
{
}

/// The loop is stopped by the user, by an interrupt, by a shutdown and by the end
/// of the requests, and by nothing else that comes in; the interface is told so.
pub proof fn loop_is_stopped_when_asked(
    w: Worker,
    trigger: Trigger,
    v: Worker,
    d: ArbiterDecision,
    told: Seq<UiEvent>,
    action: Option<UserAction>,
    u: Worker,
)
    requires
        arbitrated(w, trigger, v, d),
        decided(v, d, u, told, action),
        w.loop_state is Some,
        !w.ended,
    ensures
        u.loop_state is None <==> trigger == Trigger::Closed || trigger == Trigger::Action(
            UserAction::StopLoop,
        ) || trigger == Trigger::Action(UserAction::Interrupt) || trigger == Trigger::Action(
            UserAction::Shutdown,
        ),
        u.loop_state is None ==> told.len() == 1 && told[0] is LoopStopped,
        action == Some(UserAction::Shutdown) <==> trigger == Trigger::Action(UserAction::Shutdown),
        u.ended <==> trigger == Trigger::Action(UserAction::Shutdown),
{
}

/// While a turn runs, the answers to its questions reach it, an interrupt cancels
/// it, messages wait, and everything else leaves it alone.
pub proof fn running_turn_is_answered(
    w: Worker,
    action: UserAction,
    v: Worker,
    r: TurnStep,
)
    requires
        acted_in_turn(w, Some(action), v, r),
    ensures
        action is ConfirmPlan <==> r is ApprovePlan,
        action is RejectPlan <==> r is RejectPlan,
        action matches UserAction::RejectPlan(reason) ==> r == TurnStep::RejectPlan(reason),
        action is ApprovePlanMode <==> r is ApprovePlanMode,
        action is RejectPlanMode <==> r is RejectPlanMode,
        action matches UserAction::RejectPlanMode(reason) ==> r == TurnStep::RejectPlanMode(
            reason,
        ),
        action is Interrupt <==> r is RaiseCancel,
        action is Shutdown <==> r is Abort,
        v.ended <==> w.ended || action is Shutdown,
        action matches UserAction::SendMessage(text) ==> v.queued@ == w.queued@.push(text),
        !(action is SendMessage) ==> v.queued == w.queued,
        v.turn == w.turn,
        v.loop_state == w.loop_state,
        !(action is StopLoop) ==> v.stop_pending == w.stop_pending,
        action is StopLoop && w.turn is Some ==> v.stop_pending,
{
}

/// How a turn that gave the runtime back ended is told: an error in its own words,
/// an interrupt as one, and that the turn is over in any case. Only an aborted
/// turn is taken back, and only an aborted turn, other than a skill's, drops the
/// messages that wait.
pub proof fn end_of_the_turn_is_told(w: Worker, end: TurnEnd, v: Worker, e: Seq<Effect>)
    requires
        turn_ended(w, end, true, v, e),
    ensures
        v.has_runtime,
        v.turn is None,
        !v.stop_pending,
        e.contains(Effect::Emit(UiEvent::TurnFinished)),
        e.contains(Effect::LowerCancel),
        end matches TurnEnd::Done(Some(message)) ==> e[0] == Effect::Emit(
            UiEvent::Error { message },
        ),
        end is Cancelled ==> e[0] == Effect::Emit(UiEvent::Interrupted),
        end is Cancelled || end is ShutDown ==> e.contains(Effect::RewindTranscript),
        end is Done ==> forall|i: int|
            0 <= i < e.len() ==> !(#[trigger] e[i] is RewindTranscript) && e[i] != Effect::Emit(
                UiEvent::Interrupted,
            ),
        end is Done || w.turn == Some(TurnKind::Skill) ==> v.queued@ == w.queued@,
        (end is Cancelled || end is ShutDown) && w.turn == Some(TurnKind::Interactive)
            ==> v.queued@.len() == 0,
        w.stop_pending ==> v.loop_state is None && e.contains(Effect::Emit(UiEvent::LoopStopped)),
        !w.stop_pending ==> v.loop_state == w.loop_state,
        w.ended || end is ShutDown ==> v.ended && !v.has_session && (w.has_session ==> e.last()
            is CloseSession),
        !w.ended && !(end is ShutDown) ==> !v.ended && v.has_session == w.has_session,
{
    let n: int = match end {
        TurnEnd::Done(Some(_)) => 1,
        TurnEnd::Cancelled => 2,
        TurnEnd::ShutDown => 1,
        _ => 0,
    };
    assert(e[n] == Effect::Emit(UiEvent::TurnFinished));
    assert(e[n + 1] == Effect::LowerCancel);
    if end is Cancelled || end is ShutDown {
        assert(e[n - 1] == Effect::RewindTranscript);
    }
    if w.stop_pending {
        assert(e[n + 2] == Effect::Emit(UiEvent::LoopStopped));
    }
}

/// A turn that does not give the runtime back leaves the worker without one: what
/// went wrong is told all the same, nothing is taken back, what waits is kept, and a
/// loop that is to stop stops.
pub proof fn lost_turn_is_told(w: Worker, end: TurnEnd, v: Worker, e: Seq<Effect>)
    requires
        turn_ended(w, end, false, v, e),
    ensures
        !v.has_runtime,
        v.turn is None,
        v.queued@ == w.queued@,
        end matches TurnEnd::Done(Some(message)) ==> e.len() > 0 && e[0] == Effect::Emit(
            UiEvent::Error { message },
        ),
        end is Cancelled ==> e.len() > 0 && e[0] == Effect::Emit(UiEvent::Interrupted),
        forall|i: int|
            0 <= i < e.len() ==> !(#[trigger] e[i] is RewindTranscript) && !(e[i] is LowerCancel)
                && !(e[i] is RunTurn),
        w.stop_pending ==> v.loop_state is None && e.contains(Effect::Emit(UiEvent::LoopStopped)),
        !w.stop_pending ==> v.loop_state == w.loop_state,
        w.ended || end is ShutDown ==> v.ended && !v.has_session && (w.has_session ==> e.len() > 0
            && e.last() is CloseSession),
        !w.ended && !(end is ShutDown) ==> !v.ended && v.has_session == w.has_session,
{
    let n: int = match end {
        TurnEnd::Done(Some(_)) => 1,
        TurnEnd::Cancelled => 1,
        _ => 0,
    };
    if w.stop_pending {
        assert(e[n] == Effect::Emit(UiEvent::LoopStopped));
    }
}

/// Without a runtime the user is told why, and nothing of the worker changes but
/// that a loop can still be stopped and the worker shut down.
pub proof fn offline_worker_says_so(
    w: Worker,
    reason: String,
    action: UserAction,
    v: Worker,
    e: Seq<Effect>,
)
    requires
        w.runtime == (RuntimeBuild::Offline { reason }),
        w.wf(),
        w.loop_state is None,
        acted(w, action, false, v, e),
    ensures
        !(action is Shutdown) ==> v == w,
        action is SendMessage || action is RunSkillPrompt ==> e.len() == 2 && e[0] == Effect::Emit(
            UiEvent::Error { message: reason },
        ) && e[1] == Effect::Emit(UiEvent::TurnFinished),
        action is SetGoal || action is StartLoop ==> e.len() == 1 && e[0] == Effect::Emit(
            UiEvent::Error { message: reason },
        ),
        action is SwitchModel ==> e.len() == 1 && (e[0] matches Effect::Emit(
            UiEvent::Error { message },
        ) && message@ == "switch model unavailable offline: "@ + reason@),
        action is Compact ==> e.len() == 1 && (e[0] matches Effect::Emit(
            UiEvent::Error { message },
        ) && message@ == "compact unavailable in offline mode"@),
        action matches UserAction::RunShell(command) ==> is_only(e, Effect::RunShell(command)),
        forall|i: int| 0 <= i < e.len() ==> !(#[trigger] e[i] is RunTurn),
{
}

/// A worker starts at rest, and the interface is told whether there is a runtime, and
/// if not, why.
pub proof fn worker_starts_at_rest(runtime: RuntimeBuild, w: Worker, first: UiEvent)
    requires
        started(runtime, w, first),
    ensures
        runtime is Ready ==> at_rest(w) && first is RuntimeReady,
        runtime matches RuntimeBuild::Offline { reason } ==> !w.has_runtime && w.turn is None && (
        first matches UiEvent::RuntimeOffline { reason: why } && why == reason),
        w.queued@.len() == 0,
        w.loop_state is None,
        !w.has_session,
        !w.ended,
{
}

/// The interface is told of every message of a WeChat user, from whom it is and what
/// it says, before anything is done with it. It is run as it is where the worker
/// holds the runtime, and else it is not run.
pub proof fn wechat_message_is_run(
    w: Worker,
    user_id: String,
    text: String,
    told: Seq<UiEvent>,
    step: WeixinStep,
)
    requires
        w.wf(),
        message_received(w, user_id, text, told, step),
    ensures
        told.len() > 0,
        told[0] matches UiEvent::WeixinMessage { user_id: u, text: t } && u == user_id && t == text,
        step is Run <==> w.has_runtime,
        step matches WeixinStep::Run(t) ==> t == text && told.len() == 2 && told[1] is TurnStarted,
        !(step is Run) ==> told.len() == 1,
        step is NoAnswer <==> w.runtime is Offline,
{
}

} // verus!
