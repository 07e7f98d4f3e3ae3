//! The decisions of one agent turn. The caller performs the actions (asking
//! the model, calling tools, sleeping, reporting) and feeds back what
//! happened; the turn decides what comes next.
use vstd::prelude::*;
use vstd::arithmetic::power2::{lemma2_to64, pow2};
use crate::text::{concat2, decimal, decimal_string, owned};

verus! {

/// What asking the model for a completion gave.
pub enum CompletionOutcome {
    /// A message; `tool_calls` is the number of tool calls it requests, if
    /// it has a tool call list at all.
    Completed { tool_calls: Option<usize> },
    /// The request was cancelled.
    Cancelled,
    /// The provider refused for now; `wait` is the number of seconds chosen
    /// to wait before the next try.
    RateLimited { wait: u64 },
    /// The request failed with this message.
    Failed(String),
}

/// What happened since the last decision.
pub enum TurnEvent {
    /// An iteration is about to begin; `cancelled` tells whether the user
    /// cancelled the turn.
    IterationStart { cancelled: bool },
    /// The model answered.
    Completion(CompletionOutcome),
    /// The current tool call finished.
    ToolFinished,
    /// The turn was cancelled while a tool was running.
    ToolCancelled,
}

/// What the caller must do next, in order.
pub enum TurnAction {
    /// Show this status ("" clears it).
    Status(String),
    /// Show this message from the harness.
    Harness(String),
    /// Ask the model for the next message.
    RequestCompletion,
    /// Wait this many seconds.
    Sleep(u64),
    /// Show the model's message and append it to the history.
    ForwardAssistant,
    /// Call the next requested tool and record its response.
    CallTool,
    /// Record a response for the interrupted tool call saying it was cancelled.
    RecordCancelledTool,
    /// Hand the updated history back.
    UpdateHistory,
}

/// Where the turn is.
#[derive(Debug, Clone, Copy, PartialEq, Eq, Structural)]
pub enum TurnPhase {
    /// An iteration is about to begin.
    StartIteration,
    /// Waiting for the model; `tries` counts the requests of this iteration.
    AwaitingCompletion { tries: u32 },
    /// Running the requested tools; `done` of `total` have finished.
    RunningTools { total: usize, done: usize },
    /// The turn is over.
    Finished,
}

/// The state of one agent turn.
#[derive(Debug, Clone, Copy, PartialEq, Eq, Structural)]
pub struct AgentTurn {
    /// The current iteration, counted from 1.
    pub iteration: i32,
    /// The configured maximum number of iterations.
    pub max_iterations: i32,
    pub phase: TurnPhase,
}

/// The most requests one iteration makes when rate limited.
pub open spec fn max_tries() -> u32 {
    10
}

/// The longest wait, in seconds, after a rate limit: five seconds doubled on
/// every try, at most a minute.
pub open spec fn rate_limit_cap(tries: nat) -> nat {
    if 5 * pow2(tries) > 60 {
        60
    } else {
        5 * pow2(tries)
    }
}

/// The view of an action, for contracts.
pub enum ActionView {
    Status(Seq<char>),
    Harness(Seq<char>),
    RequestCompletion,
    Sleep(u64),
    ForwardAssistant,
    CallTool,
    RecordCancelledTool,
    UpdateHistory,
}

impl TurnAction {
    pub open spec fn view(&self) -> ActionView {
        match self {
            TurnAction::Status(s) => ActionView::Status(s@),
            TurnAction::Harness(s) => ActionView::Harness(s@),
            TurnAction::RequestCompletion => ActionView::RequestCompletion,
            TurnAction::Sleep(n) => ActionView::Sleep(*n),
            TurnAction::ForwardAssistant => ActionView::ForwardAssistant,
            TurnAction::CallTool => ActionView::CallTool,
            TurnAction::RecordCancelledTool => ActionView::RecordCancelledTool,
            TurnAction::UpdateHistory => ActionView::UpdateHistory,
        }
    }
}

/// The views of a list of actions.
pub open spec fn views(actions: Seq<TurnAction>) -> Seq<ActionView> {
    actions.map_values(|a: TurnAction| a.view())
}

/// The view of a completion outcome, for contracts.
pub enum OutcomeView {
    Completed { tool_calls: Option<usize> },
    Cancelled,
    RateLimited { wait: u64 },
    Failed(Seq<char>),
}

/// The view of an event, for contracts.
pub enum EventView {
    IterationStart { cancelled: bool },
    Completion(OutcomeView),
    ToolFinished,
    ToolCancelled,
}

impl TurnEvent {
    pub open spec fn view(&self) -> EventView {
        match self {
            TurnEvent::IterationStart { cancelled } => EventView::IterationStart {
                cancelled: *cancelled,
            },
            TurnEvent::Completion(o) => EventView::Completion(
                match o {
                    CompletionOutcome::Completed { tool_calls } => OutcomeView::Completed {
                        tool_calls: *tool_calls,
                    },
                    CompletionOutcome::Cancelled => OutcomeView::Cancelled,
                    CompletionOutcome::RateLimited { wait } => OutcomeView::RateLimited {
                        wait: *wait,
                    },
                    CompletionOutcome::Failed(m) => OutcomeView::Failed(m@),
                },
            ),
            TurnEvent::ToolFinished => EventView::ToolFinished,
            TurnEvent::ToolCancelled => EventView::ToolCancelled,
        }
    }
}

/// The notice shown at the start of long turns: at iteration 3, every tenth
/// iteration, and the last one.
pub open spec fn iteration_notice(iteration: int, max: int) -> Option<Seq<char>> {
    if iteration >= 3 && (iteration % 10 == 0 || iteration == 3 || iteration == max) {
        Some("🔁 Iteration "@ + decimal(iteration as nat) + "/"@ + decimal(max as nat))
    } else {
        None
    }
}

/// The actions that end a turn.
pub open spec fn finish_actions() -> Seq<ActionView> {
    seq![ActionView::UpdateHistory, ActionView::Status(""@)]
}

/// The state after finishing the last tool call (or a message asking for
/// no tool at all): the next iteration, or the end.
pub open spec fn next_iteration(t: AgentTurn) -> (AgentTurn, Seq<ActionView>) {
    if t.iteration < t.max_iterations {
        (AgentTurn { iteration: (t.iteration + 1) as i32, phase: TurnPhase::StartIteration, ..t }, seq![])
    } else {
        (AgentTurn { phase: TurnPhase::Finished, ..t }, finish_actions())
    }
}

/// The state after the turn ends.
pub open spec fn finished(t: AgentTurn) -> AgentTurn {
    AgentTurn { phase: TurnPhase::Finished, ..t }
}

/// The next state and the actions, for each state and event.
pub open spec fn spec_step(t: AgentTurn, e: EventView) -> (AgentTurn, Seq<ActionView>) {
    match (t.phase, e) {
        (TurnPhase::StartIteration, EventView::IterationStart { cancelled }) => {
            if cancelled {
                (finished(t), finish_actions())
            } else {
                let notice = match iteration_notice(t.iteration as int, t.max_iterations as int) {
                    Some(n) => seq![ActionView::Harness(n)],
                    None => seq![],
                };
                (
                    AgentTurn { phase: TurnPhase::AwaitingCompletion { tries: 1 }, ..t },
                    seq![ActionView::Status("Waiting"@)] + notice + seq![
                        ActionView::Status("Waiting"@),
                        ActionView::RequestCompletion,
                    ],
                )
            }
        },
        (TurnPhase::AwaitingCompletion { tries }, EventView::Completion(o)) => match o {
            OutcomeView::Completed { tool_calls } => match tool_calls {
                None => (finished(t), seq![ActionView::ForwardAssistant] + finish_actions()),
                Some(n) => if n == 0 {
                    let nx = next_iteration(t);
                    (
                        nx.0,
                        seq![ActionView::ForwardAssistant, ActionView::Status("Calling Tools"@)]
                            + nx.1,
                    )
                } else {
                    (
                        AgentTurn { phase: TurnPhase::RunningTools { total: n, done: 0 }, ..t },
                        seq![
                            ActionView::ForwardAssistant,
                            ActionView::Status("Calling Tools"@),
                            ActionView::CallTool,
                        ],
                    )
                },
            },
            OutcomeView::Cancelled => (
                finished(t),
                seq![ActionView::Harness("Assistant turn cancelled."@), ActionView::Status(""@)]
                    + finish_actions(),
            ),
            OutcomeView::RateLimited { wait } => {
                let waited = seq![
                    ActionView::Harness(
                        "Rate limited, retrying in "@ + decimal(wait as nat) + "s ("@ + decimal(
                            tries as nat,
                        ) + "/10)"@,
                    ),
                    ActionView::Status(
                        "Waiting out Rate Limit ("@ + decimal(wait as nat) + "s "@ + decimal(
                            tries as nat,
                        ) + "/10)"@,
                    ),
                    ActionView::Sleep(wait),
                ];
                if tries < max_tries() {
                    (
                        AgentTurn {
                            phase: TurnPhase::AwaitingCompletion { tries: (tries + 1) as u32 },
                            ..t
                        },
                        waited + seq![ActionView::Status("Waiting"@), ActionView::RequestCompletion],
                    )
                } else {
                    (
                        finished(t),
                        waited + seq![
                            ActionView::Harness("Exhausted all retries due to rate limits."@),
                            ActionView::Status(""@),
                        ] + finish_actions(),
                    )
                }
            },
            OutcomeView::Failed(m) => (
                finished(t),
                seq![
                    ActionView::Harness("Assistant returned error:\n\t"@ + m),
                    ActionView::Status(""@),
                ] + finish_actions(),
            ),
        },
        (TurnPhase::RunningTools { total, done }, EventView::ToolFinished) => {
            if done + 1 >= total {
                next_iteration(t)
            } else {
                (
                    AgentTurn {
                        phase: TurnPhase::RunningTools { total, done: (done + 1) as usize },
                        ..t
                    },
                    seq![ActionView::CallTool],
                )
            }
        },
        (TurnPhase::RunningTools { .. }, EventView::ToolCancelled) => (
            finished(t),
            seq![
                ActionView::RecordCancelledTool,
                ActionView::Harness("Assistant turn cancelled during tool call."@),
                ActionView::Status(""@),
            ] + finish_actions(),
        ),
        _ => (t, seq![]),
    }
}

/// The turn's bookkeeping is consistent.
pub open spec fn turn_wf(t: AgentTurn) -> bool {
    match t.phase {
        TurnPhase::Finished => true,
        TurnPhase::StartIteration => 1 <= t.iteration <= t.max_iterations,
        TurnPhase::AwaitingCompletion { tries } => 1 <= t.iteration <= t.max_iterations && 1
            <= tries <= max_tries(),
        TurnPhase::RunningTools { total, done } => 1 <= t.iteration <= t.max_iterations && done
            < total,
    }
}

fn status(s: &str) -> (r: TurnAction)
    ensures
        r.view() == ActionView::Status(s@),
{
    TurnAction::Status(owned(s))
}

fn harness(s: &str) -> (r: TurnAction)
    ensures
        r.view() == ActionView::Harness(s@),
{
    TurnAction::Harness(owned(s))
}

fn push_finish(actions: &mut Vec<TurnAction>)
    ensures
        views(final(actions)@) == views(old(actions)@) + finish_actions(),
{
    let ghost before = actions@;
    actions.push(TurnAction::UpdateHistory);
    actions.push(status(""));
    assert(views(actions@) =~= views(before) + finish_actions());
}

/// `5 * 2^tries`, at most a minute.
pub fn rate_limit_wait_cap(tries: u32) -> (r: u64)
    requires
        tries <= max_tries(),
    ensures
        r == rate_limit_cap(tries as nat),
{
    let mut p: u64 = 1;
    let mut i: u32 = 0;
    proof {
        lemma2_to64();
    }
    while i < tries
        invariant
            i <= tries <= 10,
            p == pow2(i as nat),
            p <= 1024,
        decreases tries - i,
    {
        proof {
            vstd::arithmetic::power2::lemma_pow2_unfold((i + 1) as nat);
            vstd::arithmetic::power2::lemma_pow2_strictly_increases(i as nat, 10);
            lemma2_to64();
        }
        p = p * 2;
        i = i + 1;
        proof {
            if i < 10 {
                vstd::arithmetic::power2::lemma_pow2_strictly_increases(i as nat, 10);
            }
        }
    }
    let w = 5 * p;
    if w > 60 {
        60
    } else {
        w
    }
}

/// A number of seconds between `lo` and `hi`, chosen at random. Trusted:
/// `rand::random_range` on an inclusive range returns a value inside it.
#[verifier::external_body]
fn random_seconds(lo: u64, hi: u64) -> (r: u64)
    requires
        lo <= hi,
    ensures
        lo <= r <= hi,
{
    rand::random_range(lo..=hi)
}

/// The wait after the `tries`-th rate limit: between one second and the cap.
pub fn choose_rate_limit_wait(tries: u32) -> (r: u64)
    requires
        tries <= max_tries(),
    ensures
        1 <= r <= rate_limit_cap(tries as nat),
{
    let cap = rate_limit_wait_cap(tries);
    proof {
        vstd::arithmetic::power2::lemma_pow2_pos(tries as nat);
    }
    random_seconds(1, cap)
}

/// The notice shown at the start of an iteration of a long turn.
pub fn iteration_notice_text(iteration: i32, max: i32) -> (r: Option<String>)
    requires
        iteration <= max,
    ensures
        match r {
            Some(s) => iteration_notice(iteration as int, max as int) == Some(s@),
            None => iteration_notice(iteration as int, max as int) is None,
        },
{
    if iteration >= 3 && (iteration % 10 == 0 || iteration == 3 || iteration == max) {
        let mut s = concat2("🔁 Iteration ", decimal_string(iteration as u64).as_str());
        s.append("/");
        s.append(decimal_string(max as u64).as_str());
        Some(s)
    } else {
        None
    }
}

impl AgentTurn {
    /// A new turn of at most `max_iterations` iterations; with none allowed it
    /// ends at once.
    pub fn start(max_iterations: i32) -> (r: (AgentTurn, Vec<TurnAction>))
        ensures
            turn_wf(r.0),
            r.0.max_iterations == max_iterations,
            r.0.iteration == 1,
            max_iterations >= 1 ==> r.0.phase == TurnPhase::StartIteration && r.1@.len() == 0,
            max_iterations < 1 ==> r.0.phase == TurnPhase::Finished && views(r.1@)
                == finish_actions(),
    {
        let t = AgentTurn { iteration: 1, max_iterations, phase: TurnPhase::StartIteration };
        let mut actions: Vec<TurnAction> = Vec::new();
        if max_iterations >= 1 {
            (t, actions)
        } else {
            push_finish(&mut actions);
            assert(views(actions@) =~= finish_actions());
            (AgentTurn { phase: TurnPhase::Finished, ..t }, actions)
        }
    }

    /// The next state and what to do, given what happened.
    pub fn step(&self, event: &TurnEvent) -> (r: (AgentTurn, Vec<TurnAction>))
        requires
            turn_wf(*self),
        ensures
            (r.0, views(r.1@)) == spec_step(*self, event.view()),
    {
        let t = *self;
        let mut actions: Vec<TurnAction> = Vec::new();
        match (t.phase, event) {
            (TurnPhase::StartIteration, TurnEvent::IterationStart { cancelled }) => {
                if *cancelled {
                    push_finish(&mut actions);
                    assert(views(actions@) =~= finish_actions());
                    (AgentTurn { phase: TurnPhase::Finished, ..t }, actions)
                } else {
                    actions.push(status("Waiting"));
                    let ghost a0 = actions@;
                    match iteration_notice_text(t.iteration, t.max_iterations) {
                        Some(n) => {
                            let ghost nv = n@;
                            actions.push(TurnAction::Harness(n));
                            assert(views(actions@) =~= seq![ActionView::Status("Waiting"@)] + seq![
                                ActionView::Harness(nv),
                            ]);
                        },
                        None => {
                            assert(views(actions@) =~= seq![ActionView::Status("Waiting"@)]
                                + Seq::<ActionView>::empty());
                        },
                    }
                    let ghost a1 = views(actions@);
                    actions.push(status("Waiting"));
                    actions.push(TurnAction::RequestCompletion);
                    assert(views(actions@) =~= a1 + seq![
                        ActionView::Status("Waiting"@),
                        ActionView::RequestCompletion,
                    ]);
                    (AgentTurn { phase: TurnPhase::AwaitingCompletion { tries: 1 }, ..t }, actions)
                }
            },
            (TurnPhase::AwaitingCompletion { tries }, TurnEvent::Completion(o)) => match o {
                CompletionOutcome::Completed { tool_calls } => match tool_calls {
                    None => {
                        actions.push(TurnAction::ForwardAssistant);
                        push_finish(&mut actions);
                        assert(views(actions@) =~= seq![ActionView::ForwardAssistant]
                            + finish_actions());
                        (AgentTurn { phase: TurnPhase::Finished, ..t }, actions)
                    },
                    Some(n) => {
                        actions.push(TurnAction::ForwardAssistant);
                        actions.push(status("Calling Tools"));
                        let ghost a1 = views(actions@);
                        if *n == 0 {
                            let r = self.advance(actions);
                            r
                        } else {
                            actions.push(TurnAction::CallTool);
                            assert(views(actions@) =~= seq![
                                ActionView::ForwardAssistant,
                                ActionView::Status("Calling Tools"@),
                                ActionView::CallTool,
                            ]);
                            (
                                AgentTurn {
                                    phase: TurnPhase::RunningTools { total: *n, done: 0 },
                                    ..t
                                },
                                actions,
                            )
                        }
                    },
                },
                CompletionOutcome::Cancelled => {
                    actions.push(harness("Assistant turn cancelled."));
                    actions.push(status(""));
                    push_finish(&mut actions);
                    assert(views(actions@) =~= seq![
                        ActionView::Harness("Assistant turn cancelled."@),
                        ActionView::Status(""@),
                    ] + finish_actions());
                    (AgentTurn { phase: TurnPhase::Finished, ..t }, actions)
                },
                CompletionOutcome::RateLimited { wait } => {
                    let w = decimal_string(*wait);
                    let k = decimal_string(tries as u64);
                    let mut m1 = concat2("Rate limited, retrying in ", w.as_str());
                    m1.append("s (");
                    m1.append(k.as_str());
                    m1.append("/10)");
                    let mut m2 = concat2("Waiting out Rate Limit (", w.as_str());
                    m2.append("s ");
                    m2.append(k.as_str());
                    m2.append("/10)");
                    let ghost v1 = m1@;
                    let ghost v2 = m2@;
                    actions.push(TurnAction::Harness(m1));
                    actions.push(TurnAction::Status(m2));
                    actions.push(TurnAction::Sleep(*wait));
                    let ghost waited = views(actions@);
                    assert(waited =~= seq![
                        ActionView::Harness(v1),
                        ActionView::Status(v2),
                        ActionView::Sleep(*wait),
                    ]);
                    if tries < 10 {
                        actions.push(status("Waiting"));
                        actions.push(TurnAction::RequestCompletion);
                        assert(views(actions@) =~= waited + seq![
                            ActionView::Status("Waiting"@),
                            ActionView::RequestCompletion,
                        ]);
                        (
                            AgentTurn {
                                phase: TurnPhase::AwaitingCompletion { tries: tries + 1 },
                                ..t
                            },
                            actions,
                        )
                    } else {
                        actions.push(harness("Exhausted all retries due to rate limits."));
                        actions.push(status(""));
                        let ghost a2 = views(actions@);
                        assert(a2 =~= waited + seq![
                            ActionView::Harness("Exhausted all retries due to rate limits."@),
                            ActionView::Status(""@),
                        ]);
                        push_finish(&mut actions);
                        (AgentTurn { phase: TurnPhase::Finished, ..t }, actions)
                    }
                },
                CompletionOutcome::Failed(m) => {
                    actions.push(TurnAction::Harness(concat2("Assistant returned error:\n\t", m.as_str())));
                    actions.push(status(""));
                    push_finish(&mut actions);
                    assert(views(actions@) =~= seq![
                        ActionView::Harness("Assistant returned error:\n\t"@ + m@),
                        ActionView::Status(""@),
                    ] + finish_actions());
                    (AgentTurn { phase: TurnPhase::Finished, ..t }, actions)
                },
            },
            (TurnPhase::RunningTools { total, done }, TurnEvent::ToolFinished) => {
                if done + 1 >= total {
                    self.advance(actions)
                } else {
                    actions.push(TurnAction::CallTool);
                    assert(views(actions@) =~= seq![ActionView::CallTool]);
                    (
                        AgentTurn {
                            phase: TurnPhase::RunningTools { total, done: done + 1 },
                            ..t
                        },
                        actions,
                    )
                }
            },
            (TurnPhase::RunningTools { .. }, TurnEvent::ToolCancelled) => {
                actions.push(TurnAction::RecordCancelledTool);
                actions.push(harness("Assistant turn cancelled during tool call."));
                actions.push(status(""));
                push_finish(&mut actions);
                assert(views(actions@) =~= seq![
                    ActionView::RecordCancelledTool,
                    ActionView::Harness("Assistant turn cancelled during tool call."@),
                    ActionView::Status(""@),
                ] + finish_actions());
                (AgentTurn { phase: TurnPhase::Finished, ..t }, actions)
            },
            _ => {
                assert(views(actions@) =~= Seq::<ActionView>::empty());
                (t, actions)
            },
        }
    }

    /// Moves to the next iteration, or ends the turn after the last one;
    /// `actions` are those already decided.
    fn advance(&self, actions: Vec<TurnAction>) -> (r: (AgentTurn, Vec<TurnAction>))
        ensures
            r.0 == next_iteration(*self).0,
            views(r.1@) == views(actions@) + next_iteration(*self).1,
    {
        let t = *self;
        let mut actions = actions;
        if t.iteration < t.max_iterations {
            assert(views(actions@) =~= views(actions@) + Seq::<ActionView>::empty());
            (AgentTurn { iteration: t.iteration + 1, phase: TurnPhase::StartIteration, ..t }, actions)
        } else {
            push_finish(&mut actions);
            (AgentTurn { phase: TurnPhase::Finished, ..t }, actions)
        }
    }
}

// ---------------------------------------------------------------------
// Laws
// ---------------------------------------------------------------------

/// Every step keeps the turn's bookkeeping consistent: the iteration never
/// passes the maximum, and an iteration makes at most ten requests.
pub proof fn law_step_keeps_wf(t: AgentTurn, e: EventView)
    requires
        turn_wf(t),
    ensures
        turn_wf(spec_step(t, e).0),
        spec_step(t, e).0.max_iterations == t.max_iterations,
{
}

/// A finished turn stays finished and does nothing more.
pub proof fn law_finished_is_final(t: AgentTurn, e: EventView)
    requires
        t.phase == TurnPhase::Finished,
    ensures
        spec_step(t, e).0 == t,
        spec_step(t, e).1.len() == 0,
{
}

/// Whenever a turn ends, its last actions hand the history back and clear
/// the status.
pub proof fn law_end_hands_back_history(t: AgentTurn, e: EventView)
    requires
        t.phase != TurnPhase::Finished,
        spec_step(t, e).0.phase == TurnPhase::Finished,
    ensures
        spec_step(t, e).1.len() >= 2,
        spec_step(t, e).1.subrange(spec_step(t, e).1.len() - 2, spec_step(t, e).1.len() as int)
            == finish_actions(),
{
    let r = spec_step(t, e);
    assert(r.1.subrange(r.1.len() - 2, r.1.len() as int) =~= finish_actions());
}

/// How far a turn is from its end: iterations left, then the phase, then
/// the requests or tool calls left in it.
pub open spec fn measure(t: AgentTurn) -> (int, int, int) {
    match t.phase {
        TurnPhase::Finished => (0, 0, 0),
        TurnPhase::StartIteration => (t.max_iterations - t.iteration, 3, 0),
        TurnPhase::AwaitingCompletion { tries } => (
            t.max_iterations - t.iteration,
            2,
            max_tries() - tries,
        ),
        TurnPhase::RunningTools { total, done } => (t.max_iterations - t.iteration, 1, total - done),
    }
}

/// The measure decreases lexicographically.
pub open spec fn measure_lt(a: (int, int, int), b: (int, int, int)) -> bool {
    a.0 < b.0 || (a.0 == b.0 && (a.1 < b.1 || (a.1 == b.1 && a.2 < b.2)))
}

/// Every step that changes the turn brings it closer to its end, so a turn
/// always ends; a step that changes nothing does nothing.
pub proof fn law_turn_terminates(t: AgentTurn, e: EventView)
    requires
        turn_wf(t),
        t.phase != TurnPhase::Finished,
    ensures
        spec_step(t, e).0 != t ==> measure_lt(measure(spec_step(t, e).0), measure(t)) && 0
            <= measure(spec_step(t, e).0).0,
        spec_step(t, e).0 == t ==> spec_step(t, e).1.len() == 0,
{
}

/// Each finished tool call leads to exactly one more call or to the end of
/// the tool calls of this message: a message's tool calls are all run, one
/// after the other, unless the turn is cancelled.
pub proof fn law_tools_run_in_order(t: AgentTurn, total: usize, done: usize)
    requires
        t.phase == (TurnPhase::RunningTools { total, done }),
        done < total,
    ensures
        done + 1 < total ==> spec_step(t, EventView::ToolFinished).0.phase == (
        TurnPhase::RunningTools { total, done: (done + 1) as usize })
            && spec_step(t, EventView::ToolFinished).1 == seq![ActionView::CallTool],
        done + 1 == total ==> spec_step(t, EventView::ToolFinished).0 == next_iteration(t).0,
{
}

/// The state and the actions after `k` tool calls of the current message
/// finished, one after the other.
pub open spec fn after_tools(t: AgentTurn, k: nat) -> (AgentTurn, Seq<ActionView>)
    decreases k,
{
    if k == 0 {
        (t, Seq::empty())
    } else {
        let p = after_tools(t, (k - 1) as nat);
        let s = spec_step(p.0, EventView::ToolFinished);
        (s.0, p.1 + s.1)
    }
}

/// While a message's tool calls run, the first `k` finished calls each led
/// to the next call.
proof fn lemma_after_tools(t: AgentTurn, n: usize, k: nat)
    requires
        t.phase == (TurnPhase::RunningTools { total: n, done: 0 }),
        k < n,
    ensures
        after_tools(t, k).0 == (AgentTurn { phase: TurnPhase::RunningTools { total: n, done: k as usize }, ..t }),
        after_tools(t, k).1 == Seq::new(k, |i: int| ActionView::CallTool),
    decreases k,
{
    if k > 0 {
        lemma_after_tools(t, n, (k - 1) as nat);
        let p = after_tools(t, (k - 1) as nat);
        assert(p.1 + seq![ActionView::CallTool] =~= Seq::new(k, |i: int| ActionView::CallTool));
    }
}

/// Every tool call a message asks for is run, exactly once, in order:
/// when the model answers with `n > 0` tool calls, the turn shows the
/// message and calls the first tool; each of the next `n - 1` finished calls
/// leads to one more call, and only the `n`-th finished call ends the
/// message's tool calls (the next iteration begins, or the turn ends when
/// it was the last allowed one).
pub proof fn law_requested_tools_all_run(t: AgentTurn, tries: u32, n: usize)
    requires
        turn_wf(t),
        t.phase == (TurnPhase::AwaitingCompletion { tries }),
        n > 0,
    ensures
        ({
            let first = spec_step(
                t,
                EventView::Completion(OutcomeView::Completed { tool_calls: Some(n) }),
            );
            &&& first.0.phase == (TurnPhase::RunningTools { total: n, done: 0 })
            &&& first.0.iteration == t.iteration
            &&& first.1 == seq![
                ActionView::ForwardAssistant,
                ActionView::Status("Calling Tools"@),
                ActionView::CallTool,
            ]
            &&& forall|k: nat|
                k < n ==> (#[trigger] after_tools(first.0, k)).0.phase == (TurnPhase::RunningTools {
                    total: n,
                    done: k as usize,
                }) && after_tools(first.0, k).1 == Seq::new(k, |i: int| ActionView::CallTool)
            &&& after_tools(first.0, n as nat).0.phase != (TurnPhase::RunningTools {
                total: n,
                done: n,
            })
            &&& t.iteration < t.max_iterations ==> after_tools(first.0, n as nat).0 == (AgentTurn {
                iteration: (t.iteration + 1) as i32,
                phase: TurnPhase::StartIteration,
                ..t
            })
            &&& t.iteration >= t.max_iterations ==> after_tools(first.0, n as nat).0.phase
                == TurnPhase::Finished
        }),
{
    let first = spec_step(t, EventView::Completion(OutcomeView::Completed { tool_calls: Some(n) }));
    assert forall|k: nat| k < n implies (#[trigger] after_tools(first.0, k)).0.phase == (
    TurnPhase::RunningTools { total: n, done: k as usize }) && after_tools(first.0, k).1 == Seq::new(
        k,
        |i: int| ActionView::CallTool,
    ) by {
        lemma_after_tools(first.0, n, k);
    }
    lemma_after_tools(first.0, n, (n - 1) as nat);
}

} // verus!
