//! The per-connection handler pipeline: hooks run strictly in registration
//! order, each as its own supervised task; a panicking hook stops the chain
//! and hands the connection to the task-panic handlers, which run once each,
//! in registration order.
//!
//! The pipeline itself is a scheduler: `next_action` says what to run next,
//! and the transport layer reports each outcome back.  The laws at the end
//! of this module pin down the whole schedule.

use vstd::prelude::*;

verus! {

/// How one hook's supervised task ended.
#[derive(Clone, Copy, Debug, PartialEq, Eq, Structural)]
pub enum HookOutcome {
    /// The task returned normally.
    Completed,
    /// The task panicked; the panic was caught at the task boundary.
    Panicked,
}

/// What the transport layer must do next for this connection.
#[derive(Clone, Copy, Debug, PartialEq, Eq, Structural)]
pub enum PipelineAction {
    /// Run the hook with this registration index, then report its outcome.
    RunHook(usize),
    /// Run the task-panic handler with this registration index.
    RunTaskPanicHandler(usize),
    /// The connection's pipeline is complete.
    Finished,
}

/// Where the pipeline stands.
#[derive(Clone, Copy, Debug, PartialEq, Eq, Structural)]
pub enum PipelinePhase {
    /// Running hooks; the index of the next hook to run.
    Dispatching(usize),
    /// A hook panicked; the index of the next task-panic handler to run.
    PanicHandling(usize),
    /// All done.
    Completed,
}

/// The scheduler for one connection's hook chain.
#[derive(Clone, Copy, Debug)]
pub struct HandlerPipeline {
    /// How many hooks are registered.
    pub hook_count: usize,
    /// How many task-panic handlers are registered.
    pub panic_count: usize,
    /// Where the pipeline stands.
    pub phase: PipelinePhase,
}

/// The action a pipeline state calls for: the next hook in order, unless the
/// context is terminated or hooks ran out; after a panic, the next task-panic
/// handler.
pub open spec fn spec_next_action(p: HandlerPipeline, terminated: bool) -> PipelineAction {
    match p.phase {
        PipelinePhase::Dispatching(i) => if terminated || i >= p.hook_count {
            PipelineAction::Finished
        } else {
            PipelineAction::RunHook(i)
        },
        PipelinePhase::PanicHandling(j) => if j >= p.panic_count {
            PipelineAction::Finished
        } else {
            PipelineAction::RunTaskPanicHandler(j)
        },
        PipelinePhase::Completed => PipelineAction::Finished,
    }
}

/// The state after the running hook's outcome is known: on normal
/// completion, move to the next hook; on a panic, hand over to the
/// task-panic handlers.
pub open spec fn spec_after_hook(p: HandlerPipeline, i: usize, outcome: HookOutcome) -> HandlerPipeline {
    match outcome {
        HookOutcome::Completed => HandlerPipeline {
            phase: PipelinePhase::Dispatching((i + 1) as usize),
            ..p
        },
        HookOutcome::Panicked => HandlerPipeline { phase: PipelinePhase::PanicHandling(0), ..p },
    }
}

/// The state after the running task-panic handler returns.
pub open spec fn spec_after_panic_handler(p: HandlerPipeline, j: usize) -> HandlerPipeline {
    HandlerPipeline { phase: PipelinePhase::PanicHandling((j + 1) as usize), ..p }
}

/// An upper bound on the steps the pipeline still takes.
pub open spec fn spec_steps_left(p: HandlerPipeline) -> int {
    match p.phase {
        PipelinePhase::Dispatching(i) => (if i <= p.hook_count {
            p.hook_count - i
        } else {
            0
        }) + p.panic_count + 1,
        PipelinePhase::PanicHandling(j) => if j <= p.panic_count {
            p.panic_count - j
        } else {
            0
        },
        PipelinePhase::Completed => 0,
    }
}

/// The whole schedule of a never-terminated run, given the outcome of each
/// hook by registration index: the actions emitted, ending with `Finished`.
pub open spec fn spec_run(p: HandlerPipeline, outcomes: Seq<HookOutcome>) -> Seq<PipelineAction>
    decreases spec_steps_left(p),
{
    if spec_steps_left(p) < 0 {
        seq![PipelineAction::Finished]
    } else {
        match spec_next_action(p, false) {
            PipelineAction::RunHook(i) => seq![PipelineAction::RunHook(i)] + spec_run(
                spec_after_hook(p, i, outcomes[i as int]),
                outcomes,
            ),
            PipelineAction::RunTaskPanicHandler(j) => seq![
                PipelineAction::RunTaskPanicHandler(j),
            ] + spec_run(spec_after_panic_handler(p, j), outcomes),
            PipelineAction::Finished => seq![PipelineAction::Finished],
        }
    }
}

impl HandlerPipeline {
    /// A fresh pipeline for a connection, about to run hook 0.
    pub fn new(hook_count: usize, panic_count: usize) -> (r: Self)
        ensures
            r == (HandlerPipeline {
                hook_count,
                panic_count,
                phase: PipelinePhase::Dispatching(0),
            }),
    {
        HandlerPipeline { hook_count, panic_count, phase: PipelinePhase::Dispatching(0) }
    }

    /// What to do next.  `terminated` is the context's current termination
    /// flag, consulted before each hook so a terminated context stops the
    /// chain early.
    pub fn next_action(&self, terminated: bool) -> (a: PipelineAction)
        ensures
            a == spec_next_action(*self, terminated),
    {
        match self.phase {
            PipelinePhase::Dispatching(i) => {
                if terminated || i >= self.hook_count {
                    PipelineAction::Finished
                } else {
                    PipelineAction::RunHook(i)
                }
            },
            PipelinePhase::PanicHandling(j) => {
                if j >= self.panic_count {
                    PipelineAction::Finished
                } else {
                    PipelineAction::RunTaskPanicHandler(j)
                }
            },
            PipelinePhase::Completed => PipelineAction::Finished,
        }
    }

    /// Records how the hook last handed out by `next_action` ended.
    pub fn report_hook_outcome(&mut self, outcome: HookOutcome)
        requires
            old(self).phase matches PipelinePhase::Dispatching(i) && i < old(self).hook_count,
        ensures
            *final(self) == spec_after_hook(
                *old(self),
                old(self).phase->Dispatching_0,
                outcome,
            ),
    {
        match self.phase {
            PipelinePhase::Dispatching(i) => {
                match outcome {
                    HookOutcome::Completed => {
                        self.phase = PipelinePhase::Dispatching(i + 1);
                    },
                    HookOutcome::Panicked => {
                        self.phase = PipelinePhase::PanicHandling(0);
                    },
                }
            },
            _ => {
            },
        }
    }

    /// Records that the task-panic handler last handed out by `next_action`
    /// returned.
    pub fn report_panic_handler_done(&mut self)
        requires
            old(self).phase matches PipelinePhase::PanicHandling(j) && j < old(self).panic_count,
        ensures
            *final(self) == spec_after_panic_handler(*old(self), old(self).phase->PanicHandling_0),
    {
        match self.phase {
            PipelinePhase::PanicHandling(j) => {
                self.phase = PipelinePhase::PanicHandling(j + 1);
            },
            _ => {
            },
        }
    }

    /// Marks the pipeline complete.
    pub fn complete(&mut self)
        ensures
            *final(self) == (HandlerPipeline { phase: PipelinePhase::Completed, ..*old(self) }),
    {
        self.phase = PipelinePhase::Completed;
    }
}

/// Replays a whole never-terminated run: the actions a pipeline with the
/// given registry sizes emits when hook `i` ends with `outcomes[i]`.
pub fn simulate_run(hook_count: usize, panic_count: usize, outcomes: &Vec<HookOutcome>) -> (t: Vec<
    PipelineAction,
>)
    requires
        outcomes@.len() >= hook_count,
    ensures
        t@ == spec_run(
            HandlerPipeline { hook_count, panic_count, phase: PipelinePhase::Dispatching(0) },
            outcomes@,
        ),
{
    let mut pl = HandlerPipeline::new(hook_count, panic_count);
    let ghost init = pl;
    let mut t: Vec<PipelineAction> = Vec::new();
    proof {
        assert(t@ + spec_run(pl, outcomes@) =~= spec_run(init, outcomes@));
    }
    loop
        invariant_except_break
            pl.hook_count == hook_count,
            pl.panic_count == panic_count,
            outcomes@.len() >= hook_count,
            spec_run(init, outcomes@) == t@ + spec_run(pl, outcomes@),
        ensures
            t@ == spec_run(init, outcomes@),
        decreases spec_steps_left(pl),
    {
        let a = pl.next_action(false);
        let ghost before = pl;
        let ghost t_before = t@;
        t.push(a);
        match a {
            PipelineAction::RunHook(i) => {
                pl.report_hook_outcome(outcomes[i]);
                proof {
                    assert(spec_run(before, outcomes@) == seq![a] + spec_run(pl, outcomes@));
                    assert(t_before + (seq![a] + spec_run(pl, outcomes@)) =~= t@ + spec_run(
                        pl,
                        outcomes@,
                    ));
                }
            },
            PipelineAction::RunTaskPanicHandler(_) => {
                pl.report_panic_handler_done();
                proof {
                    assert(spec_run(before, outcomes@) == seq![a] + spec_run(pl, outcomes@));
                    assert(t_before + (seq![a] + spec_run(pl, outcomes@)) =~= t@ + spec_run(
                        pl,
                        outcomes@,
                    ));
                }
            },
            PipelineAction::Finished => {
                proof {
                    assert(spec_run(before, outcomes@) =~= seq![a]);
                    assert(t_before + seq![a] =~= t@);
                }
                break;
            },
        }
    }
    t
}

/// The default hook: a placeholder that performs no observable action on
/// the connection's context.  Useful as a registry sentinel or in tests.
pub fn default_hook(ctx: &mut crate::context::Context)
    ensures
        *final(ctx) == *old(ctx),
{
}

/// Hooks registered in some order run in exactly that order: when no hook
/// panics and the context is never terminated, the schedule is hook 0, hook
/// 1, ... up to the last registered hook, and then completion.
pub proof fn lemma_hooks_run_in_order(
    hook_count: usize,
    panic_count: usize,
    outcomes: Seq<HookOutcome>,
)
    requires
        outcomes.len() >= hook_count,
        forall|i: int| 0 <= i < hook_count ==> outcomes[i] == HookOutcome::Completed,
    ensures
        spec_run(
            HandlerPipeline { hook_count, panic_count, phase: PipelinePhase::Dispatching(0) },
            outcomes,
        ) == Seq::new(
            hook_count as nat,
            |i: int| PipelineAction::RunHook(i as usize),
        ).push(PipelineAction::Finished),
{
    lemma_hooks_from(hook_count, panic_count, outcomes, 0);
    assert(Seq::new((hook_count - 0) as nat, |i: int| PipelineAction::RunHook((0 + i) as usize))
        =~= Seq::new(hook_count as nat, |i: int| PipelineAction::RunHook(i as usize)));
}

/// From hook `k` on, a run without panics schedules hooks `k`, `k + 1`, ...
/// and then completion.
proof fn lemma_hooks_from(
    hook_count: usize,
    panic_count: usize,
    outcomes: Seq<HookOutcome>,
    k: usize,
)
    requires
        outcomes.len() >= hook_count,
        k <= hook_count,
        forall|i: int| k <= i < hook_count ==> outcomes[i] == HookOutcome::Completed,
    ensures
        spec_run(
            HandlerPipeline { hook_count, panic_count, phase: PipelinePhase::Dispatching(k) },
            outcomes,
        ) == Seq::new(
            (hook_count - k) as nat,
            |i: int| PipelineAction::RunHook((k + i) as usize),
        ).push(PipelineAction::Finished),
    decreases hook_count - k,
{
    let p = HandlerPipeline { hook_count, panic_count, phase: PipelinePhase::Dispatching(k) };
    if k == hook_count {
        assert(spec_run(p, outcomes) =~= Seq::new(0, |i: int| PipelineAction::RunHook(
            (k + i) as usize,
        )).push(PipelineAction::Finished));
    } else {
        lemma_hooks_from(hook_count, panic_count, outcomes, (k + 1) as usize);
        assert(spec_after_hook(p, k, outcomes[k as int]) == (HandlerPipeline {
            hook_count,
            panic_count,
            phase: PipelinePhase::Dispatching((k + 1) as usize),
        }));
        assert(seq![PipelineAction::RunHook(k)] + Seq::new(
            (hook_count - k - 1) as nat,
            |i: int| PipelineAction::RunHook((k + 1 + i) as usize),
        ).push(PipelineAction::Finished) =~= Seq::new(
            (hook_count - k) as nat,
            |i: int| PipelineAction::RunHook((k + i) as usize),
        ).push(PipelineAction::Finished));
    }
}

/// From panic handler `j` on, the run schedules handlers `j`, `j + 1`, ...
/// and then completion.
proof fn lemma_panics_from(
    hook_count: usize,
    panic_count: usize,
    outcomes: Seq<HookOutcome>,
    j: usize,
)
    requires
        j <= panic_count,
    ensures
        spec_run(
            HandlerPipeline { hook_count, panic_count, phase: PipelinePhase::PanicHandling(j) },
            outcomes,
        ) == Seq::new(
            (panic_count - j) as nat,
            |i: int| PipelineAction::RunTaskPanicHandler((j + i) as usize),
        ).push(PipelineAction::Finished),
    decreases panic_count - j,
{
    let p = HandlerPipeline { hook_count, panic_count, phase: PipelinePhase::PanicHandling(j) };
    if j == panic_count {
        assert(spec_run(p, outcomes) =~= Seq::new(0, |i: int| PipelineAction::RunTaskPanicHandler(
            (j + i) as usize,
        )).push(PipelineAction::Finished));
    } else {
        lemma_panics_from(hook_count, panic_count, outcomes, (j + 1) as usize);
        assert(seq![PipelineAction::RunTaskPanicHandler(j)] + Seq::new(
            (panic_count - j - 1) as nat,
            |i: int| PipelineAction::RunTaskPanicHandler((j + 1 + i) as usize),
        ).push(PipelineAction::Finished) =~= Seq::new(
            (panic_count - j) as nat,
            |i: int| PipelineAction::RunTaskPanicHandler((j + i) as usize),
        ).push(PipelineAction::Finished));
    }
}

/// Panic isolation: if hook `b` panics (and the hooks before it complete),
/// the hooks after `b` never run, and every registered task-panic handler
/// runs exactly once, in registration order, before completion.
pub proof fn lemma_panic_isolation(
    hook_count: usize,
    panic_count: usize,
    outcomes: Seq<HookOutcome>,
    b: int,
)
    requires
        outcomes.len() >= hook_count,
        0 <= b < hook_count,
        forall|i: int| 0 <= i < b ==> outcomes[i] == HookOutcome::Completed,
        outcomes[b] == HookOutcome::Panicked,
    ensures
        ({
            let t = spec_run(
                HandlerPipeline { hook_count, panic_count, phase: PipelinePhase::Dispatching(0) },
                outcomes,
            );
            &&& t == Seq::new((b + 1) as nat, |i: int| PipelineAction::RunHook(i as usize))
                + Seq::new(
                panic_count as nat,
                |j: int| PipelineAction::RunTaskPanicHandler(j as usize),
            ).push(PipelineAction::Finished)
            &&& forall|i: int|
                #![trigger t.contains(PipelineAction::RunHook(i as usize))]
                b < i < hook_count ==> !t.contains(PipelineAction::RunHook(i as usize))
            &&& forall|j: int|
                #![trigger t.contains(PipelineAction::RunTaskPanicHandler(j as usize))]
                0 <= j < panic_count ==> t.contains(PipelineAction::RunTaskPanicHandler(j as usize))
            &&& forall|k1: int, k2: int|
                #![trigger t[k1], t[k2]]
                0 <= k1 < k2 < t.len() && t[k1] == t[k2] ==> !(t[k1]
                    is RunTaskPanicHandler)
        }),
{
    lemma_panic_prefix(hook_count, panic_count, outcomes, b, 0);
    let t = spec_run(
        HandlerPipeline { hook_count, panic_count, phase: PipelinePhase::Dispatching(0) },
        outcomes,
    );
    let hooks = Seq::new((b + 1) as nat, |i: int| PipelineAction::RunHook(i as usize));
    let panics = Seq::new(
        panic_count as nat,
        |j: int| PipelineAction::RunTaskPanicHandler(j as usize),
    ).push(PipelineAction::Finished);
    assert(Seq::new((b + 1 - 0) as nat, |i: int| PipelineAction::RunHook((0 + i) as usize))
        =~= hooks);
    assert(t == hooks + panics);
    assert forall|i: int|
        #![trigger t.contains(PipelineAction::RunHook(i as usize))]
        b < i < hook_count implies !t.contains(PipelineAction::RunHook(i as usize)) by {
        assert forall|k: int| 0 <= k < t.len() implies t[k] != PipelineAction::RunHook(
            i as usize,
        ) by {
            if k < hooks.len() {
                assert(t[k] == hooks[k]);
            } else {
                assert(t[k] == panics[k - hooks.len()]);
            }
        }
    }
    assert forall|j: int|
        #![trigger t.contains(PipelineAction::RunTaskPanicHandler(j as usize))]
        0 <= j < panic_count implies t.contains(PipelineAction::RunTaskPanicHandler(
        j as usize,
    )) by {
        assert(t[hooks.len() + j] == panics[j]);
        assert(panics[j] == PipelineAction::RunTaskPanicHandler(j as usize));
    }
    assert forall|k1: int, k2: int|
        0 <= k1 < k2 < t.len() && t[k1] == t[k2] implies !(t[k1]
            is RunTaskPanicHandler) by {
        if k1 < hooks.len() {
            assert(t[k1] == hooks[k1]);
        } else {
            assert(t[k1] == panics[k1 - hooks.len()]);
        }
        if k2 < hooks.len() {
            assert(t[k2] == hooks[k2]);
        } else {
            assert(t[k2] == panics[k2 - hooks.len()]);
        }
    }
}

/// From hook `k` up to the panicking hook `b`, the run schedules hooks `k`
/// through `b` and then every task-panic handler, in order.
proof fn lemma_panic_prefix(
    hook_count: usize,
    panic_count: usize,
    outcomes: Seq<HookOutcome>,
    b: int,
    k: usize,
)
    requires
        outcomes.len() >= hook_count,
        0 <= b < hook_count,
        k <= b,
        forall|i: int| k <= i < b ==> outcomes[i] == HookOutcome::Completed,
        outcomes[b] == HookOutcome::Panicked,
    ensures
        spec_run(
            HandlerPipeline { hook_count, panic_count, phase: PipelinePhase::Dispatching(k) },
            outcomes,
        ) == Seq::new((b + 1 - k) as nat, |i: int| PipelineAction::RunHook((k + i) as usize))
            + Seq::new(
            panic_count as nat,
            |j: int| PipelineAction::RunTaskPanicHandler(j as usize),
        ).push(PipelineAction::Finished),
    decreases b - k,
{
    let p = HandlerPipeline { hook_count, panic_count, phase: PipelinePhase::Dispatching(k) };
    let panics = Seq::new(
        panic_count as nat,
        |j: int| PipelineAction::RunTaskPanicHandler(j as usize),
    ).push(PipelineAction::Finished);
    if k == b {
        assert(spec_after_hook(p, k, outcomes[k as int]) == (HandlerPipeline {
            hook_count,
            panic_count,
            phase: PipelinePhase::PanicHandling(0),
        }));
        lemma_panics_from(hook_count, panic_count, outcomes, 0);
        assert(Seq::new(panic_count as nat, |i: int| PipelineAction::RunTaskPanicHandler(
            (0 + i) as usize,
        )) =~= Seq::new(panic_count as nat, |j: int| PipelineAction::RunTaskPanicHandler(
            j as usize,
        )));
        assert(seq![PipelineAction::RunHook(k)] + panics =~= Seq::new(
            (b + 1 - k) as nat,
            |i: int| PipelineAction::RunHook((k + i) as usize),
        ) + panics);
    } else {
        lemma_panic_prefix(hook_count, panic_count, outcomes, b, (k + 1) as usize);
        assert(seq![PipelineAction::RunHook(k)] + (Seq::new(
            (b - k) as nat,
            |i: int| PipelineAction::RunHook((k + 1 + i) as usize),
        ) + panics) =~= Seq::new(
            (b + 1 - k) as nat,
            |i: int| PipelineAction::RunHook((k + i) as usize),
        ) + panics);
    }
}

} // verus!
