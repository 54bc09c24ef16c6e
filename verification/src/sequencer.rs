//! The step sequencer: execute the catalogue in order from the state's
//! current step, record progress after every success, and stop on the
//! first fatal failure, honoring each step's retry-or-abort policy.
//!
//! The sequencing decisions are pure and fully verified here, over a
//! script of attempts: each attempt carries the operator's input, the
//! captured environment, whether the step's external work succeeded, and
//! the operator's answer to the retry question.  The driver replays
//! exactly this logic against the real terminal and the real commands.

use vstd::prelude::*;
use crate::config::{AppConfig, ConfigV, opt_ok, line_ok};
use crate::persist::{spec_render_config, spec_parse_config, lemma_config_round_trip};
use crate::plan::{Action, ActionV, plan_view};
use crate::steps::{
    StepInput, InputV, StepEnv, EnvV, Policy, spec_input_fits, spec_input_valid, spec_step_plan,
    spec_step_policy, spec_apply_step, input_fits, input_valid, step_plan, step_policy, apply_step,
};

verus! {

/// One scripted attempt at the current step.
pub struct Attempt {
    /// The operator's answers for this attempt.
    pub input: StepInput,
    /// The captured texts this attempt plans against.
    pub env: StepEnv,
    /// Whether the step's external work succeeded.
    pub ok: bool,
    /// The operator's answer to the retry-or-continue question, when one
    /// is asked.
    pub retry: bool,
}

/// Mathematical view of an attempt.
pub struct AttemptV {
    pub input: InputV,
    pub env: EnvV,
    pub ok: bool,
    pub retry: bool,
}

impl View for Attempt {
    type V = AttemptV;

    open spec fn view(&self) -> AttemptV {
        AttemptV { input: self.input@, env: self.env@, ok: self.ok, retry: self.retry }
    }
}

impl DeepView for Attempt {
    type V = AttemptV;

    open spec fn deep_view(&self) -> AttemptV {
        self.view()
    }
}

/// Why a run stopped before the catalogue's end.
#[derive(Clone, Copy, PartialEq, Eq, Structural, Debug)]
pub enum AbortReason {
    /// The attempt's input does not have the shape the catalogue expects:
    /// a driver programming error, or a step outside the catalogue.
    RejectedInput,
    /// The operator's input failed the step's validation rule and the
    /// operator declined to answer again.
    DeclinedInput,
    /// The step's plan could not be produced.
    PlanFailed,
    /// The step's external work failed and no retry was taken.
    FailedCommand,
}

/// How a run ended.
#[derive(Clone, Copy, PartialEq, Eq, Structural, Debug)]
pub enum RunOutcome {
    /// Every step up to the catalogue's end completed; the persisted
    /// record is to be cleared.
    Completed,
    /// A fatal failure stopped the run; the state remains at the failed
    /// step for later resumption.
    Aborted(AbortReason),
    /// The script ended while steps remained.
    OutOfScript,
}

/// What a run did: its outcome, the step indices completed in order, and
/// the planned actions of every attempt, in order; a failed attempt
/// contributes its whole plan even where the driver stopped at the
/// failing action.
pub struct RunReport {
    pub outcome: RunOutcome,
    pub executed: Vec<u8>,
    pub actions: Vec<Action>,
}

/// The model of a run: final state, outcome, completed steps, issued
/// actions.
pub struct RunModelV {
    pub config: ConfigV,
    pub outcome: RunOutcome,
    pub executed: Seq<u8>,
    pub actions: Seq<ActionV>,
}

/// The state after one completed step: its answers recorded, progress
/// advanced by one.
pub open spec fn spec_step_done(c: ConfigV, step: u8, i: InputV) -> ConfigV {
    let c2 = spec_apply_step(c, step, i);
    ConfigV { current_step: (c2.current_step + 1) as u8, ..c2 }
}

/// The whole sequencing algorithm, one scripted attempt at a time:
/// while steps remain, an attempt at the current step either completes it
/// (its answers recorded, progress advanced), is retried with the next
/// attempt where the step's policy allows and the operator agrees, or
/// aborts the run.
pub open spec fn spec_run(c: ConfigV, script: Seq<AttemptV>) -> RunModelV
    decreases script.len(),
{
    if c.current_step > c.total_steps {
        RunModelV {
            config: c,
            outcome: RunOutcome::Completed,
            executed: Seq::empty(),
            actions: Seq::empty(),
        }
    } else if script.len() == 0 {
        RunModelV {
            config: c,
            outcome: RunOutcome::OutOfScript,
            executed: Seq::empty(),
            actions: Seq::empty(),
        }
    } else {
        let a = script[0];
        let step = c.current_step;
        if !spec_input_fits(c, step, a.input) {
            RunModelV {
                config: c,
                outcome: RunOutcome::Aborted(AbortReason::RejectedInput),
                executed: Seq::empty(),
                actions: Seq::empty(),
            }
        } else if !spec_input_valid(c, step, a.input) {
            if a.retry {
                spec_run(c, script.drop_first())
            } else {
                RunModelV {
                    config: c,
                    outcome: RunOutcome::Aborted(AbortReason::DeclinedInput),
                    executed: Seq::empty(),
                    actions: Seq::empty(),
                }
            }
        } else {
            match spec_step_plan(c, step, a.input, a.env) {
                Option::None => RunModelV {
                    config: c,
                    outcome: RunOutcome::Aborted(AbortReason::PlanFailed),
                    executed: Seq::empty(),
                    actions: Seq::empty(),
                },
                Option::Some(plan) => {
                    if a.ok || (spec_step_policy(step) == Policy::ContinueAsk && a.retry) {
                        let rest = spec_run(spec_step_done(c, step, a.input), script.drop_first());
                        RunModelV {
                            config: rest.config,
                            outcome: rest.outcome,
                            executed: seq![step] + rest.executed,
                            actions: plan + rest.actions,
                        }
                    } else if spec_step_policy(step) == Policy::RetryAsk && a.retry {
                        let rest = spec_run(c, script.drop_first());
                        RunModelV {
                            config: rest.config,
                            outcome: rest.outcome,
                            executed: rest.executed,
                            actions: plan + rest.actions,
                        }
                    } else {
                        RunModelV {
                            config: c,
                            outcome: RunOutcome::Aborted(AbortReason::FailedCommand),
                            executed: Seq::empty(),
                            actions: plan,
                        }
                    }
                },
            }
        }
    }
}

fn run_from(c: &mut AppConfig, script: &Vec<Attempt>, pos: usize) -> (r: RunReport)
    requires
        old(c)@.total_steps < u8::MAX,
        pos <= script@.len(),
    ensures
        ({
            let m = spec_run(old(c)@, script.deep_view().skip(pos as int));
            &&& final(c)@ == m.config
            &&& r.outcome == m.outcome
            &&& r.executed@ == m.executed
            &&& plan_view(r.actions@) == m.actions
        }),
    decreases script@.len() - pos,
{
    let ghost scr = script.deep_view().skip(pos as int);
    if c.current_installation_step > c.total_installation_steps {
        let r = RunReport { outcome: RunOutcome::Completed, executed: Vec::new(), actions: Vec::new() };
        proof {
            assert(plan_view(r.actions@) =~= Seq::<ActionV>::empty());
        }
        return r;
    }
    if pos == script.len() {
        let r = RunReport {
            outcome: RunOutcome::OutOfScript,
            executed: Vec::new(),
            actions: Vec::new(),
        };
        proof {
            assert(plan_view(r.actions@) =~= Seq::<ActionV>::empty());
        }
        return r;
    }
    let a = &script[pos];
    proof {
        assert(scr[0] == script.deep_view()[pos as int]);
        assert(scr.drop_first() =~= script.deep_view().skip(pos + 1));
    }
    let step = c.current_installation_step;
    if !input_fits(c, step, &a.input) {
        let r = RunReport {
            outcome: RunOutcome::Aborted(AbortReason::RejectedInput),
            executed: Vec::new(),
            actions: Vec::new(),
        };
        proof {
            assert(plan_view(r.actions@) =~= Seq::<ActionV>::empty());
        }
        return r;
    }
    if !input_valid(c, step, &a.input) {
        if a.retry {
            return run_from(c, script, pos + 1);
        }
        let r = RunReport {
            outcome: RunOutcome::Aborted(AbortReason::DeclinedInput),
            executed: Vec::new(),
            actions: Vec::new(),
        };
        proof {
            assert(plan_view(r.actions@) =~= Seq::<ActionV>::empty());
        }
        return r;
    }
    let plan = match step_plan(c, step, &a.input, &a.env) {
        Ok(p) => p,
        Err(_) => {
            let r = RunReport {
                outcome: RunOutcome::Aborted(AbortReason::PlanFailed),
                executed: Vec::new(),
                actions: Vec::new(),
            };
            proof {
                assert(plan_view(r.actions@) =~= Seq::<ActionV>::empty());
            }
            return r;
        },
    };
    let pol = step_policy(step);
    let continue_anyway = matches!(pol, Policy::ContinueAsk) && a.retry;
    if a.ok || continue_anyway {
        apply_step(c, step, &a.input);
        c.advance();
        let mut rest = run_from(c, script, pos + 1);
        let mut executed: Vec<u8> = Vec::new();
        executed.push(step);
        executed.append(&mut rest.executed);
        let ghost planv = plan_view(plan@);
        let mut actions = plan;
        actions.append(&mut rest.actions);
        let r = RunReport { outcome: rest.outcome, executed, actions };
        proof {
            let m = spec_run(old(c)@, scr);
            assert(r.executed@ =~= m.executed);
            assert(plan_view(r.actions@) =~= m.actions);
        }
        return r;
    }
    let retry_now = matches!(pol, Policy::RetryAsk) && a.retry;
    if retry_now {
        let mut rest = run_from(c, script, pos + 1);
        let mut actions = plan;
        actions.append(&mut rest.actions);
        let r = RunReport { outcome: rest.outcome, executed: rest.executed, actions };
        proof {
            let m = spec_run(old(c)@, scr);
            assert(plan_view(r.actions@) =~= m.actions);
        }
        return r;
    }
    let r = RunReport {
        outcome: RunOutcome::Aborted(AbortReason::FailedCommand),
        executed: Vec::new(),
        actions: plan,
    };
    proof {
        assert(plan_view(r.actions@) =~= spec_run(old(c)@, scr).actions);
    }
    r
}

/// Run the catalogue from the state's current step against a script of
/// attempts.  The final state, the outcome, the list of completed steps
/// and the issued actions are exactly those of the sequencing model.
pub fn run_scripted(c: &mut AppConfig, script: &Vec<Attempt>) -> (r: RunReport)
    requires
        old(c)@.total_steps < u8::MAX,
    ensures
        ({
            let m = spec_run(old(c)@, script.deep_view());
            &&& final(c)@ == m.config
            &&& r.outcome == m.outcome
            &&& r.executed@ == m.executed
            &&& plan_view(r.actions@) == m.actions
        }),
{
    proof {
        assert(script.deep_view().skip(0) =~= script.deep_view());
    }
    run_from(c, script, 0)
}

// ---------------------------------------------------------------------------
// Laws
// ---------------------------------------------------------------------------

/// Answers whose recorded strings survive the persisted encoding: no line
/// break anywhere, and no quote inside an optional field's value.
pub open spec fn input_strings_wf(i: InputV) -> bool {
    match i {
        InputV::PartitionNames { root, boot, uefi, home } => line_ok(root) && opt_ok(boot)
            && opt_ok(uefi) && opt_ok(home),
        InputV::SwapChoice { name } => opt_ok(name),
        InputV::NewUser { name } => line_ok(name),
        _ => true,
    }
}

/// Recording a step's answers keeps the state persistable.
pub proof fn lemma_step_done_preserves_strings_wf(c: ConfigV, step: u8, i: InputV)
    requires
        c.strings_wf(),
        input_strings_wf(i),
    ensures
        spec_step_done(c, step, i).strings_wf(),
{
}

/// A run on persistable answers keeps the state persistable.
pub proof fn lemma_run_preserves_strings_wf(c: ConfigV, script: Seq<AttemptV>)
    requires
        c.strings_wf(),
        forall|k: int| 0 <= k < script.len() ==> input_strings_wf(#[trigger] script[k].input),
    ensures
        spec_run(c, script).config.strings_wf(),
    decreases script.len(),
{
    if c.current_step > c.total_steps || script.len() == 0 {
    } else {
        let a = script[0];
        let step = c.current_step;
        assert(forall|k: int|
            0 <= k < script.drop_first().len() ==> script.drop_first()[k] == script[k + 1]);
        if !spec_input_fits(c, step, a.input) {
        } else if !spec_input_valid(c, step, a.input) {
            if a.retry {
                lemma_run_preserves_strings_wf(c, script.drop_first());
            }
        } else {
            match spec_step_plan(c, step, a.input, a.env) {
                Option::None => {},
                Option::Some(_) => {
                    if a.ok || (spec_step_policy(step) == Policy::ContinueAsk && a.retry) {
                        lemma_step_done_preserves_strings_wf(c, step, a.input);
                        lemma_run_preserves_strings_wf(
                            spec_step_done(c, step, a.input),
                            script.drop_first(),
                        );
                    } else if spec_step_policy(step) == Policy::RetryAsk && a.retry {
                        lemma_run_preserves_strings_wf(c, script.drop_first());
                    }
                },
            }
        }
    }
}

/// After any sequence of completed steps on persistable answers, the
/// state's persisted record reloads to exactly that state, the step index
/// and every recorded field unchanged.
pub proof fn lemma_run_state_round_trips(c: ConfigV, script: Seq<AttemptV>)
    requires
        c.strings_wf(),
        forall|k: int| 0 <= k < script.len() ==> input_strings_wf(#[trigger] script[k].input),
    ensures
        spec_parse_config(spec_render_config(spec_run(c, script).config)) == Option::Some(
            spec_run(c, script).config,
        ),
{
    lemma_run_preserves_strings_wf(c, script);
    lemma_config_round_trip(spec_run(c, script).config);
}

/// Resuming from a state whose next step is `k` executes steps upward
/// from `k`, in order and each exactly once: the i-th completed step is
/// `k + i`, so no step below `k` is ever re-executed; and a completed run
/// has executed exactly the steps `k` to `totalSteps`.
pub proof fn lemma_run_executes_in_order(c: ConfigV, script: Seq<AttemptV>)
    requires
        c.total_steps < u8::MAX,
    ensures
        ({
            let m = spec_run(c, script);
            &&& forall|i: int| 0 <= i < m.executed.len() ==> m.executed[i] == c.current_step + i
            &&& (m.outcome == RunOutcome::Completed && c.current_step <= c.total_steps
                ==> m.executed.len() == c.total_steps + 1 - c.current_step)
            &&& (m.outcome == RunOutcome::Completed && c.current_step <= c.total_steps
                ==> m.config.current_step == c.total_steps + 1)
            &&& m.config.current_step >= c.current_step
            &&& m.config.total_steps == c.total_steps
        }),
    decreases script.len(),
{
    let m = spec_run(c, script);
    if c.current_step > c.total_steps {
    } else if script.len() == 0 {
    } else {
        let a = script[0];
        let step = c.current_step;
        if !spec_input_fits(c, step, a.input) {
        } else if !spec_input_valid(c, step, a.input) {
            if a.retry {
                lemma_run_executes_in_order(c, script.drop_first());
            }
        } else {
            match spec_step_plan(c, step, a.input, a.env) {
                Option::None => {},
                Option::Some(plan) => {
                    if a.ok || (spec_step_policy(step) == Policy::ContinueAsk && a.retry) {
                        let c2 = spec_step_done(c, step, a.input);
                        assert(c2.current_step == c.current_step + 1);
                        assert(c2.total_steps == c.total_steps);
                        lemma_run_executes_in_order(c2, script.drop_first());
                        let rest = spec_run(c2, script.drop_first());
                        assert(forall|i: int|
                            0 <= i < rest.executed.len() ==> rest.executed[i] == c2.current_step
                                + i);
                        assert(m.executed == seq![step] + rest.executed);
                        assert(forall|i: int|
                            1 <= i < m.executed.len() ==> m.executed[i] == rest.executed[i - 1]);
                        assert(m.executed[0] == step);
                    } else if spec_step_policy(step) == Policy::RetryAsk && a.retry {
                        lemma_run_executes_in_order(c, script.drop_first());
                    }
                },
            }
        }
    }
}

} // verus!
