//! What holds of the effects of the control loop over any sequence of
//! stimuli.

use crate::config::FlycheckConfig;
use crate::message::{BuildMessage, CheckEvent};
use cargo_metadata::diagnostic::Diagnostic;
use crate::supervisor::{
    spec_end_progress, spec_handle, spec_restart_effects, spec_step, CheckCommand, EffectView, Stimulus,
    SupervisorState,
};
use std::path::PathBuf;
use vstd::prelude::*;

verus! {

/// The state and effects of the control loop over a sequence of stimuli;
/// stimuli after the loop is left have no effect.
pub open spec fn spec_run(
    s: SupervisorState,
    config: FlycheckConfig,
    root: PathBuf,
    stims: Seq<Stimulus>,
) -> (SupervisorState, Seq<EffectView>)
    decreases stims.len(),
{
    if stims.len() == 0 || s.exited {
        (s, Seq::empty())
    } else {
        let (t, e) = spec_step(s, config, root, stims[0]);
        let (u, f) = spec_run(t, config, root, stims.drop_first());
        (u, e + f)
    }
}

/// The number of `ClearDiagnostics` tasks among the effects.
pub open spec fn spec_clears(e: Seq<EffectView>) -> nat
    decreases e.len(),
{
    if e.len() == 0 {
        0
    } else {
        spec_clears(e.drop_last()) + (if e.last() is Clear { 1nat } else { 0nat })
    }
}

/// The number of runs started among the effects.
pub open spec fn spec_starts(e: Seq<EffectView>) -> nat
    decreases e.len(),
{
    if e.len() == 0 {
        0
    } else {
        spec_starts(e.drop_last()) + (if e.last() is StartRun { 1nat } else { 0nat })
    }
}

/// Each `ClearDiagnostics` is followed at once by the stop of the old run and
/// the start of a new one, and each start is preceded so.
pub open spec fn spec_paired(e: Seq<EffectView>) -> bool {
    forall|i: int|
        0 <= i < e.len() ==> {
            &&& (#[trigger] e[i] is Clear ==> i + 2 < e.len() && e[i + 1] is StopRun && e[i + 2] is StartRun)
            &&& (e[i] is StartRun ==> i >= 2 && e[i - 2] is Clear && e[i - 1] is StopRun)
        }
}

proof fn lemma_counts_add(a: Seq<EffectView>, b: Seq<EffectView>)
    ensures
        spec_clears(a + b) == spec_clears(a) + spec_clears(b),
        spec_starts(a + b) == spec_starts(a) + spec_starts(b),
    decreases b.len(),
{
    if b.len() == 0 {
        assert(a + b =~= a);
    } else {
        lemma_counts_add(a, b.drop_last());
        assert((a + b).drop_last() =~= a + b.drop_last());
    }
}

proof fn lemma_paired_add(a: Seq<EffectView>, b: Seq<EffectView>)
    requires
        spec_paired(a),
        spec_paired(b),
    ensures
        spec_paired(a + b),
{
    let e = a + b;
    assert forall|i: int| 0 <= i < e.len() implies {
        &&& (#[trigger] e[i] is Clear ==> i + 2 < e.len() && e[i + 1] is StopRun && e[i + 2] is StartRun)
        &&& (e[i] is StartRun ==> i >= 2 && e[i - 2] is Clear && e[i - 1] is StopRun)
    } by {
        if i < a.len() {
            assert(e[i] == a[i]);
        } else {
            let j = i - a.len();
            assert(e[i] == b[j]);
            if b[j] is Clear {
                assert(e[i + 1] == b[j + 1]);
                assert(e[i + 2] == b[j + 2]);
            }
            if b[j] is StartRun {
                assert(e[i - 1] == b[j - 1]);
                assert(e[i - 2] == b[j - 2]);
            }
        }
    }
}

/// The effects of one turn: as many clears as starts, paired.
proof fn lemma_step_paired(
    s: SupervisorState,
    config: FlycheckConfig,
    root: PathBuf,
    stim: Stimulus,
)
    ensures
        spec_paired(spec_step(s, config, root, stim).1),
        spec_clears(spec_step(s, config, root, stim).1) == spec_starts(
            spec_step(s, config, root, stim).1,
        ),
{
    reveal_with_fuel(spec_clears, 4);
    reveal_with_fuel(spec_starts, 4);
    let (hs, h0) = spec_handle(s, root, stim);
    let h = h0 + spec_end_progress(hs.progress_active);
    let r = spec_restart_effects(config);
    assert(h.len() <= 4);
    assert(forall|i: int| 0 <= i < h.len() ==> !(#[trigger] h[i] is Clear) && !(h[i] is StartRun));
    assert(spec_paired(h));
    assert(spec_paired(r));
    assert(spec_clears(h) == 0 && spec_starts(h) == 0) by {
        reveal_with_fuel(spec_clears, 5);
        reveal_with_fuel(spec_starts, 5);
        if h.len() == 4 {
            assert(h.drop_last().drop_last().drop_last().drop_last().len() == 0);
        } else if h.len() == 3 {
            assert(h.drop_last().drop_last().drop_last().len() == 0);
        }
    }
    if !hs.exited && hs.restart_requested {
        assert(spec_step(s, config, root, stim).1 == h + r);
    } else {
        assert(spec_step(s, config, root, stim).1 == h0);
        assert(spec_clears(h0) == 0 && spec_starts(h0) == 0) by {
            if h0.len() == 3 {
                assert(h0.drop_last().drop_last().drop_last().len() == 0);
            }
        }
    }
    assert(spec_clears(r) == 1 && spec_starts(r) == 1) by {
        assert(r.drop_last().drop_last().drop_last().len() == 0);
    }
    lemma_counts_add(h, r);
    lemma_paired_add(h, r);
}

/// Over any sequence of stimuli, the loop emits `ClearDiagnostics` exactly as
/// many times as it starts a run, and each `ClearDiagnostics` comes
/// immediately before the stop of the old run and the start of the new one,
/// so before any diagnostic of the new run.
pub proof fn lemma_clear_per_run(
    s: SupervisorState,
    config: FlycheckConfig,
    root: PathBuf,
    stims: Seq<Stimulus>,
)
    ensures
        spec_clears(spec_run(s, config, root, stims).1) == spec_starts(
            spec_run(s, config, root, stims).1,
        ),
        spec_paired(spec_run(s, config, root, stims).1),
    decreases stims.len(),
{
    if stims.len() == 0 || s.exited {
        assert(spec_paired(Seq::<EffectView>::empty()));
    } else {
        let (t, e) = spec_step(s, config, root, stims[0]);
        lemma_step_paired(s, config, root, stims[0]);
        lemma_clear_per_run(t, config, root, stims.drop_first());
        let f = spec_run(t, config, root, stims.drop_first()).1;
        lemma_counts_add(e, f);
        lemma_paired_add(e, f);
    }
}

/// Diagnostics of two runs are never interleaved: between two diagnostics
/// with the start of a run between them, there is a `ClearDiagnostics`.
pub proof fn lemma_runs_not_interleaved(
    s: SupervisorState,
    config: FlycheckConfig,
    root: PathBuf,
    stims: Seq<Stimulus>,
    i: int,
    k: int,
    j: int,
)
    requires
        0 <= i < k < j < spec_run(s, config, root, stims).1.len(),
        spec_run(s, config, root, stims).1[i] is Add,
        spec_run(s, config, root, stims).1[k] is StartRun,
        spec_run(s, config, root, stims).1[j] is Add,
    ensures
        exists|c: int| i < c < j && (#[trigger] spec_run(s, config, root, stims).1[c]) is Clear,
{
    let e = spec_run(s, config, root, stims).1;
    lemma_clear_per_run(s, config, root, stims);
    assert(e[k] is StartRun);
    assert(e[k - 2] is Clear);
}

/// A restart request, whether or not a run is active, gives exactly one
/// `ClearDiagnostics` and one new run, after ending any open unit of
/// progress, which stays closed until the new run begins.
pub proof fn lemma_request_starts_one_run(
    s: SupervisorState,
    config: FlycheckConfig,
    root: PathBuf,
)
    requires
        !s.exited,
    ensures
        spec_step(s, config, root, Stimulus::Command(CheckCommand::Update)).1 == spec_end_progress(
            s.progress_active,
        ) + spec_restart_effects(config),
        spec_step(s, config, root, Stimulus::Command(CheckCommand::Update)).0.run_active,
        !spec_step(s, config, root, Stimulus::Command(CheckCommand::Update)).0.progress_active,
        !spec_step(s, config, root, Stimulus::Command(CheckCommand::Update)).0.restart_requested,
{
    let h = spec_handle(s, root, Stimulus::Command(CheckCommand::Update)).1;
    assert(h + spec_end_progress(s.progress_active) + spec_restart_effects(config) =~= spec_end_progress(
        s.progress_active,
    ) + spec_restart_effects(config));
}

/// When the owner goes while a run is active, the loop stops the run and
/// then leaves, with no run and no progress left open.
pub proof fn lemma_close_stops_run(s: SupervisorState, config: FlycheckConfig, root: PathBuf)
    requires
        !s.exited,
        s.run_active,
    ensures
        ({
            let (t, e) = spec_step(s, config, root, Stimulus::CommandsClosed);
            &&& t.exited && !t.run_active && !t.progress_active
            &&& e.len() >= 2
            &&& e[e.len() - 2] is StopRun
            &&& e.last() is Exit
        }),
{
}

/// The diagnostics added among the effects, in order.
pub open spec fn spec_adds(e: Seq<EffectView>) -> Seq<Diagnostic>
    decreases e.len(),
{
    if e.len() == 0 {
        Seq::empty()
    } else {
        (if let EffectView::Add(_, d) = e[0] {
            seq![d]
        } else {
            Seq::empty()
        }) + spec_adds(e.drop_first())
    }
}

/// The diagnostics that the events among the stimuli carry, in order.
pub open spec fn spec_diags(stims: Seq<Stimulus>) -> Seq<Diagnostic>
    decreases stims.len(),
{
    if stims.len() == 0 {
        Seq::empty()
    } else {
        (if let Stimulus::Event(CheckEvent::Msg(BuildMessage::CompilerMessage(d))) = stims[0] {
            seq![d]
        } else {
            Seq::empty()
        }) + spec_diags(stims.drop_first())
    }
}

proof fn lemma_adds_add(a: Seq<EffectView>, b: Seq<EffectView>)
    ensures
        spec_adds(a + b) == spec_adds(a) + spec_adds(b),
    decreases a.len(),
{
    if a.len() == 0 {
        assert(a + b =~= b);
        assert(spec_adds(a) =~= Seq::<Diagnostic>::empty());
        assert(spec_adds(a) + spec_adds(b) =~= spec_adds(b));
    } else {
        lemma_adds_add(a.drop_first(), b);
        assert((a + b).drop_first() =~= a.drop_first() + b);
        assert((a + b)[0] == a[0]);
    }
}

proof fn lemma_run_split(
    s: SupervisorState,
    config: FlycheckConfig,
    root: PathBuf,
    a: Seq<Stimulus>,
    b: Seq<Stimulus>,
)
    ensures
        ({
            let (t, e) = spec_run(s, config, root, a);
            let (u, f) = spec_run(t, config, root, b);
            spec_run(s, config, root, a + b) == (u, e + f)
        }),
    decreases a.len(),
{
    if a.len() == 0 {
        assert(a + b =~= b);
        assert(Seq::<EffectView>::empty() + spec_run(s, config, root, b).1 =~= spec_run(s, config, root, b).1);
    } else if s.exited {
        let e = Seq::<EffectView>::empty();
        assert(e + e =~= e);
    } else {
        let (t1, e1) = spec_step(s, config, root, a[0]);
        lemma_run_split(t1, config, root, a.drop_first(), b);
        assert((a + b).drop_first() =~= a.drop_first() + b);
        assert((a + b)[0] == a[0]);
        let (t, e) = spec_run(t1, config, root, a.drop_first());
        let f = spec_run(t, config, root, b).1;
        assert(e1 + (e + f) =~= (e1 + e) + f);
    }
}

/// Events alone, with no request and the owner still there, add exactly the
/// diagnostics that they carry, in order, and clear nothing.
proof fn lemma_events_only(s: SupervisorState, config: FlycheckConfig, root: PathBuf, stims: Seq<Stimulus>)
    requires
        !s.exited,
        !s.restart_requested,
        forall|i: int| 0 <= i < stims.len() ==> !(#[trigger] stims[i] is Command) && !(stims[i] is CommandsClosed),
    ensures
        spec_adds(spec_run(s, config, root, stims).1) == spec_diags(stims),
        spec_clears(spec_run(s, config, root, stims).1) == 0,
    decreases stims.len(),
{
    reveal_with_fuel(spec_clears, 3);
    reveal_with_fuel(spec_adds, 3);
    if stims.len() == 0 {
        assert(spec_diags(stims) =~= Seq::<Diagnostic>::empty());
    } else {
        let (t, e) = spec_step(s, config, root, stims[0]);
        assert(!(stims[0] is Command) && !(stims[0] is CommandsClosed));
        assert forall|i: int| 0 <= i < stims.drop_first().len() implies !(#[trigger] stims.drop_first()[i] is Command)
            && !(stims.drop_first()[i] is CommandsClosed) by {
            assert(stims.drop_first()[i] == stims[i + 1]);
        }
        lemma_events_only(t, config, root, stims.drop_first());
        let f = spec_run(t, config, root, stims.drop_first()).1;
        lemma_adds_add(e, f);
        lemma_counts_add(e, f);
        assert(e.len() <= 1);
        if e.len() == 1 {
            assert(e.drop_first().len() == 0);
            assert(e.drop_last().len() == 0);
        }
    }
}

/// Once a request has been carried out, and until the next one, the loop
/// clears nothing more, and the diagnostics it adds are exactly those of the
/// events handled since, in order: nothing of an earlier run follows the
/// `ClearDiagnostics` of the new one.
pub proof fn lemma_only_new_run_after_restart(
    s: SupervisorState,
    config: FlycheckConfig,
    root: PathBuf,
    before: Seq<Stimulus>,
    after: Seq<Stimulus>,
)
    requires
        !spec_run(s, config, root, before).0.exited,
        forall|i: int| 0 <= i < after.len() ==> !(#[trigger] after[i] is Command) && !(after[i] is CommandsClosed),
    ensures
        ({
            let (t, e) = spec_run(s, config, root, before.push(Stimulus::Command(CheckCommand::Update)));
            let f = spec_run(t, config, root, after).1;
            &&& spec_run(s, config, root, before.push(Stimulus::Command(CheckCommand::Update)) + after).1 == e + f
            &&& e.len() >= 3
            &&& e[e.len() - 3] is Clear
            &&& e[e.len() - 2] is StopRun
            &&& e[e.len() - 1] is StartRun
            &&& spec_clears(f) == 0
            &&& spec_adds(f) == spec_diags(after)
        }),
{
    let u = Stimulus::Command(CheckCommand::Update);
    let one = seq![u];
    assert(before.push(u) =~= before + one);
    lemma_run_split(s, config, root, before, one);
    lemma_run_split(s, config, root, before.push(u), after);
    let (m, e0) = spec_run(s, config, root, before);
    let (t, e1) = spec_step(m, config, root, u);
    assert(one.drop_first() =~= Seq::<Stimulus>::empty());
    assert(one[0] == u);
    assert(spec_run(t, config, root, one.drop_first()) == (t, Seq::<EffectView>::empty()));
    assert(spec_run(m, config, root, one) == (t, e1 + Seq::<EffectView>::empty()));
    assert(e1 + Seq::<EffectView>::empty() =~= e1);
    lemma_request_starts_one_run(m, config, root);
    lemma_events_only(t, config, root, after);
}

} // verus!
