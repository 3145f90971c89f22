//! The protocol's guarantees, stated once over the contracts of the
//! operations they follow from.
//!
//! Each law below is proved from what the operations' own `ensures`
//! state, so it holds of every execution of the protocol, not of chosen
//! runs.

use vstd::prelude::*;

use crate::client::{
    entry_change_post, reported_usage, task_ids, CompileClientActor,
};
use crate::driver::{
    analysis_ready, diagnostics_decision, wrap_compile_emits, CompileDriver,
};
use crate::entry::EntryStateV;
use crate::entry::is_inactive_spec;
use crate::messages::{
    CompileEpisode, CompileStatus, DiagnosticsMap, EditorRequest, Emit, EntryError, ExportRequest,
    MemoryUsage,
};
use crate::worker::{worker_accepts, CompileWorker};

verus! {

/// Idempotent entry change: after a call that answered `Ok`, a second
/// call with the same requested path computes the same next entry,
/// finds it equal to the cache, and so answers `Ok(false)` without
/// submitting a second interrupt — handle and worker stand exactly as
/// the first call left them. The two hypotheses are `change_entry`'s
/// postcondition for the two calls.
pub proof fn lemma_entry_change_idempotent(
    c0: CompileClientActor,
    w0: CompileWorker,
    c1: CompileClientActor,
    w1: CompileWorker,
    c2: CompileClientActor,
    w2: CompileWorker,
    path: Option<Seq<char>>,
    swap_first: bool,
    swap_second: bool,
    r_first: Result<bool, EntryError>,
    r_second: Result<bool, EntryError>,
)
    requires
        entry_change_post(c0, w0, c1, w1, path, swap_first, r_first),
        entry_change_post(c1, w1, c2, w2, path, swap_second, r_second),
        r_first is Ok,
    ensures
        r_second == Ok::<bool, EntryError>(false),
        c2 == c1,
        w2 == w1,
{
}

/// A fresh handle and a fresh worker are in sync with nothing run:
/// the base case of the exactly-once guarantee, which every
/// operation's contract then preserves.
pub proof fn lemma_fresh_pair_in_sync(c: CompileClientActor, w: CompileWorker)
    requires
        c.submitted@ == Seq::<crate::messages::Interrupt>::empty(),
        w.executed@ == Seq::<u64>::empty(),
    ensures
        c.wf(),
        c.in_sync(w),
{
    assert(task_ids(c.submitted@) =~= Seq::<u64>::empty());
}

/// Exactly-once task execution: whenever the handle and worker are in
/// sync — as every operation's contract preserves — the worker's
/// execution log is precisely the sequence of submitted task serials,
/// in submission order, and no serial appears twice.
pub proof fn lemma_tasks_exactly_once(c: CompileClientActor, w: CompileWorker)
    requires
        c.wf(),
        c.in_sync(w),
    ensures
        w.executed@ == task_ids(c.submitted@),
        forall|i: int, j: int|
            0 <= i < j < w.executed@.len() ==> w.executed@[i] != w.executed@[j],
{
    assert forall|i: int, j: int|
        0 <= i < j < w.executed@.len() implies w.executed@[i] != w.executed@[j] by {
        assert(task_ids(c.submitted@)[i] < task_ids(c.submitted@)[j]);
    }
}

/// Diagnostics suppression: for any compile attempt whose active entry
/// is inactive, the diagnostics message delivered downstream is `None`,
/// whatever the error set converted to and however the analysis fared.
pub proof fn lemma_diagnostics_suppressed_when_inactive(
    e: EntryStateV,
    analysis_ok: bool,
    converted: DiagnosticsMap,
)
    requires
        is_inactive_spec(e),
    ensures
        diagnostics_decision(e, analysis_ok, converted) is None,
{
}

/// Success side-effect bundle: a successful compile emits exactly one
/// watch-point publish of the produced document, exactly one
/// "document changed" export trigger and exactly one success status —
/// in that relative order, between the opening `Compiling` status and
/// the closing diagnostics message, with the preview observer hearing
/// the episode exactly where it is attached.
pub proof fn lemma_success_side_effects(d: CompileDriver, ep: CompileEpisode)
    requires
        ep.outcome is Some,
    ensures
        ({
            let g = d.handler.diag_group;
            let doc = ep.outcome->0;
            let diag = diagnostics_decision(
                d.world.entry@,
                analysis_ready(d.world.entry@, ep.source_ok, ep.env_ok),
                ep.converted,
            );
            if d.handler.preview_attached {
                wrap_compile_emits(d, ep) == seq![
                    Emit::Editor(EditorRequest::Status(g, CompileStatus::Compiling)),
                    Emit::PreviewStatus(CompileStatus::Compiling),
                    Emit::Doc(doc),
                    Emit::Export(ExportRequest::OnTyped),
                    Emit::Editor(EditorRequest::Status(g, CompileStatus::CompileSuccess)),
                    Emit::PreviewNotify(ep.outcome),
                    Emit::Editor(EditorRequest::Diag(g, diag)),
                ]
            } else {
                wrap_compile_emits(d, ep) == seq![
                    Emit::Editor(EditorRequest::Status(g, CompileStatus::Compiling)),
                    Emit::Doc(doc),
                    Emit::Export(ExportRequest::OnTyped),
                    Emit::Editor(EditorRequest::Status(g, CompileStatus::CompileSuccess)),
                    Emit::Editor(EditorRequest::Diag(g, diag)),
                ]
            }
        }),
{
    let g = d.handler.diag_group;
    let doc = ep.outcome->0;
    let diag = diagnostics_decision(
        d.world.entry@,
        analysis_ready(d.world.entry@, ep.source_ok, ep.env_ok),
        ep.converted,
    );
    if d.handler.preview_attached {
        assert(wrap_compile_emits(d, ep) =~= seq![
            Emit::Editor(EditorRequest::Status(g, CompileStatus::Compiling)),
            Emit::PreviewStatus(CompileStatus::Compiling),
            Emit::Doc(doc),
            Emit::Export(ExportRequest::OnTyped),
            Emit::Editor(EditorRequest::Status(g, CompileStatus::CompileSuccess)),
            Emit::PreviewNotify(ep.outcome),
            Emit::Editor(EditorRequest::Diag(g, diag)),
        ]);
    } else {
        assert(wrap_compile_emits(d, ep) =~= seq![
            Emit::Editor(EditorRequest::Status(g, CompileStatus::Compiling)),
            Emit::Doc(doc),
            Emit::Export(ExportRequest::OnTyped),
            Emit::Editor(EditorRequest::Status(g, CompileStatus::CompileSuccess)),
            Emit::Editor(EditorRequest::Diag(g, diag)),
        ]);
    }
}

/// Rollback on failure: when the worker-side entry swap fails, the
/// client-visible entry state after the call equals the state before
/// it, and the call never reports a committed change. The hypothesis
/// is `change_entry`'s postcondition for a call whose swap failed.
pub proof fn lemma_entry_rollback_on_failure(
    c0: CompileClientActor,
    w0: CompileWorker,
    c1: CompileClientActor,
    w1: CompileWorker,
    path: Option<Seq<char>>,
    r: Result<bool, EntryError>,
)
    requires
        entry_change_post(c0, w0, c1, w1, path, false, r),
    ensures
        c1.entry == c0.entry,
        r != Ok::<bool, EntryError>(true),
{
}

/// Settle terminality: `settle` leaves the worker settled, no
/// operation's contract ever clears that flag, and a settled worker
/// accepts no interrupt — so by the steal contracts every later
/// `steal` answers a closed-channel error instead of hanging.
pub proof fn lemma_settle_terminal(w: CompileWorker)
    requires
        w.settled,
    ensures
        !worker_accepts(w),
{
}

/// Cache clear is observable: `clear_cache` leaves the analysis caches
/// at zero bytes — the baseline a fresh driver starts from — and any
/// later snapshot reports exactly the worker's counters, so it shows
/// the analysis usage back at that baseline.
pub proof fn lemma_cache_clear_observable(w: CompileWorker, usage: MemoryUsage)
    requires
        w.compiler.analysis.cache_bytes == 0,
        usage == reported_usage(w),
    ensures
        usage.analysis == 0,
{
}

} // verus!
