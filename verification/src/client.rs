//! The client handle: the cross-thread surface of the compile worker.
//!
//! The handle submits interrupts, manages entry-state transitions and
//! provides the "steal" primitives that run one-shot closures with
//! exclusive access to worker state. It owns only a cached copy of the
//! entry state for cheap equality checks; every mutation is relayed
//! through an interrupt and committed to the cache only after the
//! worker reports success.
//!
//! The handle records every interrupt it submits in `submitted` and
//! every export message in `export_submitted`; the worker records every
//! task it ran in its own `executed` log. In the real process the two
//! sides are joined by an ordered single-consumer channel and the
//! blocking completion receive; here the relay of each accepted
//! interrupt is the call on the worker, made under the exclusive access
//! the channel hop would grant.

use vstd::prelude::*;

use crate::driver::{
    analysis_failure, analysis_ready, AnalysisCapability,
};
use crate::entry::{
    determine_entry_spec, is_inactive, is_inactive_spec, opt_view, requested_valid,
    check_entry_path, CompileConfig, EntryState,
};
use crate::handler::same_identity;
use crate::messages::{
    ChannelError, CompileEpisode, DiagnosticsMap, Document, EditorRequest, Emit, EntryError,
    ExportConfig, ExportKind, ExportRequest, Interrupt, MemoryEvent, MemoryUsage,
    ServerInfoResponse, StealError, clone_string_pairs, clone_string_vec,
};
use crate::worker::{apply_memory_spec, worker_accepts, CompileWorker};
use crate::driver::wrap_compile_emits;

verus! {

/// The task serials of a submission log, in submission order.
pub open spec fn task_ids(s: Seq<Interrupt>) -> Seq<u64>
    decreases s.len(),
{
    if s.len() == 0 {
        Seq::<u64>::empty()
    } else {
        let rest = task_ids(s.drop_last());
        match s.last() {
            Interrupt::Task(id) => rest.push(id),
            _ => rest,
        }
    }
}

/// Appending a task record appends its serial to the task ids.
pub proof fn lemma_task_ids_push_task(s: Seq<Interrupt>, id: u64)
    ensures
        task_ids(s.push(Interrupt::Task(id))) == task_ids(s).push(id),
{
    assert(s.push(Interrupt::Task(id)).drop_last() =~= s);
}

/// Appending a non-task record leaves the task ids unchanged.
pub proof fn lemma_task_ids_push_other(s: Seq<Interrupt>, intr: Interrupt)
    requires
        !(intr matches Interrupt::Task(_)),
    ensures
        task_ids(s.push(intr)) == task_ids(s),
{
    assert(s.push(intr).drop_last() =~= s);
}

/// Two memory events carrying the same change.
pub open spec fn memory_event_matches(a: MemoryEvent, b: MemoryEvent) -> bool {
    match (a, b) {
        (MemoryEvent::Sync(x), MemoryEvent::Sync(y)) => x@ == y@,
        (MemoryEvent::Update(x), MemoryEvent::Update(y)) => x@ == y@,
        _ => false,
    }
}

/// The memory-usage counters a server info snapshot of `w` reports.
pub open spec fn reported_usage(w: CompileWorker) -> MemoryUsage {
    MemoryUsage { vfs: w.compiler.world.vfs_bytes, analysis: w.compiler.analysis.cache_bytes }
}

/// Whether an export message reroutes the export target to `next`.
pub open spec fn is_change_export_path(m: ExportRequest, next: crate::entry::EntryStateV) -> bool {
    match m {
        ExportRequest::ChangeExportPath(e) => e@ == next,
        _ => false,
    }
}

/// Controls the compile worker from other threads and tasks.
pub struct CompileClientActor {
    /// The diagnostics group this pair of handle and worker reports
    /// under.
    pub diag_group: String,
    /// The configuration the next entry state is computed from.
    pub config: CompileConfig,
    /// The cached copy of the worker's entry state; committed only
    /// after the worker confirms a swap.
    pub entry: EntryState,
    /// Every interrupt submitted so far, in submission order.
    pub submitted: Vec<Interrupt>,
    /// Every message sent to the export subsystem so far.
    pub export_submitted: Vec<ExportRequest>,
    /// The serial the next submitted task will carry.
    pub next_task: u64,
}

impl CompileClientActor {
    /// Task serials are fresh: every submitted serial is below the
    /// counter, and they were handed out in increasing order.
    pub open spec fn wf(self) -> bool {
        &&& forall|i: int|
            0 <= i < task_ids(self.submitted@).len() ==> #[trigger] task_ids(self.submitted@)[i]
                < self.next_task
        &&& forall|i: int, j: int|
            0 <= i < j < task_ids(self.submitted@).len() ==> #[trigger] task_ids(
                self.submitted@,
            )[i] < #[trigger] task_ids(self.submitted@)[j]
    }

    /// The worker has run exactly the submitted tasks, in submission
    /// order.
    pub open spec fn in_sync(self, w: CompileWorker) -> bool {
        task_ids(self.submitted@) == w.executed@
    }

    /// A handle for the given group over the given configuration, with
    /// the worker's initial entry as the cache and nothing submitted.
    pub fn new(diag_group: String, config: CompileConfig, entry: EntryState) -> (c:
        CompileClientActor)
        ensures
            c.diag_group == diag_group,
            c.config == config,
            c.entry == entry,
            c.submitted@ == Seq::<Interrupt>::empty(),
            c.export_submitted@ == Seq::<ExportRequest>::empty(),
            c.next_task == 0,
            c.wf(),
    {
        let c = CompileClientActor {
            diag_group,
            config,
            entry,
            submitted: Vec::new(),
            export_submitted: Vec::new(),
            next_task: 0,
        };
        proof {
            assert(task_ids(c.submitted@) =~= Seq::<u64>::empty());
        }
        c
    }

    /// Packages one task, submits it and records the execution: the
    /// queue relays it to the worker, which runs it under exclusive
    /// access. Fails with a channel error, changing nothing, when the
    /// worker has settled. Returns the serial the task ran under.
    fn steal_inner(&mut self, worker: &mut CompileWorker) -> (r: Result<u64, ChannelError>)
        requires
            old(self).next_task < u64::MAX,
        ensures
            r is Ok <==> worker_accepts(*old(worker)),
            r is Err ==> *final(self) == *old(self) && *final(worker) == *old(worker),
            r is Ok ==> {
                &&& r->Ok_0 == old(self).next_task
                &&& *final(self) == (CompileClientActor {
                    submitted: final(self).submitted,
                    next_task: (old(self).next_task + 1) as u64,
                    ..*old(self)
                })
                &&& final(self).submitted@ == old(self).submitted@ + seq![
                    Interrupt::Task(old(self).next_task),
                ]
                &&& *final(worker) == (CompileWorker {
                    executed: final(worker).executed,
                    ..*old(worker)
                })
                &&& final(worker).executed@ == old(worker).executed@ + seq![old(self).next_task]
            },
            old(self).wf() ==> final(self).wf(),
            old(self).wf() && old(self).in_sync(*old(worker)) ==> final(self).in_sync(
                *final(worker),
            ),
    {
        if worker.settled {
            return Err(ChannelError::Closed);
        }
        let id = self.next_task;
        self.next_task = id + 1;
        self.submitted.push(Interrupt::Task(id));
        let _ = worker.process_task(id);
        proof {
            lemma_task_ids_push_task(old(self).submitted@, id);
            assert(final(self).submitted@ =~= old(self).submitted@.push(Interrupt::Task(id)));
            assert(final(worker).executed@ =~= old(worker).executed@.push(id));
            if old(self).wf() {
                let ids0 = task_ids(old(self).submitted@);
                let ids1 = task_ids(final(self).submitted@);
                assert(ids1 =~= ids0.push(id));
                assert forall|i: int, j: int|
                    0 <= i < j < ids1.len() implies #[trigger] ids1[i] < #[trigger] ids1[j] by {
                    if j < ids0.len() {
                    } else {
                        assert(ids1[j] == id);
                    }
                }
            }
        }
        Ok(id)
    }

    /// Steals the worker and runs one closure on it, blocking the
    /// calling thread until the completion channel is fulfilled. The
    /// task runs exactly once if accepted into the queue; a settled
    /// worker refuses it with a channel error.
    pub fn steal(&mut self, worker: &mut CompileWorker) -> (r: Result<u64, ChannelError>)
        requires
            old(self).next_task < u64::MAX,
        ensures
            r is Ok <==> worker_accepts(*old(worker)),
            r is Err ==> *final(self) == *old(self) && *final(worker) == *old(worker),
            r is Ok ==> {
                &&& r->Ok_0 == old(self).next_task
                &&& *final(self) == (CompileClientActor {
                    submitted: final(self).submitted,
                    next_task: (old(self).next_task + 1) as u64,
                    ..*old(self)
                })
                &&& final(self).submitted@ == old(self).submitted@ + seq![
                    Interrupt::Task(old(self).next_task),
                ]
                &&& *final(worker) == (CompileWorker {
                    executed: final(worker).executed,
                    ..*old(worker)
                })
                &&& final(worker).executed@ == old(worker).executed@ + seq![old(self).next_task]
            },
            old(self).wf() ==> final(self).wf(),
            old(self).wf() && old(self).in_sync(*old(worker)) ==> final(self).in_sync(
                *final(worker),
            ),
    {
        self.steal_inner(worker)
    }

    /// The suspending variant of `steal`: the calling task, not its
    /// thread, waits for the completion channel. The protocol and its
    /// guarantees are those of `steal`.
    pub fn steal_async(&mut self, worker: &mut CompileWorker) -> (r: Result<u64, ChannelError>)
        requires
            old(self).next_task < u64::MAX,
        ensures
            r is Ok <==> worker_accepts(*old(worker)),
            r is Err ==> *final(self) == *old(self) && *final(worker) == *old(worker),
            r is Ok ==> {
                &&& r->Ok_0 == old(self).next_task
                &&& *final(self) == (CompileClientActor {
                    submitted: final(self).submitted,
                    next_task: (old(self).next_task + 1) as u64,
                    ..*old(self)
                })
                &&& final(self).submitted@ == old(self).submitted@ + seq![
                    Interrupt::Task(old(self).next_task),
                ]
                &&& *final(worker) == (CompileWorker {
                    executed: final(worker).executed,
                    ..*old(worker)
                })
                &&& final(worker).executed@ == old(worker).executed@ + seq![old(self).next_task]
            },
            old(self).wf() ==> final(self).wf(),
            old(self).wf() && old(self).in_sync(*old(worker)) ==> final(self).in_sync(
                *final(worker),
            ),
    {
        self.steal_inner(worker)
    }

    /// Steals the worker and prepares an analysis run over its state
    /// and the latest successful document: the closure the caller runs
    /// over the returned capability sees exactly the document returned
    /// here. `source_ok` and `env_ok` are the outside world's answers
    /// while preparing this run.
    pub fn steal_state(
        &mut self,
        worker: &mut CompileWorker,
        source_ok: bool,
        env_ok: bool,
    ) -> (r: Result<(AnalysisCapability, Option<Document>), StealError>)
        requires
            old(self).next_task < u64::MAX,
        ensures
            r is Ok <==> worker_accepts(*old(worker)) && analysis_ready(
                old(worker).compiler.world.entry@,
                source_ok,
                env_ok,
            ),
            !worker_accepts(*old(worker)) ==> r == Err::<
                (AnalysisCapability, Option<Document>),
                StealError,
            >(StealError::Closed) && *final(self) == *old(self) && *final(worker) == *old(worker),
            worker_accepts(*old(worker)) ==> {
                &&& final(self).submitted@ == old(self).submitted@ + seq![
                    Interrupt::Task(old(self).next_task),
                ]
                &&& final(worker).executed@ == old(worker).executed@ + seq![old(self).next_task]
                &&& final(worker).settled == old(worker).settled
                &&& final(worker).latest_doc == old(worker).latest_doc
                &&& final(worker).compiler.world == old(worker).compiler.world
                &&& final(worker).compiler.handler == old(worker).compiler.handler
            },
            r is Ok ==> {
                &&& r->Ok_0.0.root == old(worker).compiler.world.entry.root->0
                &&& r->Ok_0.1 == old(worker).latest_doc
                &&& final(worker).compiler.analysis.root == old(worker).compiler.world.entry.root
                &&& final(worker).compiler.analysis.cache_bytes == old(
                    worker,
                ).compiler.analysis.cache_bytes
            },
            worker_accepts(*old(worker)) && !analysis_ready(
                old(worker).compiler.world.entry@,
                source_ok,
                env_ok,
            ) ==> {
                &&& r == Err::<(AnalysisCapability, Option<Document>), StealError>(
                    StealError::Analysis(
                        analysis_failure(old(worker).compiler.world.entry@, source_ok, env_ok),
                    ),
                )
                &&& final(worker).compiler.analysis == old(worker).compiler.analysis
            },
            old(self).wf() ==> final(self).wf(),
            old(self).wf() && old(self).in_sync(*old(worker)) ==> final(self).in_sync(
                *final(worker),
            ),
    {
        match self.steal_inner(worker) {
            Err(ChannelError::Closed) => Err(StealError::Closed),
            Ok(_id) => {
                let doc = worker.success_doc();
                match worker.compiler.run_analysis(source_ok, env_ok) {
                    Ok(capability) => Ok((capability, doc)),
                    Err(reason) => Err(StealError::Analysis(reason)),
                }
            },
        }
    }

    /// Steals the worker and prepares an analysis run over its world
    /// alone. The guarantees are those of `steal_state`, without the
    /// document.
    pub fn steal_world(&mut self, worker: &mut CompileWorker, source_ok: bool, env_ok: bool) -> (r:
        Result<AnalysisCapability, StealError>)
        requires
            old(self).next_task < u64::MAX,
        ensures
            r is Ok <==> worker_accepts(*old(worker)) && analysis_ready(
                old(worker).compiler.world.entry@,
                source_ok,
                env_ok,
            ),
            !worker_accepts(*old(worker)) ==> r == Err::<AnalysisCapability, StealError>(
                StealError::Closed,
            ) && *final(self) == *old(self) && *final(worker) == *old(worker),
            worker_accepts(*old(worker)) ==> {
                &&& final(self).submitted@ == old(self).submitted@ + seq![
                    Interrupt::Task(old(self).next_task),
                ]
                &&& final(worker).executed@ == old(worker).executed@ + seq![old(self).next_task]
                &&& final(worker).settled == old(worker).settled
                &&& final(worker).latest_doc == old(worker).latest_doc
                &&& final(worker).compiler.world == old(worker).compiler.world
                &&& final(worker).compiler.handler == old(worker).compiler.handler
            },
            r is Ok ==> {
                &&& r->Ok_0.root == old(worker).compiler.world.entry.root->0
                &&& final(worker).compiler.analysis.root == old(worker).compiler.world.entry.root
                &&& final(worker).compiler.analysis.cache_bytes == old(
                    worker,
                ).compiler.analysis.cache_bytes
            },
            worker_accepts(*old(worker)) && !analysis_ready(
                old(worker).compiler.world.entry@,
                source_ok,
                env_ok,
            ) ==> {
                &&& r == Err::<AnalysisCapability, StealError>(
                    StealError::Analysis(
                        analysis_failure(old(worker).compiler.world.entry@, source_ok, env_ok),
                    ),
                )
                &&& final(worker).compiler.analysis == old(worker).compiler.analysis
            },
            old(self).wf() ==> final(self).wf(),
            old(self).wf() && old(self).in_sync(*old(worker)) ==> final(self).in_sync(
                *final(worker),
            ),
    {
        match self.steal_inner(worker) {
            Err(ChannelError::Closed) => Err(StealError::Closed),
            Ok(_id) => match worker.compiler.run_analysis(source_ok, env_ok) {
                Ok(capability) => Ok(capability),
                Err(reason) => Err(StealError::Analysis(reason)),
            },
        }
    }

    /// Replaces the configuration the next entry state is computed
    /// from.
    pub fn sync_config(&mut self, config: CompileConfig)
        ensures
            *final(self) == (CompileClientActor { config, ..*old(self) }),
    {
        self.config = config;
    }
}

/// The complete effect of one entry change, relating the handle and
/// worker before (`c0`, `w0`) and after (`c1`, `w1`) a call with the
/// requested `path`, the worker-side swap outcome `swap_ok`, and the
/// returned `r`. An invalid path fails fast with no side effect; an
/// unchanged computed entry is a silent no-op with no interrupt; a
/// settled worker refuses; otherwise the swap task runs (clearing
/// diagnostics when the next entry is inactive), and only a confirmed
/// swap commits the cache and reroutes the export target — on failure
/// the cached entry stands.
pub open spec fn entry_change_post(
    c0: CompileClientActor,
    w0: CompileWorker,
    c1: CompileClientActor,
    w1: CompileWorker,
    path: Option<Seq<char>>,
    swap_ok: bool,
    r: Result<bool, EntryError>,
) -> bool {
    let next = determine_entry_spec(c0.config@, path);
    if !requested_valid(path) {
        c1 == c0 && w1 == w0 && r == Err::<bool, EntryError>(EntryError::NotAbsolute)
    } else if next == c0.entry@ {
        c1 == c0 && w1 == w0 && r == Ok::<bool, EntryError>(false)
    } else if !worker_accepts(w0) {
        c1 == c0 && w1 == w0 && r == Err::<bool, EntryError>(EntryError::Closed)
    } else {
        &&& w1.executed@ == w0.executed@ + seq![c0.next_task]
        &&& w1.settled == w0.settled
        &&& w1.latest_doc == w0.latest_doc
        &&& w1.compiler.world.entry@ == next
        &&& w1.compiler.world.font_paths == w0.compiler.world.font_paths
        &&& w1.compiler.world.inputs == w0.compiler.world.inputs
        &&& w1.compiler.world.vfs_bytes == w0.compiler.world.vfs_bytes
        &&& w1.compiler.world.shadow_files == w0.compiler.world.shadow_files
        &&& w1.compiler.analysis == w0.compiler.analysis
        &&& same_identity(w1.compiler.handler, w0.compiler.handler)
        &&& w1.compiler.handler.sink@ == w0.compiler.handler.sink@ + (if is_inactive_spec(next) {
            seq![
                Emit::Editor(
                    EditorRequest::Diag(
                        w0.compiler.handler.diag_group,
                        Option::<DiagnosticsMap>::None,
                    ),
                ),
            ]
        } else {
            Seq::<Emit>::empty()
        })
        &&& c1.diag_group == c0.diag_group
        &&& c1.config == c0.config
        &&& c1.submitted@ == c0.submitted@ + seq![Interrupt::Task(c0.next_task)]
        &&& c1.next_task == c0.next_task + 1
        &&& if swap_ok {
            &&& r == Ok::<bool, EntryError>(true)
            &&& c1.entry@ == next
            &&& c1.export_submitted@.len() == c0.export_submitted@.len() + 1
            &&& c1.export_submitted@.subrange(0, c0.export_submitted@.len() as int)
                == c0.export_submitted@
            &&& is_change_export_path(c1.export_submitted@.last(), next)
        } else {
            &&& r == Err::<bool, EntryError>(EntryError::SwapFailed)
            &&& c1.entry == c0.entry
            &&& c1.export_submitted == c0.export_submitted
        }
    }
}

impl CompileClientActor {
    /// Changes the active entry to the requested path, or to no active
    /// document. Validates the path before any side effect, computes
    /// the next entry from the configuration, and skips the worker
    /// entirely when nothing would change. Otherwise one swap task runs
    /// on the worker; `swap_ok` is the world's answer to the mutation.
    /// Only a confirmed swap is committed to the cache and announced to
    /// the export subsystem; a failed swap leaves the cached entry
    /// exactly as it was. Returns whether anything changed.
    ///
    /// A failed swap emits no new status message: the policy here is
    /// that the last reported compile status stands until the next
    /// compile attempt reports again.
    pub fn change_entry(
        &mut self,
        worker: &mut CompileWorker,
        path: Option<String>,
        swap_ok: bool,
    ) -> (r: Result<bool, EntryError>)
        requires
            old(self).next_task < u64::MAX,
        ensures
            entry_change_post(
                *old(self),
                *old(worker),
                *final(self),
                *final(worker),
                opt_view(path),
                swap_ok,
                r,
            ),
            old(self).wf() ==> final(self).wf(),
            old(self).wf() && old(self).in_sync(*old(worker)) ==> final(self).in_sync(
                *final(worker),
            ),
    {
        match &path {
            Some(p) => {
                if !check_entry_path(p) {
                    return Err(EntryError::NotAbsolute);
                }
            },
            None => {},
        }
        let next_entry = self.config.determine_entry(path);
        if next_entry.same_as(&self.entry) {
            return Ok(false);
        }
        match self.steal_inner(worker) {
            Err(ChannelError::Closed) => Err(EntryError::Closed),
            Ok(_id) => {
                // the swap task, run with exclusive access to the worker
                worker.compiler.world.entry = next_entry.duplicate();
                let next_is_inactive = is_inactive(&next_entry);
                if next_is_inactive {
                    worker.compiler.handler.push_diagnostics(None);
                }
                if !swap_ok {
                    return Err(EntryError::SwapFailed);
                }
                self.export_submitted.push(
                    ExportRequest::ChangeExportPath(next_entry.duplicate()),
                );
                self.entry = next_entry;
                proof {
                    assert(final(self).export_submitted@.subrange(
                        0,
                        old(self).export_submitted@.len() as int,
                    ) =~= old(self).export_submitted@);
                }
                Ok(true)
            },
        }
    }

    /// Initiates shutdown: resolves the entry to no active document
    /// (with `swap_ok` as the world's answer to that swap), then
    /// submits the settle request and waits for the acknowledgement.
    /// When settle returns the worker is settled for good and refuses
    /// every further interrupt; a worker that was already settled is
    /// left untouched.
    pub fn settle(&mut self, worker: &mut CompileWorker, swap_ok: bool)
        requires
            old(self).next_task < u64::MAX,
        ensures
            final(worker).settled,
            !worker_accepts(*old(worker)) ==> *final(self) == *old(self) && *final(worker)
                == *old(worker),
            worker_accepts(*old(worker)) ==> ({
                let next = determine_entry_spec(old(self).config@, None);
                &&& final(self).diag_group == old(self).diag_group
                &&& final(self).config == old(self).config
                &&& final(worker).latest_doc == old(worker).latest_doc
                &&& final(worker).compiler.analysis == old(worker).compiler.analysis
                &&& same_identity(final(worker).compiler.handler, old(worker).compiler.handler)
                &&& if next == old(self).entry@ {
                    &&& final(self).submitted@ == old(self).submitted@ + seq![Interrupt::Settle]
                    &&& final(self).entry == old(self).entry
                    &&& final(self).export_submitted == old(self).export_submitted
                    &&& final(self).next_task == old(self).next_task
                    &&& *final(worker) == (CompileWorker { settled: true, ..*old(worker) })
                } else {
                    &&& final(self).submitted@ == old(self).submitted@ + seq![
                        Interrupt::Task(old(self).next_task),
                        Interrupt::Settle,
                    ]
                    &&& final(self).next_task == old(self).next_task + 1
                    &&& final(worker).executed@ == old(worker).executed@ + seq![
                        old(self).next_task,
                    ]
                    &&& final(worker).compiler.world.entry@ == next
                    &&& final(worker).compiler.world.font_paths == old(
                        worker,
                    ).compiler.world.font_paths
                    &&& final(worker).compiler.world.inputs == old(worker).compiler.world.inputs
                    &&& final(worker).compiler.world.vfs_bytes == old(
                        worker,
                    ).compiler.world.vfs_bytes
                    &&& final(worker).compiler.world.shadow_files == old(
                        worker,
                    ).compiler.world.shadow_files
                    &&& final(worker).compiler.handler.sink@ == old(
                        worker,
                    ).compiler.handler.sink@ + seq![
                        Emit::Editor(
                            EditorRequest::Diag(
                                old(worker).compiler.handler.diag_group,
                                Option::<DiagnosticsMap>::None,
                            ),
                        ),
                    ]
                    &&& if swap_ok {
                        &&& final(self).entry@ == next
                        &&& final(self).export_submitted@.len() == old(
                            self,
                        ).export_submitted@.len() + 1
                        &&& final(self).export_submitted@.subrange(
                            0,
                            old(self).export_submitted@.len() as int,
                        ) == old(self).export_submitted@
                        &&& is_change_export_path(final(self).export_submitted@.last(), next)
                    } else {
                        &&& final(self).entry == old(self).entry
                        &&& final(self).export_submitted == old(self).export_submitted
                    }
                }
            }),
            old(self).wf() ==> final(self).wf(),
            old(self).wf() && old(self).in_sync(*old(worker)) ==> final(self).in_sync(
                *final(worker),
            ),
    {
        let _ = self.change_entry(worker, None, swap_ok);
        if !worker.settled {
            let ghost before = self.submitted@;
            self.submitted.push(Interrupt::Settle);
            let _ = worker.process_settle();
            proof {
                lemma_task_ids_push_other(before, Interrupt::Settle);
                assert(self.submitted@ =~= before.push(Interrupt::Settle));
                assert(task_ids(self.submitted@) == task_ids(before));
                if determine_entry_spec(old(self).config@, None) != old(self).entry@ {
                    assert(self.submitted@ =~= old(self).submitted@ + seq![
                        Interrupt::Task(old(self).next_task),
                        Interrupt::Settle,
                    ]);
                }
            }
        }
    }

    /// Submits one in-memory document change, fire and forget: the
    /// worker applies the edit and runs one compile attempt over the
    /// edited world, with `ep` as what the outside collaborators
    /// produced for it. A settled worker drops the event silently.
    pub fn add_memory_changes(
        &mut self,
        worker: &mut CompileWorker,
        event: MemoryEvent,
        ep: CompileEpisode,
    )
        ensures
            !worker_accepts(*old(worker)) ==> *final(self) == *old(self) && *final(worker)
                == *old(worker),
            worker_accepts(*old(worker)) ==> {
                &&& final(self).submitted@.len() == old(self).submitted@.len() + 1
                &&& final(self).submitted@.subrange(0, old(self).submitted@.len() as int) == old(
                    self,
                ).submitted@
                &&& (final(self).submitted@.last() matches Interrupt::Memory(recorded)
                    && memory_event_matches(recorded, event))
                &&& final(self).diag_group == old(self).diag_group
                &&& final(self).config == old(self).config
                &&& final(self).entry == old(self).entry
                &&& final(self).export_submitted == old(self).export_submitted
                &&& final(self).next_task == old(self).next_task
                &&& final(worker).settled == old(worker).settled
                &&& final(worker).executed == old(worker).executed
                &&& final(worker).compiler.world.shadow_files@ == apply_memory_spec(
                    old(worker).compiler.world.shadow_files@,
                    event,
                )
                &&& final(worker).compiler.world.entry == old(worker).compiler.world.entry
                &&& final(worker).compiler.world.font_paths == old(
                    worker,
                ).compiler.world.font_paths
                &&& final(worker).compiler.world.inputs == old(worker).compiler.world.inputs
                &&& final(worker).compiler.world.vfs_bytes == old(worker).compiler.world.vfs_bytes
                &&& same_identity(final(worker).compiler.handler, old(worker).compiler.handler)
                &&& final(worker).compiler.analysis.cache_bytes == old(
                    worker,
                ).compiler.analysis.cache_bytes
                &&& final(worker).compiler.handler.sink@ == old(worker).compiler.handler.sink@
                    + wrap_compile_emits(old(worker).compiler, ep)
                &&& final(worker).latest_doc == if ep.outcome is Some {
                    ep.outcome
                } else {
                    old(worker).latest_doc
                }
            },
            old(self).wf() ==> final(self).wf(),
            old(self).wf() && old(self).in_sync(*old(worker)) ==> final(self).in_sync(
                *final(worker),
            ),
    {
        if worker.settled {
            return ;
        }
        let recorded = duplicate_memory_event(&event);
        self.submitted.push(Interrupt::Memory(recorded));
        worker.process_memory(event, ep);
        proof {
            let last = self.submitted@.last();
            assert(self.submitted@.subrange(0, old(self).submitted@.len() as int) =~= old(
                self,
            ).submitted@);
            lemma_task_ids_push_other(old(self).submitted@, last);
            assert(old(self).submitted@.push(last) =~= self.submitted@);
        }
    }

    /// Reroutes the export subsystem's configuration, fire and forget.
    pub fn change_export_pdf(&mut self, config: ExportConfig)
        ensures
            *final(self) == (CompileClientActor {
                export_submitted: final(self).export_submitted,
                ..*old(self)
            }),
            final(self).export_submitted@ == old(self).export_submitted@ + seq![
                ExportRequest::ChangeConfig(config),
            ],
    {
        self.export_submitted.push(ExportRequest::ChangeConfig(config));
    }

    /// Resets the analysis memoization caches to empty, through one
    /// steal task. A settled worker leaves everything untouched; the
    /// failure is logged, not surfaced.
    pub fn clear_cache(&mut self, worker: &mut CompileWorker)
        requires
            old(self).next_task < u64::MAX,
        ensures
            !worker_accepts(*old(worker)) ==> *final(self) == *old(self) && *final(worker)
                == *old(worker),
            worker_accepts(*old(worker)) ==> {
                &&& *final(self) == (CompileClientActor {
                    submitted: final(self).submitted,
                    next_task: (old(self).next_task + 1) as u64,
                    ..*old(self)
                })
                &&& final(self).submitted@ == old(self).submitted@ + seq![
                    Interrupt::Task(old(self).next_task),
                ]
                &&& final(worker).executed@ == old(worker).executed@ + seq![old(self).next_task]
                &&& final(worker).settled == old(worker).settled
                &&& final(worker).latest_doc == old(worker).latest_doc
                &&& final(worker).compiler.world == old(worker).compiler.world
                &&& final(worker).compiler.handler == old(worker).compiler.handler
                &&& final(worker).compiler.analysis.root == old(worker).compiler.analysis.root
                &&& final(worker).compiler.analysis.cache_bytes == 0
            },
            old(self).wf() ==> final(self).wf(),
            old(self).wf() && old(self).in_sync(*old(worker)) ==> final(self).in_sync(
                *final(worker),
            ),
    {
        match self.steal_inner(worker) {
            Err(ChannelError::Closed) => {},
            Ok(_id) => {
                worker.compiler.analysis.cache_bytes = 0;
            },
        }
    }

    /// Builds a point-in-time snapshot of the worker, through one
    /// steal task: the root, the font search paths, the input bindings
    /// and the memory-usage counters of the content cache and the
    /// analysis caches, keyed by this handle's diagnostics group.
    /// Nothing is mutated.
    pub fn collect_server_info(&mut self, worker: &mut CompileWorker) -> (r: Result<
        Vec<(String, ServerInfoResponse)>,
        ChannelError,
    >)
        requires
            old(self).next_task < u64::MAX,
        ensures
            r is Ok <==> worker_accepts(*old(worker)),
            r is Err ==> *final(self) == *old(self) && *final(worker) == *old(worker),
            r is Ok ==> {
                &&& *final(self) == (CompileClientActor {
                    submitted: final(self).submitted,
                    next_task: (old(self).next_task + 1) as u64,
                    ..*old(self)
                })
                &&& final(self).submitted@ == old(self).submitted@ + seq![
                    Interrupt::Task(old(self).next_task),
                ]
                &&& *final(worker) == (CompileWorker {
                    executed: final(worker).executed,
                    ..*old(worker)
                })
                &&& final(worker).executed@ == old(worker).executed@ + seq![old(self).next_task]
                &&& r->Ok_0@.len() == 1
                &&& r->Ok_0@[0].0 == old(self).diag_group
                &&& r->Ok_0@[0].1.root == old(worker).compiler.world.entry.root
                &&& r->Ok_0@[0].1.font_paths@ == old(worker).compiler.world.font_paths@
                &&& r->Ok_0@[0].1.inputs@ == old(worker).compiler.world.inputs@
                &&& r->Ok_0@[0].1.estimated_memory == reported_usage(*old(worker))
            },
            old(self).wf() ==> final(self).wf(),
            old(self).wf() && old(self).in_sync(*old(worker)) ==> final(self).in_sync(
                *final(worker),
            ),
    {
        match self.steal_inner(worker) {
            Err(e) => Err(e),
            Ok(_id) => {
                let info = ServerInfoResponse {
                    root: crate::entry::opt_string_clone(&worker.compiler.world.entry.root),
                    font_paths: clone_string_vec(&worker.compiler.world.font_paths),
                    inputs: clone_string_pairs(&worker.compiler.world.inputs),
                    estimated_memory: MemoryUsage {
                        vfs: worker.compiler.world.vfs_bytes,
                        analysis: worker.compiler.analysis.cache_bytes,
                    },
                };
                let mut out: Vec<(String, ServerInfoResponse)> = Vec::new();
                out.push((self.diag_group.clone(), info));
                Ok(out)
            },
        }
    }

    /// Requests one export of the given kind and blocks for the
    /// produced artifact path, which arrives on the request's
    /// completion channel (`produced` is what the export service
    /// answered). The target path is accepted but not yet respected:
    /// the service exports to its configured path, so the argument is
    /// deliberately ignored rather than silently rerouted.
    pub fn on_export(&mut self, kind: ExportKind, _path: String, produced: Option<String>) -> (r:
        Option<String>)
        ensures
            *final(self) == (CompileClientActor {
                export_submitted: final(self).export_submitted,
                ..*old(self)
            }),
            final(self).export_submitted@ == old(self).export_submitted@ + seq![
                ExportRequest::Oneshot(kind),
            ],
            r == produced,
    {
        self.export_submitted.push(ExportRequest::Oneshot(kind));
        produced
    }

    /// Triggers a re-export after a save, fire and forget. The saved
    /// path is accepted but the service re-exports to its configured
    /// path; the argument is deliberately ignored.
    pub fn on_save_export(&mut self, _path: String)
        ensures
            *final(self) == (CompileClientActor {
                export_submitted: final(self).export_submitted,
                ..*old(self)
            }),
            final(self).export_submitted@ == old(self).export_submitted@ + seq![
                ExportRequest::OnSaved,
            ],
    {
        self.export_submitted.push(ExportRequest::OnSaved);
    }
}

/// A copy of a memory event carrying the same change.
fn duplicate_memory_event(e: &MemoryEvent) -> (r: MemoryEvent)
    ensures
        memory_event_matches(r, *e),
{
    match e {
        MemoryEvent::Sync(files) => MemoryEvent::Sync(clone_string_vec(files)),
        MemoryEvent::Update(files) => MemoryEvent::Update(clone_string_vec(files)),
    }
}

} // verus!
