//! The compile driver: one compilation attempt and the diagnostics
//! pipeline around it.
//!
//! The driver owns the world state and the analysis cache of one
//! worker. A compile attempt first reports `Compiling`, then routes the
//! engine's outcome through the notification sink and the diagnostics
//! pipeline. The engine, the source loader, the environment preparer
//! and the diagnostics conversion are outside collaborators: what they
//! produced for one attempt arrives as a `CompileEpisode`, and the
//! routing below is proved for every value of it.

use vstd::prelude::*;

use crate::entry::{is_inactive, is_inactive_spec, EntryState, EntryStateV};
use crate::handler::{
    notify_emits, same_identity, status_emits, CompileHandler,
};
use crate::messages::{
    AnalysisError, CompileEpisode, CompileStatus, DiagnosticsMap, Document, EditorRequest, Emit,
};

verus! {

/// The part of the world state that the protocol reads: the active
/// entry, the introspectable configuration, and the memory-usage
/// counter of cached file content. Sources, fonts and the dependency
/// graph stay with the engine.
pub struct WorldState {
    /// The active entry, swapped only by the worker.
    pub entry: EntryState,
    /// Where fonts are searched, as reported by introspection.
    pub font_paths: Vec<String>,
    /// The input bindings of the active project.
    pub inputs: Vec<(String, String)>,
    /// Estimated bytes held by cached file content.
    pub vfs_bytes: u64,
    /// Documents whose content currently comes from memory, not disk.
    pub shadow_files: Vec<String>,
}

/// The analysis layer's mutable state: its memoization caches and the
/// root it was last prepared for.
pub struct AnalysisState {
    /// The project root the analysis context was last prepared with.
    pub root: Option<String>,
    /// Estimated bytes held by the analysis caches.
    pub cache_bytes: u64,
}

/// The read-only capability handed to analysis closures. Font lookup,
/// package resolution, dependency iteration and periscope rendering are
/// services of the outside world; the verified part is that the
/// capability exists only after a successful preparation, carrying the
/// prepared root.
pub struct AnalysisCapability {
    /// The project root the capability was prepared for.
    pub root: String,
}

/// Wraps one compilation attempt and the analysis bridge.
pub struct CompileDriver {
    /// The world state the engine compiles from.
    pub world: WorldState,
    /// The notification sink for everything handed outward.
    pub handler: CompileHandler,
    /// The analysis layer's state.
    pub analysis: AnalysisState,
}

/// Whether an analysis run can be prepared: the world must name a main
/// document and a project root, the main source must load, and the
/// environment must prepare.
pub open spec fn analysis_ready(e: EntryStateV, source_ok: bool, env_ok: bool) -> bool {
    e.main is Some && e.root is Some && source_ok && env_ok
}

/// The distinct failure reported when an analysis run cannot be
/// prepared, checked in this order.
pub open spec fn analysis_failure(e: EntryStateV, source_ok: bool, env_ok: bool) -> AnalysisError {
    if e.main is None {
        AnalysisError::NoMainFile
    } else if e.root is None {
        AnalysisError::NoRoot
    } else if !source_ok {
        AnalysisError::SourceNotReady
    } else {
        AnalysisError::EnvNotReady
    }
}

/// The diagnostics message delivered downstream for one attempt: the
/// converted map when analysis succeeded and the entry is active,
/// suppression (`None`) otherwise. A conversion failure degrades to
/// suppression rather than propagating.
pub open spec fn diagnostics_decision(
    e: EntryStateV,
    analysis_ok: bool,
    converted: DiagnosticsMap,
) -> Option<DiagnosticsMap> {
    if analysis_ok && !is_inactive_spec(e) {
        Some(converted)
    } else {
        None
    }
}

/// Everything one compile attempt emits, in order: the `Compiling`
/// status to the editor and to an attached preview, the outcome fan-out
/// of `notify_emits`, and one diagnostics message per
/// `diagnostics_decision`.
pub open spec fn wrap_compile_emits(d: CompileDriver, ep: CompileEpisode) -> Seq<Emit> {
    seq![
        Emit::Editor(EditorRequest::Status(d.handler.diag_group, CompileStatus::Compiling)),
    ] + status_emits(d.handler, CompileStatus::Compiling) + notify_emits(d.handler, ep.outcome)
        + seq![
        Emit::Editor(
            EditorRequest::Diag(
                d.handler.diag_group,
                diagnostics_decision(
                    d.world.entry@,
                    analysis_ready(d.world.entry@, ep.source_ok, ep.env_ok),
                    ep.converted,
                ),
            ),
        ),
    ]
}

impl CompileDriver {
    /// A driver over the given world with a fresh analysis state and a
    /// fresh handler for the group.
    pub fn new(diag_group: String, world: WorldState) -> (d: CompileDriver)
        ensures
            d.world == world,
            d.handler.diag_group == diag_group,
            !d.handler.preview_attached,
            d.handler.sink@ == Seq::<Emit>::empty(),
            d.analysis == (AnalysisState { root: None, cache_bytes: 0 }),
    {
        CompileDriver {
            world,
            handler: CompileHandler::new(diag_group),
            analysis: AnalysisState { root: None, cache_bytes: 0 },
        }
    }

    /// Read access to the wrapped world.
    pub fn inner(&self) -> (r: &WorldState)
        ensures
            r == &self.world,
    {
        &self.world
    }

    /// Exclusive access to the wrapped world.
    pub fn inner_mut(&mut self) -> (r: &mut WorldState)
        ensures
            *r == old(self).world,
            *final(self) == (CompileDriver { world: *final(r), ..*old(self) }),
    {
        &mut self.world
    }

    /// Prepares an analysis run: requires a main document and a project
    /// root on the current world, a loadable main source and a prepared
    /// environment; fails with the distinct error otherwise, mutating
    /// nothing. On success the analysis state is bound to the entry's
    /// root and the capability for the caller's closure is returned.
    /// Whether the source loaded and the environment prepared is the
    /// outside world's answer for this run, passed in as `source_ok`
    /// and `env_ok`.
    pub fn run_analysis(&mut self, source_ok: bool, env_ok: bool) -> (r: Result<
        AnalysisCapability,
        AnalysisError,
    >)
        ensures
            r is Ok <==> analysis_ready(old(self).world.entry@, source_ok, env_ok),
            r is Ok ==> {
                &&& r->Ok_0.root == old(self).world.entry.root->0
                &&& *final(self) == (CompileDriver {
                    analysis: AnalysisState {
                        root: old(self).world.entry.root,
                        cache_bytes: old(self).analysis.cache_bytes,
                    },
                    ..*old(self)
                })
            },
            r is Err ==> {
                &&& r->Err_0 == analysis_failure(old(self).world.entry@, source_ok, env_ok)
                &&& *final(self) == *old(self)
            },
    {
        if self.world.entry.main.is_none() {
            return Err(AnalysisError::NoMainFile);
        }
        let root = match &self.world.entry.root {
            Some(r) => r.clone(),
            None => {
                return Err(AnalysisError::NoRoot);
            },
        };
        if !source_ok {
            return Err(AnalysisError::SourceNotReady);
        }
        if !env_ok {
            return Err(AnalysisError::EnvNotReady);
        }
        self.analysis.root = Some(root.clone());
        Ok(AnalysisCapability { root })
    }

    /// Runs the diagnostics pipeline for one attempt: prepares the
    /// analysis, decides per `diagnostics_decision`, and hands exactly
    /// one diagnostics message to the editor queue. A failed
    /// preparation degrades to suppression.
    pub fn notify_diagnostics(&mut self, source_ok: bool, env_ok: bool, converted: DiagnosticsMap)
        ensures
            same_identity(final(self).handler, old(self).handler),
            final(self).world == old(self).world,
            final(self).analysis.cache_bytes == old(self).analysis.cache_bytes,
            final(self).handler.sink@ == old(self).handler.sink@ + seq![
                Emit::Editor(
                    EditorRequest::Diag(
                        old(self).handler.diag_group,
                        diagnostics_decision(
                            old(self).world.entry@,
                            analysis_ready(old(self).world.entry@, source_ok, env_ok),
                            converted,
                        ),
                    ),
                ),
            ],
            final(self).analysis.root == if analysis_ready(
                old(self).world.entry@,
                source_ok,
                env_ok,
            ) {
                old(self).world.entry.root
            } else {
                old(self).analysis.root
            },
    {
        let prepared = self.run_analysis(source_ok, env_ok);
        match prepared {
            Ok(_capability) => {
                let detached = is_inactive(&self.world.entry);
                if detached {
                    self.handler.push_diagnostics(None);
                } else {
                    self.handler.push_diagnostics(Some(converted));
                }
            },
            Err(_reason) => {
                self.handler.push_diagnostics(None);
            },
        }
    }

    /// One compilation attempt: reports `Compiling`, then routes the
    /// engine's outcome of this episode through the sink and the
    /// diagnostics pipeline, emitting exactly `wrap_compile_emits`. A
    /// failed compile is returned as a routine `Err`, never escalated.
    pub fn wrap_compile(&mut self, ep: CompileEpisode) -> (r: Result<Document, ()>)
        ensures
            same_identity(final(self).handler, old(self).handler),
            final(self).world == old(self).world,
            final(self).analysis.cache_bytes == old(self).analysis.cache_bytes,
            final(self).handler.sink@ == old(self).handler.sink@ + wrap_compile_emits(
                *old(self),
                ep,
            ),
            r is Ok <==> ep.outcome is Some,
            r is Ok ==> r->Ok_0 == ep.outcome->0,
    {
        let compiling = EditorRequest::Status(
            self.handler.diag_group.clone(),
            CompileStatus::Compiling,
        );
        self.handler.sink.push(Emit::Editor(compiling));
        self.handler.status(CompileStatus::Compiling);
        let r = match ep.outcome {
            Some(doc) => {
                self.handler.notify_compile(Some(doc));
                Ok(doc)
            },
            None => {
                self.handler.notify_compile(None);
                Err(())
            },
        };
        self.notify_diagnostics(ep.source_ok, ep.env_ok, ep.converted);
        proof {
            assert(final(self).handler.sink@ =~= old(self).handler.sink@ + wrap_compile_emits(
                *old(self),
                ep,
            ));
        }
        r
    }
}

} // verus!
