//! Messages exchanged around the compile worker.
//!
//! The worker broadcasts compile outcomes to three independent consumers:
//! a document-version watch point, an export trigger queue and an editor
//! status queue, plus an optionally attached preview observer. This
//! module holds those message types, the interrupt records consumed by
//! the worker, and the plain values through which outside collaborators
//! (the compiler engine and the semantic query layer) report one compile
//! attempt to the verified protocol.

use vstd::prelude::*;

use crate::entry::EntryState;

verus! {

/// The latest successfully compiled artifact, identified by its revision.
#[derive(Clone, Copy, PartialEq, Eq, Structural, Debug)]
pub struct Document {
    pub revision: u64,
}

/// Compile status attached to a diagnostics group.
#[derive(Clone, Copy, PartialEq, Eq, Structural, Debug)]
pub enum CompileStatus {
    Compiling,
    CompileSuccess,
    CompileError,
}

/// Diagnostics of one file: the file identity and its findings, in order.
pub struct FileDiagnostics {
    pub file: String,
    pub findings: Vec<String>,
}

/// Structured per-file diagnostics of one compile attempt, as the query
/// layer converts them. The protocol never looks inside: it only decides
/// whether the map is forwarded or suppressed.
pub struct DiagnosticsMap {
    pub entries: Vec<FileDiagnostics>,
}

/// A kind of export artifact that can be requested once.
#[derive(Clone, Copy, PartialEq, Eq, Structural, Debug)]
pub enum ExportKind {
    Pdf,
    Svg,
    Png,
}

/// When the export subsystem re-exports on its own.
#[derive(Clone, Copy, PartialEq, Eq, Structural, Debug)]
pub enum ExportMode {
    Never,
    OnType,
    OnSave,
}

/// Configuration handed to the export subsystem.
#[derive(Clone, Copy, PartialEq, Eq, Structural, Debug)]
pub struct ExportConfig {
    pub mode: ExportMode,
}

/// A message to the export trigger queue.
pub enum ExportRequest {
    /// The document changed after a typed edit.
    OnTyped,
    /// The document was saved.
    OnSaved,
    /// The export configuration changed.
    ChangeConfig(ExportConfig),
    /// The active entry, and with it the export target, changed.
    ChangeExportPath(EntryState),
    /// One export of the given kind is requested now.
    Oneshot(ExportKind),
}

/// A message to the editor status queue, tagged with the diagnostics
/// group it belongs to.
pub enum EditorRequest {
    /// The compile status of the group changed.
    Status(String, CompileStatus),
    /// New diagnostics for the group; `None` suppresses and clears them,
    /// which is distinct from an empty map.
    Diag(String, Option<DiagnosticsMap>),
}

/// An in-memory document change event.
pub enum MemoryEvent {
    /// Replace the set of in-memory documents with the given one.
    Sync(Vec<String>),
    /// Change the given in-memory documents.
    Update(Vec<String>),
}

/// One message on the worker's interrupt queue, as the client records
/// its submissions. A task is identified by the serial the client gave
/// it; the closure itself runs on the worker.
pub enum Interrupt {
    /// Run a one-shot closure with exclusive access and answer on its
    /// completion channel.
    Task(u64),
    /// Apply an in-memory document change and recompile.
    Memory(MemoryEvent),
    /// Drain, release, acknowledge, stop accepting further work.
    Settle,
}

/// Everything the worker hands outward, in emission order. Each arm
/// names the consumer it goes to.
pub enum Emit {
    /// A new document published to the version watch point.
    Doc(Document),
    /// A message to the export trigger queue.
    Export(ExportRequest),
    /// A message to the editor status queue.
    Editor(EditorRequest),
    /// Status forwarded to the attached preview observer.
    PreviewStatus(CompileStatus),
    /// A compile outcome forwarded to the attached preview observer;
    /// `None` reports a failed attempt.
    PreviewNotify(Option<Document>),
}

/// What one compile attempt got from the outside collaborators. The
/// protocol is verified for every value of this record, so no claim is
/// made about the engine or the query layer themselves.
pub struct CompileEpisode {
    /// The engine's result: a produced document, or `None` for a failed
    /// compile. A failed compile is a routine outcome, not an error.
    pub outcome: Option<Document>,
    /// Whether the main source loaded while preparing the analysis.
    pub source_ok: bool,
    /// Whether the execution environment could be prepared.
    pub env_ok: bool,
    /// The per-file diagnostics the query layer converted from this
    /// attempt's error and warning sets.
    pub converted: DiagnosticsMap,
}

/// A completion channel failed: the worker is settled or gone.
#[derive(Clone, Copy, PartialEq, Eq, Structural, Debug)]
pub enum ChannelError {
    Closed,
}

/// Why preparing an analysis run failed. Each is an explicit failure,
/// never a silent no-op.
#[derive(Clone, Copy, PartialEq, Eq, Structural, Debug)]
pub enum AnalysisError {
    /// No main document is set on the world state.
    NoMainFile,
    /// No project root is set on the world state.
    NoRoot,
    /// The main source could not be loaded.
    SourceNotReady,
    /// The execution environment could not be prepared.
    EnvNotReady,
}

/// Why an entry change failed.
#[derive(Clone, Copy, PartialEq, Eq, Structural, Debug)]
pub enum EntryError {
    /// The requested path is neither absolute nor untitled; nothing was
    /// touched.
    NotAbsolute,
    /// The worker no longer accepts interrupts; nothing was committed.
    Closed,
    /// The worker-side entry swap failed; the cached entry stands.
    SwapFailed,
}

/// Why a stolen analysis run failed.
#[derive(Clone, Copy, PartialEq, Eq, Structural, Debug)]
pub enum StealError {
    /// The worker no longer accepts interrupts.
    Closed,
    /// The task ran, but preparing the analysis failed.
    Analysis(AnalysisError),
}

/// Memory-usage counters of a server info snapshot.
#[derive(Clone, Copy, PartialEq, Eq, Structural, Debug)]
pub struct MemoryUsage {
    /// Estimated bytes held by cached file content.
    pub vfs: u64,
    /// Estimated bytes held by the analysis caches.
    pub analysis: u64,
}

/// Point-in-time read-only view of the worker, produced on demand.
pub struct ServerInfoResponse {
    pub root: Option<String>,
    pub font_paths: Vec<String>,
    pub inputs: Vec<(String, String)>,
    pub estimated_memory: MemoryUsage,
}

/// Copies a vector of strings, keeping its view.
pub fn clone_string_vec(v: &Vec<String>) -> (r: Vec<String>)
    ensures
        r@ == v@,
{
    let mut r: Vec<String> = Vec::new();
    let mut i: usize = 0;
    while i < v.len()
        invariant
            i <= v.len(),
            r@ == v@.subrange(0, i as int),
        decreases v.len() - i,
    {
        r.push(v[i].clone());
        proof {
            assert(r@ =~= v@.subrange(0, i + 1 as int));
        }
        i = i + 1;
    }
    proof {
        assert(v@.subrange(0, v@.len() as int) =~= v@);
    }
    r
}

/// Copies a vector of string pairs, keeping its view.
pub fn clone_string_pairs(v: &Vec<(String, String)>) -> (r: Vec<(String, String)>)
    ensures
        r@ == v@,
{
    let mut r: Vec<(String, String)> = Vec::new();
    let mut i: usize = 0;
    while i < v.len()
        invariant
            i <= v.len(),
            r@ == v@.subrange(0, i as int),
        decreases v.len() - i,
    {
        let pair = (v[i].0.clone(), v[i].1.clone());
        r.push(pair);
        proof {
            assert(r@ =~= v@.subrange(0, i + 1 as int));
        }
        i = i + 1;
    }
    proof {
        assert(v@.subrange(0, v@.len() as int) =~= v@);
    }
    r
}

} // verus!
