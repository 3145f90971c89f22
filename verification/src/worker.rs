//! The compile worker: the single-threaded actor that owns all mutable
//! compiler and analysis state.
//!
//! The worker drains an ordered interrupt queue, one interrupt at a
//! time, each run to completion before the next is dequeued: a task
//! executes a one-shot closure with exclusive access, a memory event
//! applies an in-memory edit and recompiles, and a settle request stops
//! the worker for good. Once settled, the queue is closed: every later
//! interrupt is refused and nothing changes again.

use vstd::prelude::*;

use crate::driver::CompileDriver;
use crate::messages::{CompileEpisode, Document, Emit, MemoryEvent};
use crate::driver::wrap_compile_emits;
use crate::handler::same_identity;

verus! {

/// The single-threaded actor owning the compile driver.
pub struct CompileWorker {
    /// The driver with the world, handler and analysis state the
    /// worker exclusively owns.
    pub compiler: CompileDriver,
    /// Whether the worker has settled; terminal once true.
    pub settled: bool,
    /// The serials of the tasks run so far, in execution order.
    pub executed: Vec<u64>,
    /// The most recent successfully compiled document, kept until the
    /// next successful compile supersedes it.
    pub latest_doc: Option<Document>,
}

/// Whether the worker still accepts interrupts.
pub open spec fn worker_accepts(w: CompileWorker) -> bool {
    !w.settled
}

/// The in-memory document set after one memory event: a sync replaces
/// it, an update changes the named documents.
pub open spec fn apply_memory_spec(files: Seq<String>, event: MemoryEvent) -> Seq<String> {
    match event {
        MemoryEvent::Sync(fs) => fs@,
        MemoryEvent::Update(fs) => files + fs@,
    }
}

impl CompileWorker {
    /// A live worker over the given driver, with nothing executed yet.
    pub fn new(compiler: CompileDriver) -> (w: CompileWorker)
        ensures
            w.compiler == compiler,
            !w.settled,
            w.executed@ == Seq::<u64>::empty(),
            w.latest_doc is None,
    {
        CompileWorker { compiler, settled: false, executed: Vec::new(), latest_doc: None }
    }

    /// The latest successfully compiled document, shared by value.
    pub fn success_doc(&self) -> (r: Option<Document>)
        ensures
            r == self.latest_doc,
    {
        self.latest_doc
    }

    /// Dequeues one task. A live worker records the execution and hands
    /// the caller exclusive access to run the closure; a settled worker
    /// refuses and stays exactly as it is.
    pub fn process_task(&mut self, id: u64) -> (accepted: bool)
        ensures
            accepted == worker_accepts(*old(self)),
            accepted ==> *final(self) == (CompileWorker {
                executed: final(self).executed,
                ..*old(self)
            }) && final(self).executed@ == old(self).executed@ + seq![id],
            !accepted ==> *final(self) == *old(self),
    {
        if self.settled {
            return false;
        }
        self.executed.push(id);
        true
    }

    /// Dequeues one memory event: applies the in-memory edit, then runs
    /// one compile attempt over the edited world, with `ep` as what the
    /// outside collaborators produced for it. A successful attempt
    /// supersedes the latest document. A settled worker drops the event.
    pub fn process_memory(&mut self, event: MemoryEvent, ep: CompileEpisode)
        ensures
            final(self).settled == old(self).settled,
            final(self).executed == old(self).executed,
            old(self).settled ==> *final(self) == *old(self),
            !old(self).settled ==> {
                &&& final(self).compiler.world.shadow_files@ == apply_memory_spec(
                    old(self).compiler.world.shadow_files@,
                    event,
                )
                &&& final(self).compiler.world.entry == old(self).compiler.world.entry
                &&& final(self).compiler.world.font_paths == old(self).compiler.world.font_paths
                &&& final(self).compiler.world.inputs == old(self).compiler.world.inputs
                &&& final(self).compiler.world.vfs_bytes == old(self).compiler.world.vfs_bytes
                &&& same_identity(final(self).compiler.handler, old(self).compiler.handler)
                &&& final(self).compiler.analysis.cache_bytes == old(
                    self,
                ).compiler.analysis.cache_bytes
                &&& final(self).compiler.handler.sink@ == old(self).compiler.handler.sink@
                    + wrap_compile_emits(old(self).compiler, ep)
                &&& final(self).latest_doc == if ep.outcome is Some {
                    ep.outcome
                } else {
                    old(self).latest_doc
                }
            },
    {
        if self.settled {
            return ;
        }
        match event {
            MemoryEvent::Sync(files) => {
                self.compiler.world.shadow_files = files;
            },
            MemoryEvent::Update(mut files) => {
                self.compiler.world.shadow_files.append(&mut files);
            },
        }
        let outcome = self.compiler.wrap_compile(ep);
        match outcome {
            Ok(doc) => {
                self.latest_doc = Some(doc);
            },
            Err(()) => {},
        }
    }

    /// Dequeues a settle request: the worker acknowledges, stops
    /// accepting further work, and never changes again. A second settle
    /// finds the queue closed and gets no acknowledgement.
    pub fn process_settle(&mut self) -> (acked: bool)
        ensures
            acked == worker_accepts(*old(self)),
            final(self).settled,
            *final(self) == (CompileWorker { settled: true, ..*old(self) }),
    {
        if self.settled {
            return false;
        }
        self.settled = true;
        true
    }
}

} // verus!
