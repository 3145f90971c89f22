//! Coordination core for incremental recompilation of a document inside a
//! long-running service.
//!
//! One single-threaded worker owns every piece of mutable compiler and
//! analysis state. Every other part of the process talks to it through an
//! ordered interrupt queue: one-shot tasks with completion channels
//! ("steal"), in-memory document edits, and a final settle request. This
//! crate verifies the protocol around that worker: entry-state validation
//! and the swap/rollback rules, exactly-once FIFO task execution, the
//! diagnostics suppression policy, and the fan-out of compile outcomes to
//! the editor, export and document-watch consumers.
//!
//! The compiler engine, the semantic query layer and the channel transport
//! are collaborators outside this crate. Their outcomes (a produced
//! document, a failed world mutation, a prepared environment, a converted
//! diagnostics mapping) enter the verified functions as plain values, so
//! every decision taken here is proved for every outcome they may have.

pub mod client;
pub mod driver;
pub mod entry;
pub mod handler;
pub mod laws;
pub mod messages;
pub mod worker;
