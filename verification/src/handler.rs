//! The notification sink: fans one compile outcome out to the
//! document-version watch point, the export trigger queue, the editor
//! status queue and, when one is attached, the preview observer.
//!
//! Every outgoing message is appended to `sink`, the ordered record of
//! what was handed outward; producers never block. The preview observer
//! is an optional, exclusively borrowed cell: messages reach it only
//! while it is attached, and its absence is a normal state.

use vstd::prelude::*;

use crate::messages::{CompileStatus, DiagnosticsMap, Document, EditorRequest, Emit, ExportRequest};

verus! {

/// Pushes compile outcomes to the downstream consumers.
pub struct CompileHandler {
    /// The diagnostics group this worker reports under.
    pub diag_group: String,
    /// Whether a preview observer is currently attached.
    pub preview_attached: bool,
    /// Everything handed outward so far, in emission order.
    pub sink: Vec<Emit>,
}

/// The handler's identity: everything but what it has emitted.
pub open spec fn same_identity(a: CompileHandler, b: CompileHandler) -> bool {
    a.diag_group == b.diag_group && a.preview_attached == b.preview_attached
}

/// What `status` emits: the status goes only to an attached preview
/// observer.
pub open spec fn status_emits(h: CompileHandler, s: CompileStatus) -> Seq<Emit> {
    if h.preview_attached {
        seq![Emit::PreviewStatus(s)]
    } else {
        Seq::<Emit>::empty()
    }
}

/// What `notify_compile` emits. A success publishes the document to the
/// watch point, then queues one typed-change export trigger, then
/// reports success to the editor; a failure only reports the error. An
/// attached preview observer hears the outcome last.
pub open spec fn notify_emits(h: CompileHandler, res: Option<Document>) -> Seq<Emit> {
    let to_preview: Seq<Emit> = if h.preview_attached {
        seq![Emit::PreviewNotify(res)]
    } else {
        Seq::<Emit>::empty()
    };
    match res {
        Some(doc) => seq![
            Emit::Doc(doc),
            Emit::Export(ExportRequest::OnTyped),
            Emit::Editor(EditorRequest::Status(h.diag_group, CompileStatus::CompileSuccess)),
        ] + to_preview,
        None => seq![
            Emit::Editor(EditorRequest::Status(h.diag_group, CompileStatus::CompileError)),
        ] + to_preview,
    }
}

impl CompileHandler {
    /// A fresh handler for the given diagnostics group, with nothing
    /// emitted and no preview observer attached.
    pub fn new(diag_group: String) -> (h: CompileHandler)
        ensures
            h.diag_group == diag_group,
            !h.preview_attached,
            h.sink@ == Seq::<Emit>::empty(),
    {
        CompileHandler { diag_group, preview_attached: false, sink: Vec::new() }
    }

    /// Attaches or detaches the preview observer.
    pub fn set_preview(&mut self, attached: bool)
        ensures
            *final(self) == (CompileHandler { preview_attached: attached, ..*old(self) }),
    {
        self.preview_attached = attached;
    }

    /// Forwards a status to the preview observer, when one is attached.
    pub fn status(&mut self, status: CompileStatus)
        ensures
            same_identity(*final(self), *old(self)),
            final(self).sink@ == old(self).sink@ + status_emits(*old(self), status),
    {
        if self.preview_attached {
            self.sink.push(Emit::PreviewStatus(status));
        }
        proof {
            assert(self.sink@ =~= old(self).sink@ + status_emits(*old(self), status));
        }
    }

    /// Reports one compile outcome to every consumer, emitting exactly
    /// `notify_emits`.
    pub fn notify_compile(&mut self, res: Option<Document>)
        ensures
            same_identity(*final(self), *old(self)),
            final(self).sink@ == old(self).sink@ + notify_emits(*old(self), res),
    {
        match res {
            Some(doc) => {
                self.sink.push(Emit::Doc(doc));
                self.sink.push(Emit::Export(ExportRequest::OnTyped));
                self.sink.push(
                    Emit::Editor(
                        EditorRequest::Status(self.diag_group.clone(), CompileStatus::CompileSuccess),
                    ),
                );
            },
            None => {
                self.sink.push(
                    Emit::Editor(
                        EditorRequest::Status(self.diag_group.clone(), CompileStatus::CompileError),
                    ),
                );
            },
        }
        if self.preview_attached {
            self.sink.push(Emit::PreviewNotify(res));
        }
        proof {
            assert(self.sink@ =~= old(self).sink@ + notify_emits(*old(self), res));
        }
    }

    /// Hands one diagnostics message to the editor queue. `None`
    /// suppresses and clears the group's diagnostics.
    pub fn push_diagnostics(&mut self, diagnostics: Option<DiagnosticsMap>)
        ensures
            same_identity(*final(self), *old(self)),
            final(self).sink@ == old(self).sink@ + seq![
                Emit::Editor(EditorRequest::Diag(old(self).diag_group, diagnostics)),
            ],
    {
        let msg = Emit::Editor(EditorRequest::Diag(self.diag_group.clone(), diagnostics));
        self.sink.push(msg);
    }
}

} // verus!
