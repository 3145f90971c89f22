//! Scenario tests for the actor protocol: entry changes, the steal
//! primitives, settle, the compile fan-out and the snapshots.

use compile_actor::client::CompileClientActor;
use compile_actor::driver::{CompileDriver, WorldState};
use compile_actor::entry::{CompileConfig, EntryState};
use compile_actor::messages::{
    AnalysisError, ChannelError, CompileEpisode, CompileStatus, DiagnosticsMap, Document,
    EditorRequest, Emit, EntryError, ExportConfig, ExportKind, ExportMode, ExportRequest,
    FileDiagnostics, Interrupt, MemoryEvent, StealError,
};
use compile_actor::worker::CompileWorker;

fn make_world(root: Option<&str>, main: Option<&str>) -> WorldState {
    WorldState {
        entry: EntryState {
            root: root.map(String::from),
            main: main.map(String::from),
        },
        font_paths: vec![String::from("/usr/share/fonts")],
        inputs: vec![(String::from("theme"), String::from("dark"))],
        vfs_bytes: 4096,
        shadow_files: Vec::new(),
    }
}

fn make_pair(root: Option<&str>, main: Option<&str>) -> (CompileClientActor, CompileWorker) {
    let world = make_world(root, main);
    let driver = CompileDriver::new(String::from("primary"), world);
    let worker = CompileWorker::new(driver);
    let client = CompileClientActor::new(
        String::from("primary"),
        CompileConfig {
            root_path: root.map(String::from),
        },
        EntryState {
            root: root.map(String::from),
            main: main.map(String::from),
        },
    );
    (client, worker)
}

fn empty_map() -> DiagnosticsMap {
    DiagnosticsMap { entries: Vec::new() }
}

fn one_finding() -> DiagnosticsMap {
    DiagnosticsMap {
        entries: vec![FileDiagnostics {
            file: String::from("/proj/main.typ"),
            findings: vec![String::from("unknown variable")],
        }],
    }
}

fn plain_episode(outcome: Option<Document>, converted: DiagnosticsMap) -> CompileEpisode {
    CompileEpisode {
        outcome,
        source_ok: true,
        env_ok: true,
        converted,
    }
}

#[test]
fn idempotent_entry_change() {
    let (mut client, mut worker) = make_pair(None, None);
    let first = client.change_entry(&mut worker, Some(String::from("/proj/main.typ")), true);
    assert_eq!(first, Ok(true));
    assert_eq!(client.submitted.len(), 1);
    assert_eq!(worker.executed, vec![0]);

    let second = client.change_entry(&mut worker, Some(String::from("/proj/main.typ")), true);
    assert_eq!(second, Ok(false));
    assert_eq!(client.submitted.len(), 1, "no second interrupt was submitted");
    assert_eq!(worker.executed, vec![0]);
}

#[test]
fn tasks_execute_exactly_once_in_order() {
    let (mut client, mut worker) = make_pair(Some("/proj"), Some("/proj/main.typ"));
    let a = client.steal(&mut worker);
    let b = client.steal_async(&mut worker);
    let c = client.steal(&mut worker);
    assert_eq!(a, Ok(0));
    assert_eq!(b, Ok(1));
    assert_eq!(c, Ok(2));
    assert_eq!(worker.executed, vec![0, 1, 2]);
    assert_eq!(client.submitted.len(), 3);
    for (i, record) in client.submitted.iter().enumerate() {
        assert!(matches!(record, Interrupt::Task(id) if *id == i as u64));
    }
}

#[test]
fn diagnostics_suppressed_for_inactive_entry() {
    // entry without a main document, but the attempt still produced a
    // non-empty converted error set
    let (mut client, mut worker) = make_pair(Some("/proj"), None);
    client.add_memory_changes(
        &mut worker,
        MemoryEvent::Update(vec![String::from("/proj/ch1.typ")]),
        plain_episode(None, one_finding()),
    );
    let sink = &worker.compiler.handler.sink;
    let last = sink.last().expect("the attempt emitted messages");
    match last {
        Emit::Editor(EditorRequest::Diag(group, payload)) => {
            assert_eq!(group, "primary");
            assert!(payload.is_none(), "inactive entry must suppress diagnostics");
        }
        _ => panic!("the attempt must close with a diagnostics message"),
    }
}

#[test]
fn diagnostics_forwarded_for_active_entry() {
    let (mut client, mut worker) = make_pair(Some("/proj"), Some("/proj/main.typ"));
    client.add_memory_changes(
        &mut worker,
        MemoryEvent::Update(vec![String::from("/proj/main.typ")]),
        plain_episode(None, one_finding()),
    );
    let last = worker.compiler.handler.sink.last().expect("messages were emitted");
    match last {
        Emit::Editor(EditorRequest::Diag(_, payload)) => {
            let map = payload.as_ref().expect("active entry forwards the map");
            assert_eq!(map.entries.len(), 1);
            assert_eq!(map.entries[0].file, "/proj/main.typ");
            assert_eq!(map.entries[0].findings, vec![String::from("unknown variable")]);
        }
        _ => panic!("the attempt must close with a diagnostics message"),
    }
}

#[test]
fn success_side_effect_bundle() {
    let (mut client, mut worker) = make_pair(Some("/proj"), Some("/proj/main.typ"));
    let doc = Document { revision: 7 };
    client.add_memory_changes(
        &mut worker,
        MemoryEvent::Update(vec![String::from("/proj/main.typ")]),
        plain_episode(Some(doc), empty_map()),
    );
    let sink = &worker.compiler.handler.sink;
    assert_eq!(sink.len(), 5);
    assert!(matches!(
        &sink[0],
        Emit::Editor(EditorRequest::Status(g, CompileStatus::Compiling)) if g == "primary"
    ));
    assert!(matches!(&sink[1], Emit::Doc(d) if d.revision == 7));
    assert!(matches!(&sink[2], Emit::Export(ExportRequest::OnTyped)));
    assert!(matches!(
        &sink[3],
        Emit::Editor(EditorRequest::Status(g, CompileStatus::CompileSuccess)) if g == "primary"
    ));
    assert!(matches!(&sink[4], Emit::Editor(EditorRequest::Diag(_, Some(_)))));
    assert_eq!(worker.latest_doc, Some(doc));
    assert_eq!(worker.success_doc(), Some(doc));
}

#[test]
fn failed_compile_reports_error_status() {
    let (mut client, mut worker) = make_pair(Some("/proj"), Some("/proj/main.typ"));
    client.add_memory_changes(
        &mut worker,
        MemoryEvent::Update(vec![String::from("/proj/main.typ")]),
        plain_episode(None, one_finding()),
    );
    let sink = &worker.compiler.handler.sink;
    assert_eq!(sink.len(), 3);
    assert!(matches!(
        &sink[0],
        Emit::Editor(EditorRequest::Status(_, CompileStatus::Compiling))
    ));
    assert!(matches!(
        &sink[1],
        Emit::Editor(EditorRequest::Status(_, CompileStatus::CompileError))
    ));
    assert!(matches!(&sink[2], Emit::Editor(EditorRequest::Diag(_, Some(_)))));
    assert_eq!(worker.latest_doc, None, "a failed compile supersedes nothing");
}

#[test]
fn preview_observer_hears_attached_episodes_only() {
    let (mut client, mut worker) = make_pair(Some("/proj"), Some("/proj/main.typ"));
    worker.compiler.handler.set_preview(true);
    let doc = Document { revision: 1 };
    client.add_memory_changes(
        &mut worker,
        MemoryEvent::Update(vec![String::from("/proj/main.typ")]),
        plain_episode(Some(doc), empty_map()),
    );
    let sink = &worker.compiler.handler.sink;
    assert_eq!(sink.len(), 7);
    assert!(matches!(&sink[1], Emit::PreviewStatus(CompileStatus::Compiling)));
    assert!(matches!(&sink[5], Emit::PreviewNotify(Some(d)) if d.revision == 1));
}

#[test]
fn validation_rejects_relative_path() {
    let (mut client, mut worker) = make_pair(None, None);
    let r = client.change_entry(&mut worker, Some(String::from("relative/path.typ")), true);
    assert_eq!(r, Err(EntryError::NotAbsolute));
    assert!(client.entry.main.is_none(), "cached entry is untouched");
    assert!(client.entry.root.is_none());
    assert_eq!(client.submitted.len(), 0, "rejected before any side effect");
    assert_eq!(worker.executed.len(), 0);
}

#[test]
fn validation_accepts_untitled_path() {
    let (mut client, mut worker) = make_pair(None, None);
    let r = client.change_entry(&mut worker, Some(String::from("/untitled/1")), true);
    assert_eq!(r, Ok(true));
    assert_eq!(client.entry.main.as_deref(), Some("/untitled/1"));
}

#[test]
fn rollback_on_swap_failure() {
    let (mut client, mut worker) = make_pair(None, None);
    let r = client.change_entry(&mut worker, Some(String::from("/proj/main.typ")), false);
    assert_eq!(r, Err(EntryError::SwapFailed));
    assert!(client.entry.main.is_none(), "the client-visible entry stands");
    assert!(client.entry.root.is_none());
    assert_eq!(
        client.export_submitted.len(),
        0,
        "a failed swap is not announced to the export subsystem"
    );
    // the interrupt itself was submitted and ran on the worker
    assert_eq!(client.submitted.len(), 1);
    assert_eq!(worker.executed, vec![0]);
}

#[test]
fn settle_is_terminal() {
    let (mut client, mut worker) = make_pair(Some("/proj"), Some("/proj/main.typ"));
    client.settle(&mut worker, true);
    assert!(worker.settled);
    assert!(client.entry.main.is_none(), "settle resolves the entry to inactive");

    let r = client.steal(&mut worker);
    assert_eq!(r, Err(ChannelError::Closed), "a settled worker refuses instead of hanging");
    let r = client.steal_async(&mut worker);
    assert_eq!(r, Err(ChannelError::Closed));
    let r = client.collect_server_info(&mut worker);
    assert!(r.is_err());

    // a second settle finds the queue closed and changes nothing
    let executed = worker.executed.clone();
    client.settle(&mut worker, true);
    assert!(worker.settled);
    assert_eq!(worker.executed, executed);
}

#[test]
fn cache_clear_is_observable() {
    let (mut client, mut worker) = make_pair(Some("/proj"), Some("/proj/main.typ"));
    worker.compiler.analysis.cache_bytes = 31337;

    let before = client.collect_server_info(&mut worker).expect("worker is live");
    assert_eq!(before[0].1.estimated_memory.analysis, 31337);

    client.clear_cache(&mut worker);
    assert_eq!(worker.compiler.analysis.cache_bytes, 0);

    let after = client.collect_server_info(&mut worker).expect("worker is live");
    assert_eq!(after.len(), 1);
    assert_eq!(after[0].0, "primary");
    assert_eq!(
        after[0].1.estimated_memory.analysis, 0,
        "analysis usage is back at its baseline"
    );
    assert_eq!(after[0].1.estimated_memory.vfs, 4096);
}

#[test]
fn server_info_snapshot_reflects_world() {
    let (mut client, mut worker) = make_pair(Some("/proj"), Some("/proj/main.typ"));
    let info = client.collect_server_info(&mut worker).expect("worker is live");
    assert_eq!(info.len(), 1);
    assert_eq!(info[0].0, "primary");
    assert_eq!(info[0].1.root.as_deref(), Some("/proj"));
    assert_eq!(info[0].1.font_paths, vec![String::from("/usr/share/fonts")]);
    assert_eq!(
        info[0].1.inputs,
        vec![(String::from("theme"), String::from("dark"))]
    );
}

#[test]
fn steal_state_hands_latest_document() {
    let (mut client, mut worker) = make_pair(Some("/proj"), Some("/proj/main.typ"));
    let doc = Document { revision: 3 };
    client.add_memory_changes(
        &mut worker,
        MemoryEvent::Update(vec![String::from("/proj/main.typ")]),
        plain_episode(Some(doc), empty_map()),
    );
    let (capability, seen) = client
        .steal_state(&mut worker, true, true)
        .expect("analysis is ready");
    assert_eq!(capability.root, "/proj");
    assert_eq!(seen, Some(doc));
}

#[test]
fn analysis_precondition_errors_are_distinct() {
    let (mut client, mut worker) = make_pair(Some("/proj"), None);
    let r = client.steal_world(&mut worker, true, true);
    assert_eq!(r.err(), Some(StealError::Analysis(AnalysisError::NoMainFile)));

    // a main document without a project root
    let (mut client, mut worker) = make_pair(None, Some("/proj/main.typ"));
    let r = client.steal_world(&mut worker, true, true);
    assert_eq!(r.err(), Some(StealError::Analysis(AnalysisError::NoRoot)));

    let (mut client, mut worker) = make_pair(Some("/proj"), Some("/proj/main.typ"));
    let r = client.steal_world(&mut worker, false, true);
    assert_eq!(r.err(), Some(StealError::Analysis(AnalysisError::SourceNotReady)));

    let (mut client, mut worker) = make_pair(Some("/proj"), Some("/proj/main.typ"));
    let r = client.steal_world(&mut worker, true, false);
    assert_eq!(r.err(), Some(StealError::Analysis(AnalysisError::EnvNotReady)));

    let (mut client, mut worker) = make_pair(Some("/proj"), Some("/proj/main.typ"));
    let capability = client.steal_world(&mut worker, true, true).expect("ready");
    assert_eq!(capability.root, "/proj");
    assert_eq!(
        worker.compiler.analysis.root.as_deref(),
        Some("/proj"),
        "a successful run binds the analysis to the entry's root"
    );
}

#[test]
fn memory_events_shape_shadow_set() {
    let (mut client, mut worker) = make_pair(Some("/proj"), Some("/proj/main.typ"));
    client.add_memory_changes(
        &mut worker,
        MemoryEvent::Update(vec![String::from("/proj/a.typ")]),
        plain_episode(None, empty_map()),
    );
    client.add_memory_changes(
        &mut worker,
        MemoryEvent::Update(vec![String::from("/proj/b.typ")]),
        plain_episode(None, empty_map()),
    );
    assert_eq!(
        worker.compiler.world.shadow_files,
        vec![String::from("/proj/a.typ"), String::from("/proj/b.typ")]
    );
    client.add_memory_changes(
        &mut worker,
        MemoryEvent::Sync(vec![String::from("/proj/c.typ")]),
        plain_episode(None, empty_map()),
    );
    assert_eq!(worker.compiler.world.shadow_files, vec![String::from("/proj/c.typ")]);
}

#[test]
fn export_operations_queue_requests() {
    let (mut client, _worker) = make_pair(Some("/proj"), Some("/proj/main.typ"));
    let produced = client.on_export(
        ExportKind::Pdf,
        String::from("/proj/out.pdf"),
        Some(String::from("/proj/main.pdf")),
    );
    assert_eq!(produced.as_deref(), Some("/proj/main.pdf"));
    client.on_save_export(String::from("/proj/main.typ"));
    assert_eq!(client.export_submitted.len(), 2);
    assert!(matches!(
        &client.export_submitted[0],
        ExportRequest::Oneshot(ExportKind::Pdf)
    ));
    assert!(matches!(&client.export_submitted[1], ExportRequest::OnSaved));
}

#[test]
fn entry_change_announces_export_path() {
    let (mut client, mut worker) = make_pair(Some("/proj"), None);
    let r = client.change_entry(&mut worker, Some(String::from("/proj/ch2.typ")), true);
    assert_eq!(r, Ok(true));
    assert_eq!(client.export_submitted.len(), 1);
    match &client.export_submitted[0] {
        ExportRequest::ChangeExportPath(e) => {
            assert_eq!(e.main.as_deref(), Some("/proj/ch2.typ"));
            assert_eq!(e.root.as_deref(), Some("/proj"));
        }
        _ => panic!("the committed change reroutes the export target"),
    }
    // the worker-side entry was swapped as part of the same task
    assert_eq!(worker.compiler.world.entry.main.as_deref(), Some("/proj/ch2.typ"));
}

#[test]
fn settled_worker_refuses_entry_change_and_analysis() {
    let (mut client, mut worker) = make_pair(Some("/proj"), Some("/proj/main.typ"));
    client.settle(&mut worker, true);
    let r = client.change_entry(&mut worker, Some(String::from("/proj/other.typ")), true);
    assert_eq!(r, Err(EntryError::Closed));
    assert!(client.entry.main.is_none(), "the cache keeps the settled state");
    let r = client.steal_world(&mut worker, true, true);
    assert_eq!(r.err(), Some(StealError::Closed));
    let r = client.steal_state(&mut worker, true, true);
    assert!(matches!(r, Err(StealError::Closed)));
}

#[test]
fn sync_config_changes_entry_resolution() {
    let (mut client, mut worker) = make_pair(None, None);
    client.sync_config(CompileConfig {
        root_path: Some(String::from("/workspace")),
    });
    let r = client.change_entry(&mut worker, Some(String::from("/workspace/a.typ")), true);
    assert_eq!(r, Ok(true));
    assert_eq!(client.entry.root.as_deref(), Some("/workspace"));
}

#[test]
fn change_export_pdf_queues_new_config() {
    let (mut client, _worker) = make_pair(None, None);
    client.change_export_pdf(ExportConfig { mode: ExportMode::OnSave });
    assert_eq!(client.export_submitted.len(), 1);
    assert!(matches!(
        &client.export_submitted[0],
        ExportRequest::ChangeConfig(ExportConfig { mode: ExportMode::OnSave })
    ));
}

#[test]
fn entry_change_to_inactive_clears_diagnostics() {
    let (mut client, mut worker) = make_pair(Some("/proj"), Some("/proj/main.typ"));
    let r = client.change_entry(&mut worker, None, true);
    assert_eq!(r, Ok(true));
    let sink = &worker.compiler.handler.sink;
    assert_eq!(sink.len(), 1);
    assert!(
        matches!(&sink[0], Emit::Editor(EditorRequest::Diag(_, None))),
        "swapping to an inactive entry forces cleared diagnostics"
    );
}
