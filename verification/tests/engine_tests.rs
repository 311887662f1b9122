use wgsl_lsp::analysis::AnalysisResult;
use wgsl_lsp::analysis::analyze;
use wgsl_lsp::diagnostics::DiagnosticSource;
use wgsl_lsp::diagnostics::Severity;
use wgsl_lsp::engine::ChangeOutcome;
use wgsl_lsp::engine::Engine;
use wgsl_lsp::position::Position;

const VALID_SOURCE: &str = "@compute @workgroup_size(1)\nfn cmain() {}\n";
const BROKEN_SOURCE: &str = "fn f() { let x = ; }";

fn uri(name: &str) -> String {
    let mut s = String::from("file:///");
    s.push_str(name);
    s
}

#[test]
fn open_valid_source_yields_no_diagnostics() {
    let mut engine = Engine::new(1000);
    let id = uri("ok.wgsl");
    let diags = engine.open(&id, String::from(VALID_SOURCE), 1);
    assert!(diags.is_empty());
    let st = engine.read(&id).unwrap();
    assert_eq!(st.version, 1);
    assert_eq!(st.analyzed_version, 1);
    assert!(!st.pending());
    match st.last_result {
        Some(AnalysisResult::Valid(summary)) => {
            assert_eq!(summary.entry_points, vec![String::from("cmain")]);
        }
        other => panic!("expected a valid result, got {:?}", other),
    }
}

#[test]
fn open_broken_source_yields_one_diagnostic() {
    let mut engine = Engine::new(1000);
    let id = uri("broken.wgsl");
    let diags = engine.open(&id, String::from(BROKEN_SOURCE), 1);
    assert_eq!(diags.len(), 1);
    assert_eq!(diags[0].severity, Severity::Error);
    assert_eq!(diags[0].source, DiagnosticSource::Parser);
    // The missing expression after `=` is reported at the `;`, byte offset 17
    // on the single line, which is column 17 in UTF-16 units.
    assert_eq!(diags[0].range.start, Position { line: 0, character: 17 });
    assert_eq!(diags[0].range.end, Position { line: 0, character: 18 });
    assert_eq!(diags[0].message, "expected expression, found \";\"");
}

#[test]
fn open_invalid_module_yields_validation_diagnostic() {
    // This source parses, but a vertex entry point must produce a position
    // output, so validation rejects it — distinguished by the source tag.
    let mut engine = Engine::new(1000);
    let id = uri("invalid.wgsl");
    let diags = engine.open(&id, String::from("@vertex fn vmain() {}"), 1);
    assert_eq!(diags.len(), 1);
    assert_eq!(diags[0].severity, Severity::Error);
    assert_eq!(diags[0].source, DiagnosticSource::Validator);
    // The validator records no span for this failure, so the range clamps to
    // the start of the text.
    assert_eq!(diags[0].range.start, Position { line: 0, character: 0 });
    let st = engine.read(&id).unwrap();
    assert!(matches!(st.last_result, Some(AnalysisResult::ValidationFailed(_))));
}

#[test]
fn burst_of_changes_coalesces_to_one_run() {
    let mut engine = Engine::new(1000);
    let id = uri("burst.wgsl");
    engine.open(&id, String::from("fn f() {}"), 1);

    let o2 = engine.apply_change(&id, String::from("fn f() {}\n"), 2, 100);
    let g2 = match o2 {
        ChangeOutcome::Applied { timer_gen, deadline } => {
            // The freshly opened document starts at generation 0; the first
            // edit arms generation 1, deadline 100 + 1000.
            assert_eq!(timer_gen, 1);
            assert_eq!(deadline, 1100);
            timer_gen
        }
        other => panic!("expected the change to apply, got {:?}", other),
    };
    // A second change lands 300 ms later, well inside the debounce window:
    // the timer is re-armed, not doubled.
    let o3 = engine.apply_change(&id, String::from(VALID_SOURCE), 3, 400);
    let g3 = match o3 {
        ChangeOutcome::Applied { timer_gen, deadline } => {
            assert_eq!(timer_gen, 2);
            assert_eq!(deadline, 1400);
            timer_gen
        }
        other => panic!("expected the change to apply, got {:?}", other),
    };
    assert_ne!(g2, g3);

    // The superseded timer's fire is stale and starts nothing.
    assert!(engine.on_timer_fired(&id, g2).is_none());
    // The current timer's fire starts exactly one run, with the last text.
    let (text, version) = engine.on_timer_fired(&id, g3).unwrap();
    assert_eq!(text, VALID_SOURCE);
    assert_eq!(version, 3);
    // A duplicate fire of the same generation starts nothing further.
    assert!(engine.on_timer_fired(&id, g3).is_none());

    let result = analyze(&text);
    let out = engine.complete_analysis(&id, version, result);
    let pushed = out.push.unwrap();
    assert!(pushed.is_empty());
    assert!(out.next.is_none());

    let st = engine.read(&id).unwrap();
    assert_eq!(st.analyzed_version, 3);
    assert!(!st.pending());
}

#[test]
fn queued_run_starts_after_completion() {
    let mut engine = Engine::new(1000);
    let id = uri("queued.wgsl");
    engine.open(&id, String::from("fn f() {}"), 1);

    let g2 = match engine.apply_change(&id, String::from(BROKEN_SOURCE), 2, 0) {
        ChangeOutcome::Applied { timer_gen, .. } => timer_gen,
        other => panic!("expected the change to apply, got {:?}", other),
    };
    let (text2, v2) = engine.on_timer_fired(&id, g2).unwrap();
    assert_eq!(v2, 2);

    // While that run is in flight, another edit arrives and its timer fires:
    // the fired run is queued, not started.
    let g3 = match engine.apply_change(&id, String::from(VALID_SOURCE), 3, 50) {
        ChangeOutcome::Applied { timer_gen, .. } => timer_gen,
        other => panic!("expected the change to apply, got {:?}", other),
    };
    assert!(engine.on_timer_fired(&id, g3).is_none());

    // Completing the first run records its result and hands back the queued
    // run with the freshest text.
    let out = engine.complete_analysis(&id, v2, analyze(&text2));
    let pushed = out.push.unwrap();
    assert_eq!(pushed.len(), 1);
    let (text3, v3) = out.next.unwrap();
    assert_eq!(text3, VALID_SOURCE);
    assert_eq!(v3, 3);

    let out2 = engine.complete_analysis(&id, v3, analyze(&text3));
    assert!(out2.push.unwrap().is_empty());
    assert!(out2.next.is_none());
    let st = engine.read(&id).unwrap();
    assert_eq!(st.analyzed_version, 3);
    assert!(!st.pending());
}

#[test]
fn stale_completion_is_discarded() {
    let mut engine = Engine::new(1000);
    let id = uri("stale.wgsl");
    engine.open(&id, String::from(VALID_SOURCE), 5);
    // A result computed from an older version than the recorded one is
    // discarded by the conditional write.
    let out = engine.complete_analysis(&id, 4, analyze(BROKEN_SOURCE));
    assert!(out.push.is_none());
    let st = engine.read(&id).unwrap();
    assert_eq!(st.analyzed_version, 5);
    assert!(matches!(st.last_result, Some(AnalysisResult::Valid(_))));
}

#[test]
fn pull_right_after_open_is_consistent() {
    let mut engine = Engine::new(1000);
    let ok = uri("pull_ok.wgsl");
    engine.open(&ok, String::from(VALID_SOURCE), 1);
    let diags = engine.pull_diagnostics(&ok).unwrap();
    assert!(diags.is_empty());

    let broken = uri("pull_broken.wgsl");
    engine.open(&broken, String::from(BROKEN_SOURCE), 1);
    let diags = engine.pull_diagnostics(&broken).unwrap();
    assert_eq!(diags.len(), 1);
    assert_eq!(diags[0].source, DiagnosticSource::Parser);

    assert!(engine.pull_diagnostics(&uri("never_opened.wgsl")).is_none());
}

#[test]
fn pull_recomputes_a_stale_result() {
    let mut engine = Engine::new(1000);
    let id = uri("pull_stale.wgsl");
    engine.open(&id, String::from(VALID_SOURCE), 1);
    engine.apply_change(&id, String::from(BROKEN_SOURCE), 2, 0);
    // The recorded result is stale and no run is in flight, so the pull
    // analyzes the current text on the spot.
    let diags = engine.pull_diagnostics(&id).unwrap();
    assert_eq!(diags.len(), 1);
    let st = engine.read(&id).unwrap();
    assert_eq!(st.analyzed_version, 2);
    assert!(matches!(st.last_result, Some(AnalysisResult::ParseFailed(_))));
}

#[test]
fn reopen_starts_clean() {
    let mut engine = Engine::new(1000);
    let id = uri("reopen.wgsl");
    let diags = engine.open(&id, String::from(BROKEN_SOURCE), 7);
    assert_eq!(diags.len(), 1);
    engine.apply_change(&id, String::from("fn g() {}"), 8, 0);
    engine.close(&id);
    assert!(engine.read(&id).is_none());

    // Reopening under the same identifier starts from scratch: nothing of the
    // earlier session's versions or diagnostics survives.
    let diags = engine.open(&id, String::from(VALID_SOURCE), 1);
    assert!(diags.is_empty());
    let st = engine.read(&id).unwrap();
    assert_eq!(st.version, 1);
    assert_eq!(st.analyzed_version, 1);
    assert!(!st.pending());
    assert!(matches!(st.last_result, Some(AnalysisResult::Valid(_))));
}

#[test]
fn close_discards_inflight_run() {
    let mut engine = Engine::new(1000);
    let id = uri("closing.wgsl");
    engine.open(&id, String::from("fn f() {}"), 1);
    let g = match engine.apply_change(&id, String::from(BROKEN_SOURCE), 2, 0) {
        ChangeOutcome::Applied { timer_gen, .. } => timer_gen,
        other => panic!("expected the change to apply, got {:?}", other),
    };
    let (text, version) = engine.on_timer_fired(&id, g).unwrap();
    engine.close(&id);
    // The run completes after the close: its result finds no entry and is
    // discarded entirely.
    let out = engine.complete_analysis(&id, version, analyze(&text));
    assert!(out.push.is_none());
    assert!(out.next.is_none());
    assert!(engine.read(&id).is_none());
}

#[test]
fn changes_to_unknown_or_stale_versions_are_ignored() {
    let mut engine = Engine::new(1000);
    let id = uri("misuse.wgsl");
    assert_eq!(
        engine.apply_change(&id, String::from("fn f() {}"), 1, 0),
        ChangeOutcome::UnknownDocument
    );
    assert!(engine.read(&id).is_none());

    engine.open(&id, String::from(VALID_SOURCE), 3);
    assert_eq!(
        engine.apply_change(&id, String::from("fn f() {}"), 3, 0),
        ChangeOutcome::StaleVersion
    );
    let st = engine.read(&id).unwrap();
    assert_eq!(st.version, 3);
    assert_eq!(st.text, VALID_SOURCE);
}

#[test]
fn two_documents_stay_isolated() {
    let mut engine = Engine::new(1000);
    let a = uri("a.wgsl");
    let b = uri("b.wgsl");
    engine.open(&a, String::from(VALID_SOURCE), 1);
    engine.open(&b, String::from(BROKEN_SOURCE), 1);

    // Interleaved edits and runs on b never touch a.
    let g = match engine.apply_change(&b, String::from(BROKEN_SOURCE), 2, 0) {
        ChangeOutcome::Applied { timer_gen, .. } => timer_gen,
        other => panic!("expected the change to apply, got {:?}", other),
    };
    let (text, version) = engine.on_timer_fired(&b, g).unwrap();
    let out = engine.complete_analysis(&b, version, analyze(&text));
    assert_eq!(out.push.unwrap().len(), 1);

    let st_a = engine.read(&a).unwrap();
    assert_eq!(st_a.version, 1);
    assert_eq!(st_a.analyzed_version, 1);
    assert_eq!(st_a.text, VALID_SOURCE);
    assert!(!st_a.pending());
    assert!(matches!(st_a.last_result, Some(AnalysisResult::Valid(_))));

    let st_b = engine.read(&b).unwrap();
    assert_eq!(st_b.version, 2);
    assert!(matches!(st_b.last_result, Some(AnalysisResult::ParseFailed(_))));

    engine.close(&b);
    assert!(engine.read(&a).is_some());
    assert!(engine.read(&b).is_none());
}
