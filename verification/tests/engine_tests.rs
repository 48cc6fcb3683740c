use rauc_engine::engine::{
    run_install, spawn_failure_output, InstallEngine, InstallEvent, LogTag,
};

fn rendered(events: Vec<InstallEvent>) -> Vec<String> {
    run_install(events).iter().map(|l| l.render()).collect()
}

#[test]
fn install_streams_then_success() {
    // a command that prints "step1" to stdout, "warn1" to stderr, then exits 0
    let events = vec![
        InstallEvent::OutLine { text: "step1".to_string() },
        InstallEvent::ErrLine { text: "warn1".to_string() },
        InstallEvent::OutEof,
        InstallEvent::ErrEof,
        InstallEvent::Exited { success: true, status: "exit status: 0".to_string() },
    ];
    let lines = rendered(events);
    assert_eq!(
        lines,
        vec![
            "[OUT] step1\n".to_string(),
            "[ERR] warn1\n".to_string(),
            "[DONE] Installation completed successfully\n".to_string(),
        ]
    );
}

#[test]
fn install_failure_no_output() {
    // a command that exits with status 1 and no output
    let events = vec![
        InstallEvent::OutEof,
        InstallEvent::ErrEof,
        InstallEvent::Exited { success: false, status: "exit status: 1".to_string() },
    ];
    let lines = rendered(events);
    assert_eq!(lines.len(), 1);
    assert_eq!(
        lines[0],
        "[ERROR] Installation failed with status: exit status: 1\n"
    );
}

#[test]
fn exactly_one_terminal_line_and_last() {
    let events = vec![
        InstallEvent::ErrLine { text: "late warning".to_string() },
        InstallEvent::OutLine { text: "progress 10%".to_string() },
        InstallEvent::OutLine { text: "progress 100%".to_string() },
        InstallEvent::ErrEof,
        InstallEvent::OutEof,
        InstallEvent::Exited { success: true, status: "exit status: 0".to_string() },
    ];
    let lines = run_install(events);
    let terminal: Vec<usize> = lines
        .iter()
        .enumerate()
        .filter(|(_, l)| matches!(l.tag, LogTag::Done | LogTag::Error))
        .map(|(i, _)| i)
        .collect();
    assert_eq!(terminal, vec![lines.len() - 1]);
}

#[test]
fn line_counts_are_preserved() {
    // 3 stdout lines and 2 stderr lines give exactly 3 OUT and 2 ERR lines
    let events = vec![
        InstallEvent::OutLine { text: "a".to_string() },
        InstallEvent::ErrLine { text: "w1".to_string() },
        InstallEvent::OutLine { text: "b".to_string() },
        InstallEvent::ErrLine { text: "w2".to_string() },
        InstallEvent::ErrEof,
        InstallEvent::OutLine { text: "c".to_string() },
        InstallEvent::OutEof,
        InstallEvent::Exited { success: false, status: "signal: 9".to_string() },
    ];
    let lines = run_install(events);
    let outs: Vec<&str> = lines
        .iter()
        .filter(|l| matches!(l.tag, LogTag::Stdout))
        .map(|l| l.text.as_str())
        .collect();
    let errs: Vec<&str> = lines
        .iter()
        .filter(|l| matches!(l.tag, LogTag::Stderr))
        .map(|l| l.text.as_str())
        .collect();
    assert_eq!(outs, vec!["a", "b", "c"]);
    assert_eq!(errs, vec!["w1", "w2"]);
    assert_eq!(lines.len(), 6);
}

#[test]
fn wait_failure_is_terminal_error_line() {
    let events = vec![
        InstallEvent::OutEof,
        InstallEvent::ErrEof,
        InstallEvent::WaitFailed { message: "interrupted".to_string() },
    ];
    let lines = rendered(events);
    assert_eq!(
        lines,
        vec!["[ERROR] Failed to wait for process: interrupted\n".to_string()]
    );
}

#[test]
fn spawn_failure_is_single_error_line() {
    let lines = spawn_failure_output("local install", "No such file or directory (os error 2)");
    assert_eq!(lines.len(), 1);
    assert!(matches!(lines[0].tag, LogTag::Error));
    assert_eq!(
        lines[0].render(),
        "[ERROR] Failed to spawn local install command: No such file or directory (os error 2)\n"
    );
}

#[test]
fn stepwise_streaming_matches_batch() {
    let mut engine = InstallEngine::new();
    let mut collected: Vec<String> = Vec::new();
    let feed = vec![
        InstallEvent::OutLine { text: "one".to_string() },
        InstallEvent::ErrLine { text: "two".to_string() },
        InstallEvent::OutEof,
        InstallEvent::ErrEof,
        InstallEvent::Exited { success: true, status: "exit status: 0".to_string() },
    ];
    for event in feed {
        if let Some(line) = engine.step(event) {
            collected.push(line.render());
        }
    }
    assert_eq!(
        collected,
        vec![
            "[OUT] one\n".to_string(),
            "[ERR] two\n".to_string(),
            "[DONE] Installation completed successfully\n".to_string(),
        ]
    );
}

#[test]
fn success_with_no_output_is_single_done_line() {
    let events = vec![
        InstallEvent::OutEof,
        InstallEvent::ErrEof,
        InstallEvent::Exited { success: true, status: "exit status: 0".to_string() },
    ];
    let lines = rendered(events);
    assert_eq!(
        lines,
        vec!["[DONE] Installation completed successfully\n".to_string()]
    );
}
