use realesrgan_gui::checker::{CheckerAction, CheckerStatus, CheckerTask, ChildrenStatusChecker};
use realesrgan_gui::command_line::{spawn_arguments, CliArg};
use realesrgan_gui::pool::{CheckerResult, ChildStatus, ExitReport, ProcessHandle, ProcessPool};

fn text(s: &str) -> CliArg<String> {
    CliArg::Text(s.to_string())
}

fn path(s: &str) -> CliArg<String> {
    CliArg::Path(s.to_string())
}

fn new_child(input: &str) -> CheckerTask<String> {
    CheckerTask::NewChild {
        input_path: input.to_string(),
        output_path: format!("out/{}", input),
        upscale_ratio: 4,
        gpu_id: String::new(),
        model_path: String::new(),
        model_name: String::new(),
        tta_mode: false,
    }
}

fn ok_exit() -> ChildStatus {
    ChildStatus::Exited(ExitReport { success: true, code: Some(0) })
}

fn ready_checker() -> ChildrenStatusChecker<&'static str> {
    let mut checker = ChildrenStatusChecker::new();
    assert!(checker.mark_ready());
    checker
}

#[test]
fn arguments_skip_empty_options_and_keep_tta() {
    let args = spawn_arguments(
        "in.png".to_string(),
        "out.png".to_string(),
        4,
        String::new(),
        "m.bin".to_string(),
        String::new(),
        true,
    );
    assert_eq!(
        args,
        vec![
            text("-i"),
            path("in.png"),
            text("-o"),
            path("out.png"),
            text("-s"),
            text("4"),
            text("-m"),
            text("m.bin"),
            text("-x"),
        ]
    );
}

#[test]
fn arguments_with_every_option() {
    let args = spawn_arguments(
        "a.jpg".to_string(),
        "b.png".to_string(),
        3,
        "1".to_string(),
        "models".to_string(),
        "realesr-animevideov3".to_string(),
        false,
    );
    assert_eq!(
        args,
        vec![
            text("-i"),
            path("a.jpg"),
            text("-o"),
            path("b.png"),
            text("-s"),
            text("3"),
            text("-g"),
            text("1"),
            text("-m"),
            text("models"),
            text("-n"),
            text("realesr-animevideov3"),
        ]
    );
}

#[test]
fn arguments_with_no_options() {
    let args = spawn_arguments(
        "x".to_string(),
        "y".to_string(),
        12,
        String::new(),
        String::new(),
        String::new(),
        false,
    );
    assert_eq!(args, vec![text("-i"), path("x"), text("-o"), path("y"), text("-s"), text("12")]);
}

#[test]
fn checker_becomes_ready_once() {
    let mut checker: ChildrenStatusChecker<u8> = ChildrenStatusChecker::new();
    assert_eq!(checker.status(), CheckerStatus::Starting);
    assert!(!checker.is_ready());
    assert!(checker.mark_ready());
    assert!(checker.is_ready());
    assert!(!checker.mark_ready());
    assert_eq!(checker.status(), CheckerStatus::Ready);
}

#[test]
fn new_child_becomes_launch_with_its_arguments() {
    let checker = ready_checker();
    match checker.accept(new_child("cat.png")) {
        CheckerAction::Launch(args) => assert_eq!(
            args,
            vec![
                text("-i"),
                path("cat.png"),
                text("-o"),
                path("out/cat.png"),
                text("-s"),
                text("4"),
            ]
        ),
        other => panic!("expected a launch, got {:?}", other),
    }
}

#[test]
fn poll_on_empty_pool_does_nothing() {
    let mut checker = ready_checker();
    assert_eq!(checker.accept(CheckerTask::<String>::Poll), CheckerAction::Idle);
    let events = checker.finish_poll(Vec::new());
    assert!(events.is_empty());
    assert_eq!(checker.child_count(), 0);
    let events = checker.finish_poll(Vec::new());
    assert!(events.is_empty());
    assert_eq!(checker.child_count(), 0);
}

#[test]
fn failed_spawn_reports_once_and_leaves_pool() {
    let mut checker = ready_checker();
    let report = checker.finish_spawn(Err("No such file or directory (os error 2)".to_string()));
    assert_eq!(
        report,
        Some(CheckerResult::SpawnError("No such file or directory (os error 2)".to_string()))
    );
    assert_eq!(checker.child_count(), 0);
    assert_eq!(checker.accept(CheckerTask::<String>::Poll), CheckerAction::Idle);
}

#[test]
fn started_child_joins_silently() {
    let mut checker = ready_checker();
    let report = checker.finish_spawn(Ok(ProcessHandle { pid: 41, process: "first" }));
    assert_eq!(report, None);
    assert_eq!(checker.child_count(), 1);
    assert_eq!(checker.child_pid(0), 41);
}

#[test]
fn spawn_then_poll_sees_the_new_child() {
    let mut checker = ready_checker();
    assert!(checker.finish_spawn(Ok(ProcessHandle { pid: 7, process: "only" })).is_none());
    assert_eq!(checker.accept(CheckerTask::<String>::Poll), CheckerAction::Probe);
    assert_eq!(*checker.child_process_mut(0), "only");
    let events = checker.finish_poll(vec![ChildStatus::Running(Some("5.00%\n".to_string()))]);
    assert_eq!(events, vec![CheckerResult::ChildLog(7, "5.00%\n".to_string())]);
    assert_eq!(checker.child_count(), 1);
}

#[test]
fn drain_of_many_children_ends_once() {
    let mut checker = ready_checker();
    for (pid, name) in [(10u32, "a"), (11, "b"), (12, "c")] {
        assert!(checker.finish_spawn(Ok(ProcessHandle { pid, process: name })).is_none());
    }
    let mut all = Vec::new();
    all.extend(checker.finish_poll(vec![
        ChildStatus::Running(None),
        ok_exit(),
        ChildStatus::Running(Some("tile 1/4\n".to_string())),
    ]));
    assert_eq!(checker.child_count(), 2);
    all.extend(checker.finish_poll(vec![ok_exit(), ChildStatus::Running(None)]));
    assert_eq!(checker.child_count(), 1);
    assert_eq!(checker.child_pid(0), 12);
    all.extend(checker.finish_poll(vec![ChildStatus::Exited(ExitReport {
        success: false,
        code: Some(255),
    })]));
    assert_eq!(checker.child_count(), 0);
    all.extend(checker.finish_poll(Vec::new()));
    assert_eq!(
        all,
        vec![
            CheckerResult::ChildExited(11, ExitReport { success: true, code: Some(0) }),
            CheckerResult::ChildLog(12, "tile 1/4\n".to_string()),
            CheckerResult::ChildExited(10, ExitReport { success: true, code: Some(0) }),
            CheckerResult::ChildExited(12, ExitReport { success: false, code: Some(255) }),
            CheckerResult::Ended,
        ]
    );
    assert_eq!(all.iter().filter(|e| **e == CheckerResult::Ended).count(), 1);
}

#[test]
fn all_children_ending_in_one_sweep_end_once() {
    let mut pool = ProcessPool::new();
    pool.add_child(ProcessHandle { pid: 1, process: () });
    pool.add_child(ProcessHandle { pid: 2, process: () });
    let events = pool.sweep(vec![ok_exit(), ChildStatus::WaitFailed("gone".to_string())]);
    assert_eq!(
        events,
        vec![
            CheckerResult::ChildExited(1, ExitReport { success: true, code: Some(0) }),
            CheckerResult::ChildErrored(2, "gone".to_string()),
            CheckerResult::Ended,
        ]
    );
    assert!(pool.is_empty());
}

#[test]
fn wait_error_removes_child_for_good() {
    let mut checker = ready_checker();
    assert!(checker.finish_spawn(Ok(ProcessHandle { pid: 20, process: "x" })).is_none());
    assert!(checker.finish_spawn(Ok(ProcessHandle { pid: 21, process: "y" })).is_none());
    let events = checker.finish_poll(vec![
        ChildStatus::WaitFailed("permission denied".to_string()),
        ChildStatus::Running(None),
    ]);
    assert_eq!(events, vec![CheckerResult::ChildErrored(20, "permission denied".to_string())]);
    assert_eq!(checker.child_count(), 1);
    assert_eq!(checker.child_pid(0), 21);
    let later = checker.finish_poll(vec![ChildStatus::Running(Some("x".to_string()))]);
    assert_eq!(later, vec![CheckerResult::ChildLog(21, "x".to_string())]);
    assert!(later.iter().all(|e| !matches!(e, CheckerResult::ChildErrored(20, _))));
}

#[test]
fn running_child_without_output_reports_nothing() {
    let mut pool = ProcessPool::new();
    pool.add_child(ProcessHandle { pid: 3, process: 0u8 });
    let events = pool.sweep(vec![ChildStatus::Running(None)]);
    assert!(events.is_empty());
    assert_eq!(pool.len(), 1);
    assert_eq!(pool.pid(0), 3);
}

#[test]
fn process_can_be_updated_in_place() {
    let mut pool = ProcessPool::new();
    pool.add_child(ProcessHandle { pid: 3, process: 1u32 });
    pool.add_child(ProcessHandle { pid: 4, process: 2u32 });
    *pool.process_mut(1) += 40;
    assert_eq!(*pool.process_mut(1), 42);
    assert_eq!(*pool.process_mut(0), 1);
    assert_eq!(pool.pid(1), 4);
}
