use save_bridge::greeting::greet;
use save_bridge::operation::{Action, Event, SaveFileOperation};
use save_bridge::request::SaveRequest;

fn request(title: &str, default_name: &str, content: Vec<u8>, open_after_save: bool) -> SaveRequest {
    SaveRequest {
        title: title.to_string(),
        default_name: default_name.to_string(),
        content,
        open_after_save,
    }
}

#[test]
fn start_prompts_with_title_and_suggested_name() {
    let mut op = SaveFileOperation::new(request("Save", "out.txt", vec![1, 2, 3], false));
    match op.start() {
        Some(Action::PromptSave { title, suggested_name }) => {
            assert_eq!(title, "Save");
            assert_eq!(suggested_name, "out.txt");
        },
        other => panic!("expected a dialog prompt, got {:?}", action_name(&other)),
    }
    assert!(!op.finished());
}

#[test]
fn confirmed_save_writes_exact_bytes_then_reports_true() {
    let mut op = SaveFileOperation::new(request("Save", "out.txt", vec![72, 105], false));
    op.start();
    match op.step(Event::DialogChose { path: "/tmp/out.txt".to_string() }) {
        Some(Action::WriteBytes { path, data }) => {
            assert_eq!(path, "/tmp/out.txt");
            assert_eq!(data, vec![72, 105]);
        },
        other => panic!("expected a write, got {:?}", action_name(&other)),
    }
    match op.step(Event::WriteSucceeded) {
        Some(Action::Report { outcome }) => assert_eq!(outcome, Ok(true)),
        other => panic!("expected the outcome, got {:?}", action_name(&other)),
    }
    assert!(op.finished());
}

#[test]
fn cancelled_dialog_reports_false_and_ends_the_run() {
    let mut op = SaveFileOperation::new(request("Save", "out.txt", vec![72, 105], false));
    op.start();
    match op.step(Event::DialogCancelled) {
        Some(Action::Report { outcome }) => assert_eq!(outcome, Ok(false)),
        other => panic!("expected the outcome, got {:?}", action_name(&other)),
    }
    assert!(op.finished());
    // The run is over: no event can coax another action (in particular no
    // write) out of it.
    assert!(op.step(Event::WriteSucceeded).is_none());
    assert!(op.step(Event::DialogChose { path: "/tmp/out.txt".to_string() }).is_none());
}

#[test]
fn open_requested_after_successful_write() {
    let mut op = SaveFileOperation::new(request("Save", "out.txt", vec![7], true));
    op.start();
    op.step(Event::DialogChose { path: "/tmp/seven.bin".to_string() });
    match op.step(Event::WriteSucceeded) {
        Some(Action::OpenPath { path }) => assert_eq!(path, "/tmp/seven.bin"),
        other => panic!("expected an open, got {:?}", action_name(&other)),
    }
    match op.step(Event::OpenSucceeded) {
        Some(Action::Report { outcome }) => assert_eq!(outcome, Ok(true)),
        other => panic!("expected the outcome, got {:?}", action_name(&other)),
    }
    assert!(op.finished());
}

#[test]
fn opener_failure_surfaces_its_message_after_the_write() {
    let mut op = SaveFileOperation::new(request("Save", "out.txt", vec![72, 105], true));
    op.start();
    match op.step(Event::DialogChose { path: "/tmp/out.txt".to_string() }) {
        Some(Action::WriteBytes { path, data }) => {
            // The bytes went to disk before any open was attempted, and no
            // later step asks to change the file again.
            assert_eq!(path, "/tmp/out.txt");
            assert_eq!(data, vec![72, 105]);
        },
        other => panic!("expected a write, got {:?}", action_name(&other)),
    }
    op.step(Event::WriteSucceeded);
    match op.step(Event::OpenFailed { message: "no default handler".to_string() }) {
        Some(Action::Report { outcome }) => {
            assert_eq!(outcome, Err("no default handler".to_string()));
        },
        other => panic!("expected the outcome, got {:?}", action_name(&other)),
    }
    assert!(op.finished());
    assert!(op.step(Event::OpenSucceeded).is_none());
}

#[test]
fn write_failure_surfaces_its_message_and_no_open_follows() {
    let mut op = SaveFileOperation::new(request("Save", "out.txt", vec![1], true));
    op.start();
    op.step(Event::DialogChose { path: "/root/forbidden".to_string() });
    match op.step(Event::WriteFailed { message: "permission denied".to_string() }) {
        Some(Action::Report { outcome }) => {
            assert_eq!(outcome, Err("permission denied".to_string()));
        },
        other => panic!("expected the outcome, got {:?}", action_name(&other)),
    }
    assert!(op.finished());
    assert!(op.step(Event::WriteSucceeded).is_none());
    assert!(op.step(Event::OpenSucceeded).is_none());
}

#[test]
fn unusable_dialog_path_surfaces_its_message() {
    let mut op = SaveFileOperation::new(request("Save", "out.txt", vec![1], false));
    op.start();
    match op.step(Event::DialogPathInvalid { message: "not a filesystem path".to_string() }) {
        Some(Action::Report { outcome }) => {
            assert_eq!(outcome, Err("not a filesystem path".to_string()));
        },
        other => panic!("expected the outcome, got {:?}", action_name(&other)),
    }
    assert!(op.finished());
}

#[test]
fn repeated_save_requests_the_identical_write() {
    let mut first = SaveFileOperation::new(request("Save", "out.txt", vec![72, 105], false));
    let mut second = SaveFileOperation::new(request("Save", "out.txt", vec![72, 105], false));
    first.start();
    second.start();
    let a = first.step(Event::DialogChose { path: "/tmp/out.txt".to_string() });
    let b = second.step(Event::DialogChose { path: "/tmp/out.txt".to_string() });
    match (a, b) {
        (
            Some(Action::WriteBytes { path: path_a, data: data_a }),
            Some(Action::WriteBytes { path: path_b, data: data_b }),
        ) => {
            assert_eq!(path_a, path_b);
            assert_eq!(data_a, data_b);
        },
        _ => panic!("expected two writes"),
    }
}

#[test]
fn events_out_of_order_change_nothing() {
    let mut op = SaveFileOperation::new(request("Save", "out.txt", vec![1], false));
    // Before the dialog was even requested, no event belongs.
    assert!(op.step(Event::WriteSucceeded).is_none());
    assert!(op.start().is_some());
    // A second start does nothing.
    assert!(op.start().is_none());
    // Write answers do not belong while the dialog is open.
    assert!(op.step(Event::WriteSucceeded).is_none());
    assert!(op.step(Event::OpenFailed { message: "early".to_string() }).is_none());
    // The dialog answer still drives the run forward afterwards.
    match op.step(Event::DialogChose { path: "/tmp/a".to_string() }) {
        Some(Action::WriteBytes { path, .. }) => assert_eq!(path, "/tmp/a"),
        other => panic!("expected a write, got {:?}", action_name(&other)),
    }
}

#[test]
fn greet_builds_the_exact_greeting() {
    assert_eq!(greet("World"), "Hello, World! You've been greeted from Rust!");
    assert_eq!(greet(""), "Hello, ! You've been greeted from Rust!");
}

fn action_name(a: &Option<Action>) -> &'static str {
    match a {
        None => "no action",
        Some(Action::PromptSave { .. }) => "PromptSave",
        Some(Action::WriteBytes { .. }) => "WriteBytes",
        Some(Action::OpenPath { .. }) => "OpenPath",
        Some(Action::Report { .. }) => "Report",
    }
}
