use std::collections::HashMap;

use api_server::computer::{
    cursor_reply, finish_input, parse_mouse_location, plan_computer_action, screenshot_reply,
    ActionRequest, CaptureFailure, ComputerAction, ComputerTask, InputAction, ProcessOutput,
};
use api_server::edit::{
    begin_edit, continue_edit, insert_text, view_text, EditCommand, EditRequest, EditStep,
    FileError, FileOp,
};
use api_server::reply::{health_reply, Reply};

fn request(action: &str, text: Option<&str>, coordinate: Option<Vec<i32>>) -> ActionRequest {
    ActionRequest {
        action: action.to_string(),
        text: text.map(|t| t.to_string()),
        coordinate,
    }
}

/// Plans a computer request and, when it asks for the input tool, finishes it
/// as if the tool had succeeded.
fn run_action(action: &str, text: Option<&str>, coordinate: Option<Vec<i32>>) -> Reply {
    match plan_computer_action(&request(action, text, coordinate)) {
        Err(rep) => rep,
        Ok(ComputerTask::Input { action, .. }) => finish_input(action, Ok(String::new())),
        Ok(ComputerTask::Screenshot) => screenshot_reply(Ok(vec![0x89, b'P', b'N', b'G'])),
        Ok(ComputerTask::CursorPosition) => {
            cursor_reply(Ok("X=10\nY=20\nSCREEN=0\nWINDOW=1\n".to_string()))
        }
    }
}

fn args_of(action: &str, text: Option<&str>, coordinate: Option<Vec<i32>>) -> Vec<String> {
    match plan_computer_action(&request(action, text, coordinate)) {
        Ok(ComputerTask::Input { args, .. }) => args,
        _ => panic!("expected an input-tool invocation"),
    }
}

fn edit_request(
    command: &str,
    path: &str,
    file_text: Option<&str>,
    view_range: Option<Vec<i32>>,
    old_str: Option<&str>,
    new_str: Option<&str>,
    insert_line: Option<i32>,
) -> EditRequest {
    EditRequest {
        command: command.to_string(),
        path: path.to_string(),
        file_text: file_text.map(|t| t.to_string()),
        view_range,
        old_str: old_str.map(|t| t.to_string()),
        new_str: new_str.map(|t| t.to_string()),
        insert_line,
    }
}

fn missing() -> FileError {
    FileError { not_found: true, message: "No such file or directory".to_string() }
}

/// Runs an edit request against an in-memory set of files.
fn run_edit(files: &mut HashMap<String, String>, req: EditRequest) -> Reply {
    let mut step = begin_edit(&req);
    loop {
        match step {
            EditStep::Done(rep) => return rep,
            EditStep::Run { stage, op } => {
                let outcome = match op {
                    FileOp::Read { path } => files.get(&path).cloned().ok_or_else(missing),
                    FileOp::Write { path, contents } => {
                        files.insert(path, contents);
                        Ok(String::new())
                    }
                    FileOp::Exists { path } => {
                        if files.contains_key(&path) {
                            Ok(String::new())
                        } else {
                            Err(missing())
                        }
                    }
                    FileOp::Rename { from, to } => match files.remove(&from) {
                        Some(c) => {
                            files.insert(to, c);
                            Ok(String::new())
                        }
                        None => Err(missing()),
                    },
                };
                step = continue_edit(stage, outcome);
            }
        }
    }
}

#[test]
fn test_computer_actions() {
    let basic_actions = vec![
        ("left_click", true),
        ("right_click", true),
        ("middle_click", true),
        ("double_click", true),
        ("invalid_action", false),
    ];
    for (action, should_succeed) in basic_actions {
        let rep = run_action(action, None, None);
        if should_succeed {
            assert_eq!(rep.status, 200, "Action '{}' should succeed", action);
            assert_eq!(rep.response.kind, "success");
            assert!(!rep.response.data.is_empty(), "Response for '{}' should contain data", action);
        } else {
            assert_eq!(rep.status, 400, "Action '{}' should fail", action);
        }
    }
}

#[test]
fn test_keyboard_actions() {
    let keyboard_tests: Vec<(&str, Option<&str>, bool)> = vec![
        ("key", Some("Return"), true),
        ("type", Some("Hello World"), true),
        ("key", None, false),
        ("type", None, false),
    ];
    for (action, text, should_succeed) in keyboard_tests {
        let rep = run_action(action, text, None);
        if should_succeed {
            assert_eq!(rep.status, 200, "Keyboard action '{}' with text '{:?}' should succeed", action, text);
        } else {
            assert_eq!(rep.status, 400, "Keyboard action '{}' with text '{:?}' should fail", action, text);
        }
    }
}

#[test]
fn test_mouse_movement_actions() {
    let mouse_tests: Vec<(&str, Option<Vec<i32>>, bool)> = vec![
        ("mouse_move", Some(vec![100, 100]), true),
        ("left_click_drag", Some(vec![200, 200]), true),
    ];
    for (action, coords, should_succeed) in mouse_tests {
        let rep = run_action(action, None, coords.clone());
        if should_succeed {
            assert_eq!(rep.status, 200, "Mouse action '{}' with coordinates '{:?}' should succeed", action, coords);
        } else {
            assert_eq!(rep.status, 400, "Mouse action '{}' with coordinates '{:?}' should fail", action, coords);
        }
    }
}

#[test]
fn test_screenshot_response() {
    let rep = run_action("screenshot", None, None);
    assert_eq!(rep.status, 200);
    assert_eq!(rep.response.kind, "base64");
    assert_eq!(rep.response.media_type, "image/png");
    assert!(!rep.response.data.is_empty(), "Screenshot data should not be empty");
}

#[test]
fn test_cursor_position_response() {
    let rep = run_action("cursor_position", None, None);
    assert_eq!(rep.status, 200, "Expected 200 OK status");
    assert_eq!(rep.response.kind, "success", "Expected success response type");
    assert_eq!(rep.response.media_type, "text/plain", "Expected text/plain media type");
    assert!(rep.response.data.contains("X="), "Response should contain X coordinate");
    assert!(rep.response.data.contains("Y="), "Response should contain Y coordinate");
}

#[test]
fn test_file_creation_and_view() {
    let mut files = HashMap::new();
    let test_file = "/tmp/test_file.txt";
    let content = "Hello\nWorld\nTest";

    let rep = run_edit(&mut files, edit_request("create", test_file, Some(content), None, None, None, None));
    assert_eq!(rep.status, 200, "File creation should succeed");

    let rep = run_edit(&mut files, edit_request("view", test_file, None, None, None, None, None));
    assert_eq!(rep.status, 200, "File view should succeed");
    assert!(rep.response.data.contains("Hello"), "View should show file content");

    let rep = run_edit(&mut files, edit_request("view", test_file, None, Some(vec![1, 2]), None, None, None));
    assert_eq!(rep.status, 200, "Range view should succeed");
    assert!(rep.response.data.contains("Hello"), "Range view should show specified lines");
}

#[test]
fn test_file_modifications() {
    let mut files = HashMap::new();
    let test_file = "/tmp/test_edit_file.txt";
    let initial_content = "Line 1\nLine 2\nLine 3";

    let rep = run_edit(&mut files, edit_request("create", test_file, Some(initial_content), None, None, None, None));
    assert_eq!(rep.status, 200);

    let rep = run_edit(
        &mut files,
        edit_request("str_replace", test_file, None, None, Some("Line 2"), Some("Modified Line"), None),
    );
    assert_eq!(rep.status, 200, "String replacement should succeed");

    let rep = run_edit(&mut files, edit_request("insert", test_file, Some("Inserted Line"), None, None, None, Some(2)));
    assert_eq!(rep.status, 200, "Line insertion should succeed");

    let rep = run_edit(&mut files, edit_request("undo_edit", test_file, None, None, None, None, None));
    assert_eq!(rep.status, 200, "Undo operation should succeed");
}

#[test]
fn test_edit_error_cases() {
    let mut files = HashMap::new();
    let test_cases = vec![
        ("invalid_action", "/tmp/test.txt", None, None, None, None, None, 400),
        ("create", "/tmp/test.txt", None, None, None, None, None, 400),
        ("view", "/tmp/test.txt", None, Some(vec![1]), None, None, None, 400),
        ("str_replace", "/tmp/test.txt", None, None, None, Some("new"), None, 400),
        ("insert", "/tmp/test.txt", None, None, None, Some("text"), Some(-1), 400),
    ];
    files.insert("/tmp/test.txt".to_string(), "some text".to_string());
    for (action, path, file_text, view_range, old_str, new_str, insert_line, expected_status) in test_cases {
        let rep = run_edit(
            &mut files,
            edit_request(action, path, file_text, view_range, old_str, new_str, insert_line),
        );
        assert_eq!(rep.status, expected_status, "Test case for {} should return status code {}", action, expected_status);
    }
}

#[test]
fn health_answers_fixed_envelope() {
    let rep = health_reply();
    assert_eq!(rep.status, 200);
    assert_eq!(rep.response.kind, "success");
    assert_eq!(rep.response.media_type, "text/plain");
    assert_eq!(rep.response.data, "Service is running");
}

#[test]
fn click_arguments() {
    assert_eq!(args_of("left_click", None, None), vec!["click", "1"]);
    assert_eq!(args_of("right_click", None, None), vec!["click", "3"]);
    assert_eq!(args_of("middle_click", None, None), vec!["click", "2"]);
    assert_eq!(args_of("double_click", None, None), vec!["click", "--repeat", "2", "1"]);
    assert_eq!(args_of("left_click_drag", None, Some(vec![5, 6])), vec!["mousedown", "1"]);
}

#[test]
fn key_type_and_move_arguments() {
    assert_eq!(args_of("key", Some("ctrl+c"), None), vec!["key", "ctrl+c"]);
    assert_eq!(args_of("type", Some("Hello World"), None), vec!["type", "Hello World"]);
    assert_eq!(args_of("mouse_move", None, Some(vec![-15, 2048])), vec!["mousemove", "-15", "2048"]);
}

#[test]
fn clicks_ignore_extra_fields() {
    let rep = run_action("left_click", Some("ignored"), Some(vec![1, 2, 3]));
    assert_eq!(rep.status, 200);
    assert_eq!(rep.response.data, "Left click executed successfully");
}

#[test]
fn missing_text_names_the_field() {
    let rep = run_action("key", None, None);
    assert_eq!(rep.status, 400);
    assert_eq!(rep.response.kind, "error");
    assert_eq!(rep.response.data, "Text parameter is required for key action");
    let rep = run_action("type", None, None);
    assert_eq!(rep.response.data, "Text parameter is required for type action");
}

#[test]
fn coordinates_must_be_a_pair() {
    for coords in [vec![], vec![100], vec![1, 2, 3]] {
        let rep = run_action("mouse_move", None, Some(coords.clone()));
        assert_eq!(rep.status, 400);
        assert_eq!(rep.response.data, "Coordinate must contain exactly 2 values");
        let rep = run_action("left_click_drag", None, Some(coords));
        assert_eq!(rep.status, 400);
    }
    let rep = run_action("mouse_move", None, None);
    assert_eq!(rep.response.data, "Coordinate parameter is required for mouse move");
    let rep = run_action("left_click_drag", None, None);
    assert_eq!(rep.status, 400);
}

#[test]
fn unknown_action_always_rejected() {
    for (text, coords) in [(None, None), (Some("x"), Some(vec![1, 2]))] {
        let rep = run_action("Left_Click", text, coords);
        assert_eq!(rep.status, 400);
        assert_eq!(rep.response.data, "Invalid action");
    }
}

#[test]
fn parse_action_names() {
    let r = request("cursor_position", None, None);
    assert!(matches!(r.parse_action(), Some(ComputerAction::CursorPosition)));
    let r = request("screenshot ", None, None);
    assert!(r.parse_action().is_none());
}

#[test]
fn input_failure_reports_tool_error() {
    let rep = finish_input(InputAction::DoubleClick, Err("no display".to_string()));
    assert_eq!(rep.status, 500);
    assert_eq!(rep.response.kind, "error");
    assert_eq!(rep.response.data, "Failed to execute double click: no display");
    let rep = finish_input(InputAction::LeftClickDrag, Ok(String::new()));
    assert_eq!(rep.response.data, "Left click drag executed successfully!");
}

#[test]
fn process_output_picks_stream() {
    let ok = ProcessOutput { success: true, stdout: "out".to_string(), stderr: "err".to_string() };
    assert_eq!(ok.into_result(), Ok("out".to_string()));
    let bad = ProcessOutput { success: false, stdout: "out".to_string(), stderr: "err".to_string() };
    assert_eq!(bad.into_result(), Err("err".to_string()));
}

#[test]
fn cursor_report_parsing() {
    assert_eq!(parse_mouse_location("X=512\nY=-3\nSCREEN=0"), Ok((512, -3)));
    assert_eq!(parse_mouse_location("X=X=7\r\nY=+8\r\n"), Ok((7, 8)));
    assert_eq!(parse_mouse_location("Y=1\n"), Err("Failed to parse X coordinate".to_string()));
    assert_eq!(parse_mouse_location("X=1\nY=abc\n"), Err("Failed to parse Y coordinate".to_string()));
    assert_eq!(parse_mouse_location("X=2147483648\nY=1"), Err("Failed to parse X coordinate".to_string()));
    assert_eq!(parse_mouse_location("X=-2147483648\nY=2147483647"), Ok((i32::MIN, i32::MAX)));
    let rep = cursor_reply(Ok("X=10\nY=20\n".to_string()));
    assert_eq!(rep.response.data, "Cursor position is: X=10, Y=20");
    let rep = cursor_reply(Ok("garbage".to_string()));
    assert_eq!(rep.status, 500);
    assert_eq!(rep.response.data, "Failed to get cursor position: Failed to parse X coordinate");
    let rep = cursor_reply(Err("xdotool missing".to_string()));
    assert_eq!(rep.response.data, "Failed to get cursor position: xdotool missing");
}

#[test]
fn screenshot_is_padded_base64() {
    let rep = screenshot_reply(Ok(b"Man".to_vec()));
    assert_eq!(rep.response.data, "TWFu");
    let rep = screenshot_reply(Ok(b"Ma".to_vec()));
    assert_eq!(rep.response.data, "TWE=");
    let rep = screenshot_reply(Ok(vec![0xff, 0xfe, 0x00, 0x01]));
    assert_eq!(rep.response.data, "//4AAQ==");
    assert_eq!(rep.response.kind, "base64");
    assert_eq!(rep.response.media_type, "image/png");
    assert_eq!(rep.status, 200);
}

#[test]
fn screenshot_failures() {
    let rep = screenshot_reply(Err(CaptureFailure::Spawn("not found".to_string())));
    assert_eq!(rep.status, 500);
    assert_eq!(rep.response.data, "Failed to execute screenshot command: not found");
    let rep = screenshot_reply(Err(CaptureFailure::Tool("cannot open display".to_string())));
    assert_eq!(rep.response.data, "Failed to take screenshot: cannot open display");
    let rep = screenshot_reply(Err(CaptureFailure::Read("denied".to_string())));
    assert_eq!(rep.response.data, "Failed to read screenshot file: denied");
}

#[test]
fn file_lifecycle_view_ranges() {
    let mut files = HashMap::new();
    let p = "/work/f.txt";
    run_edit(&mut files, edit_request("create", p, Some("Line1\nLine2\nLine3"), None, None, None, None));
    let rep = run_edit(&mut files, edit_request("view", p, None, None, None, None, None));
    assert!(rep.response.data.contains("Line1"));
    let rep = run_edit(&mut files, edit_request("view", p, None, Some(vec![1, 2]), None, None, None));
    assert_eq!(rep.response.data, "Line1\nLine2");
    let rep = run_edit(&mut files, edit_request("view", p, None, Some(vec![2, -1]), None, None, None));
    assert_eq!(rep.response.data, "Line2\nLine3");
    let rep = run_edit(&mut files, edit_request("view", p, None, Some(vec![5, 1]), None, None, None));
    assert_eq!(rep.status, 400);
    assert_eq!(rep.response.data, "Invalid view_range: first element 5 should be within range [1, 3]");
    let rep = run_edit(&mut files, edit_request("view", p, None, Some(vec![3, 2]), None, None, None));
    assert_eq!(rep.status, 400);
    assert_eq!(
        rep.response.data,
        "Invalid view_range: second element 2 should be larger or equal to first element 3"
    );
    let rep = run_edit(&mut files, edit_request("view", p, None, Some(vec![1, 4]), None, None, None));
    assert_eq!(rep.response.data, "Invalid view_range: second element 4 should be smaller than number of lines 3");
    let rep = run_edit(&mut files, edit_request("view", p, None, Some(vec![0, 1]), None, None, None));
    assert_eq!(rep.status, 400);
}

#[test]
fn view_missing_file() {
    let mut files = HashMap::new();
    let rep = run_edit(&mut files, edit_request("view", "/nope", None, None, None, None, None));
    assert_eq!(rep.status, 400);
    assert_eq!(rep.response.data, "File not found: /nope");
    let other = continue_edit(
        match begin_edit(&edit_request("view", "/x", None, None, None, None, None)) {
            EditStep::Run { stage, .. } => stage,
            EditStep::Done(_) => panic!("view reads first"),
        },
        Err(FileError { not_found: false, message: "Is a directory".to_string() }),
    );
    match other {
        EditStep::Done(rep) => {
            assert_eq!(rep.status, 500);
            assert_eq!(rep.response.data, "Failed to read file: Is a directory");
        }
        EditStep::Run { .. } => panic!("a failed read is answered"),
    }
}

#[test]
fn replace_then_undo_restores_bytes() {
    let mut files = HashMap::new();
    let p = "/work/r.txt";
    let original = "a-b-a\r\nend\n";
    files.insert(p.to_string(), original.to_string());
    let rep = run_edit(&mut files, edit_request("str_replace", p, None, None, Some("a"), Some("xyz"), None));
    assert_eq!(rep.response.data, "String replacement completed successfully");
    assert_eq!(files[p], "xyz-b-xyz\r\nend\n");
    assert_eq!(files["/work/r.txt.bak"], original);
    let rep = run_edit(&mut files, edit_request("undo_edit", p, None, None, None, None, None));
    assert_eq!(rep.response.data, "Edit undone successfully");
    assert_eq!(files[p], original);
    assert!(!files.contains_key("/work/r.txt.bak"));
}

#[test]
fn insert_places_line_between() {
    let mut files = HashMap::new();
    let p = "/work/i.txt";
    files.insert(p.to_string(), "Line1\nLine2\nLine3".to_string());
    let rep = run_edit(&mut files, edit_request("insert", p, Some("New"), None, None, None, Some(2)));
    assert_eq!(rep.status, 200);
    assert_eq!(files[p], "Line1\nLine2\nNew\nLine3");
    assert_eq!(files[p].lines().count(), 4);
    let rep = run_edit(&mut files, edit_request("insert", p, Some("X"), None, None, None, Some(9)));
    assert_eq!(rep.status, 400);
    assert_eq!(rep.response.data, "Line number 9 is out of range");
    let rep = run_edit(&mut files, edit_request("insert", p, Some("X"), None, None, None, Some(-1)));
    assert_eq!(rep.response.data, "Line number -1 is out of range");
}

#[test]
fn undo_without_backup() {
    let mut files = HashMap::new();
    files.insert("/work/u.txt".to_string(), "x".to_string());
    let rep = run_edit(&mut files, edit_request("undo_edit", "/work/u.txt", None, None, None, None, None));
    assert_eq!(rep.status, 400);
    assert_eq!(rep.response.data, "No backup file found to undo");
}

#[test]
fn second_edit_overwrites_backup() {
    let mut files = HashMap::new();
    let p = "/work/b.txt";
    files.insert(p.to_string(), "one".to_string());
    run_edit(&mut files, edit_request("str_replace", p, None, None, Some("one"), Some("two"), None));
    run_edit(&mut files, edit_request("str_replace", p, None, None, Some("two"), Some("three"), None));
    run_edit(&mut files, edit_request("undo_edit", p, None, None, None, None, None));
    assert_eq!(files[p], "two");
}

#[test]
fn edit_missing_fields_and_commands() {
    let mut files = HashMap::new();
    let cases = vec![
        (edit_request("create", "/a", None, None, None, None, None), "file_text is required for create action"),
        (
            edit_request("str_replace", "/a", None, None, Some("o"), None, None),
            "old_str and new_str are required for str_replace action",
        ),
        (
            edit_request("insert", "/a", Some("t"), None, None, None, None),
            "file_text and insert_line are required for insert action",
        ),
        (edit_request("delete", "/a", Some("t"), None, None, None, Some(1)), "Unsupported edit command"),
    ];
    for (req, msg) in cases {
        let rep = run_edit(&mut files, req);
        assert_eq!(rep.status, 400);
        assert_eq!(rep.response.data, msg);
    }
    let req = edit_request("undo_edit", "/a", None, None, None, None, None);
    assert!(matches!(req.parse_command(), Some(EditCommand::UndoEdit)));
}

#[test]
fn edit_write_failures() {
    let stage = match begin_edit(&edit_request("create", "/ro/f", Some("x"), None, None, None, None)) {
        EditStep::Run { stage, op } => {
            assert!(matches!(op, FileOp::Write { .. }));
            stage
        }
        EditStep::Done(_) => panic!("create writes first"),
    };
    match continue_edit(stage, Err(FileError { not_found: false, message: "Read-only file system".to_string() })) {
        EditStep::Done(rep) => {
            assert_eq!(rep.status, 500);
            assert_eq!(rep.response.data, "Failed to create file: Read-only file system");
        }
        EditStep::Run { .. } => panic!("a failed write is answered"),
    }
}

#[test]
fn view_text_whole_and_ranges() {
    assert_eq!(view_text("a\nb\n", &None), Ok("a\nb\n".to_string()));
    assert_eq!(view_text("a\nb\n", &Some(vec![3, 3])), Ok(String::new()));
    assert_eq!(view_text("a\nb", &Some(vec![1, 2, 3])), Err("view_range should contain exactly 2 integers".to_string()));
    assert_eq!(
        view_text("a", &Some(vec![1, -5])),
        Err("Invalid view_range: second element -5 should be smaller than number of lines 1".to_string())
    );
}

#[test]
fn insert_text_positions() {
    assert_eq!(insert_text("a\nb", 0, "x"), Some("x\na\nb".to_string()));
    assert_eq!(insert_text("a\r\nb\n", 2, "x"), Some("a\nb\nx".to_string()));
    assert_eq!(insert_text("", 0, "x"), Some("x".to_string()));
    assert_eq!(insert_text("a", 2, "x"), None);
}

#[test]
fn out_of_range_insert_keeps_backup() {
    let mut files = HashMap::new();
    let p = "/work/k.txt";
    files.insert(p.to_string(), "first".to_string());
    run_edit(&mut files, edit_request("str_replace", p, None, None, Some("first"), Some("second"), None));
    assert_eq!(files["/work/k.txt.bak"], "first");
    let rep = run_edit(&mut files, edit_request("insert", p, Some("X"), None, None, None, Some(5)));
    assert_eq!(rep.status, 400);
    assert_eq!(rep.response.data, "Line number 5 is out of range");
    assert_eq!(files[p], "second");
    assert_eq!(files["/work/k.txt.bak"], "first");
    let rep = run_edit(&mut files, edit_request("undo_edit", p, None, None, None, None, None));
    assert_eq!(rep.status, 200);
    assert_eq!(files[p], "first");
}

#[test]
fn rejected_insert_names_no_file_operation() {
    let stage = match begin_edit(&edit_request("insert", "/f", Some("X"), None, None, None, Some(-1))) {
        EditStep::Run { stage, .. } => stage,
        EditStep::Done(_) => panic!("insert reads first"),
    };
    match continue_edit(stage, Ok("a\nb".to_string())) {
        EditStep::Done(rep) => assert_eq!(rep.response.data, "Line number -1 is out of range"),
        EditStep::Run { .. } => panic!("an out-of-range insert writes nothing"),
    }
}
