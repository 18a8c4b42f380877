//! GUI automation: which input-tool invocation each action stands for, what
//! is answered for its outcome, the cursor query and the screenshot.
use base64::Engine;
use vstd::prelude::*;

use crate::reply::{
    failure, failure_with, is_error, is_success, success, ActionResponse, Reply,
    BAD_REQUEST, OK, SERVER_ERROR,
};
use crate::text::{
    chars_of, contains, decimal, i32_text, lines_exec, lines_of, occurs_at, occurs_at_exec, parse_i32, push_decimal,
    push_str, same_text, starts_with, string_of, strip_prefix_repeated,
    strip_prefix_repeated_exec,
};

verus! {

pub enum ComputerAction {
    Key,
    Type,
    MouseMove,
    LeftClick,
    LeftClickDrag,
    RightClick,
    MiddleClick,
    DoubleClick,
    Screenshot,
    CursorPosition,
}

pub struct ActionRequest {
    pub action: String,
    pub text: Option<String>,
    pub coordinate: Option<Vec<i32>>,
}

/// The action that an action name stands for.
pub open spec fn action_of(s: Seq<char>) -> Option<ComputerAction> {
    if s == "cursor_position"@ {
        Some(ComputerAction::CursorPosition)
    } else if s == "key"@ {
        Some(ComputerAction::Key)
    } else if s == "type"@ {
        Some(ComputerAction::Type)
    } else if s == "mouse_move"@ {
        Some(ComputerAction::MouseMove)
    } else if s == "left_click"@ {
        Some(ComputerAction::LeftClick)
    } else if s == "left_click_drag"@ {
        Some(ComputerAction::LeftClickDrag)
    } else if s == "right_click"@ {
        Some(ComputerAction::RightClick)
    } else if s == "middle_click"@ {
        Some(ComputerAction::MiddleClick)
    } else if s == "double_click"@ {
        Some(ComputerAction::DoubleClick)
    } else if s == "screenshot"@ {
        Some(ComputerAction::Screenshot)
    } else {
        None
    }
}

impl ActionRequest {
    pub fn parse_action(&self) -> (r: Option<ComputerAction>)
        ensures
            r == action_of(self.action@),
    {
        let a = self.action.as_str();
        if same_text(a, "cursor_position") {
            Some(ComputerAction::CursorPosition)
        } else if same_text(a, "key") {
            Some(ComputerAction::Key)
        } else if same_text(a, "type") {
            Some(ComputerAction::Type)
        } else if same_text(a, "mouse_move") {
            Some(ComputerAction::MouseMove)
        } else if same_text(a, "left_click") {
            Some(ComputerAction::LeftClick)
        } else if same_text(a, "left_click_drag") {
            Some(ComputerAction::LeftClickDrag)
        } else if same_text(a, "right_click") {
            Some(ComputerAction::RightClick)
        } else if same_text(a, "middle_click") {
            Some(ComputerAction::MiddleClick)
        } else if same_text(a, "double_click") {
            Some(ComputerAction::DoubleClick)
        } else if same_text(a, "screenshot") {
            Some(ComputerAction::Screenshot)
        } else {
            None
        }
    }
}

/// The actions that are one invocation of the input-injection tool.
pub enum InputAction {
    Key,
    Type,
    MouseMove,
    LeftClick,
    LeftClickDrag,
    RightClick,
    MiddleClick,
    DoubleClick,
}

/// What the caller is to run for a valid request.
pub enum ComputerTask {
    /// Run the input-injection tool with these arguments.
    Input { action: InputAction, args: Vec<String> },
    /// Capture the screen.
    Screenshot,
    /// Ask the input tool where the pointer is.
    CursorPosition,
}

pub open spec fn args_view(args: Vec<String>) -> Seq<Seq<char>> {
    args@.map_values(|a: String| a@)
}

/// The input-tool arguments of an action; `text` and `coord` are used by
/// the actions that take them. A drag only presses the button: releasing it
/// is the caller's next request.
pub open spec fn input_args(a: InputAction, text: Seq<char>, coord: Seq<i32>) -> Seq<Seq<char>> {
    match a {
        InputAction::Key => seq!["key"@, text],
        InputAction::Type => seq!["type"@, text],
        InputAction::MouseMove => seq![
            "mousemove"@,
            decimal(coord[0] as int),
            decimal(coord[1] as int),
        ],
        InputAction::LeftClick => seq!["click"@, "1"@],
        InputAction::LeftClickDrag => seq!["mousedown"@, "1"@],
        InputAction::RightClick => seq!["click"@, "3"@],
        InputAction::MiddleClick => seq!["click"@, "2"@],
        InputAction::DoubleClick => seq!["click"@, "--repeat"@, "2"@, "1"@],
    }
}

pub open spec fn rejects(r: Result<ComputerTask, Reply>, data: Seq<char>) -> bool {
    r matches Err(rep) && is_error(rep, BAD_REQUEST, data)
}

pub open spec fn runs_input(
    r: Result<ComputerTask, Reply>,
    a: InputAction,
    text: Seq<char>,
    coord: Seq<i32>,
) -> bool {
    r matches Ok(ComputerTask::Input { action, args }) && action == a && args_view(args)
        == input_args(a, text, coord)
}

/// How a computer request is validated and what it asks to run.
pub open spec fn computer_plan(req: ActionRequest, r: Result<ComputerTask, Reply>) -> bool {
    let e = Seq::<char>::empty();
    let none = Seq::<i32>::empty();
    match action_of(req.action@) {
        None => rejects(r, "Invalid action"@),
        Some(ComputerAction::Key) => match req.text {
            Some(t) => runs_input(r, InputAction::Key, t@, none),
            None => rejects(r, "Text parameter is required for key action"@),
        },
        Some(ComputerAction::Type) => match req.text {
            Some(t) => runs_input(r, InputAction::Type, t@, none),
            None => rejects(r, "Text parameter is required for type action"@),
        },
        Some(ComputerAction::MouseMove) => match req.coordinate {
            Some(c) => if c@.len() == 2 {
                runs_input(r, InputAction::MouseMove, e, c@)
            } else {
                rejects(r, "Coordinate must contain exactly 2 values"@)
            },
            None => rejects(r, "Coordinate parameter is required for mouse move"@),
        },
        Some(ComputerAction::LeftClickDrag) => match req.coordinate {
            Some(c) => if c@.len() == 2 {
                runs_input(r, InputAction::LeftClickDrag, e, c@)
            } else {
                rejects(r, "Coordinate must contain exactly 2 values"@)
            },
            None => rejects(r, "Coordinate parameter is required for left click drag"@),
        },
        Some(ComputerAction::LeftClick) => runs_input(r, InputAction::LeftClick, e, none),
        Some(ComputerAction::RightClick) => runs_input(r, InputAction::RightClick, e, none),
        Some(ComputerAction::MiddleClick) => runs_input(r, InputAction::MiddleClick, e, none),
        Some(ComputerAction::DoubleClick) => runs_input(r, InputAction::DoubleClick, e, none),
        Some(ComputerAction::Screenshot) => r matches Ok(ComputerTask::Screenshot),
        Some(ComputerAction::CursorPosition) => r matches Ok(ComputerTask::CursorPosition),
    }
}

fn text_of(s: &str) -> (r: String)
    ensures
        r@ == s@,
{
    string_of(&chars_of(s))
}

fn number_text(n: i32) -> (r: String)
    ensures
        r@ == decimal(n as int),
{
    let mut v: Vec<char> = Vec::new();
    push_decimal(&mut v, n as i64);
    string_of(&v)
}

fn input_task(action: InputAction, args: Vec<String>) -> (r: Result<ComputerTask, Reply>)
    ensures
        r == Ok::<ComputerTask, Reply>(ComputerTask::Input { action, args }),
{
    Ok(ComputerTask::Input { action, args })
}

fn reject(msg: &str) -> (r: Result<ComputerTask, Reply>)
    ensures
        rejects(r, msg@),
{
    Err(failure(BAD_REQUEST, text_of(msg)))
}

fn coordinate_args(first: &str, c: &Vec<i32>) -> (r: Vec<String>)
    requires
        c@.len() == 2,
    ensures
        args_view(r) == seq![first@, decimal(c@[0] as int), decimal(c@[1] as int)],
{
    let mut v: Vec<String> = Vec::new();
    v.push(text_of(first));
    v.push(number_text(c[0]));
    v.push(number_text(c[1]));
    assert(args_view(v) == seq![first@, decimal(c@[0] as int), decimal(c@[1] as int)]);
    v
}

fn word_args(words: &Vec<&str>) -> (r: Vec<String>)
    ensures
        args_view(r) == words@.map_values(|w: &str| w@),
{
    let mut v: Vec<String> = Vec::new();
    let mut i: usize = 0;
    while i < words.len()
        invariant
            i <= words.len(),
            args_view(v) == words@.subrange(0, i as int).map_values(|w: &str| w@),
        decreases words.len() - i,
    {
        let ghost before = args_view(v);
        v.push(text_of(words[i]));
        assert(args_view(v) == before.push(words@[i as int]@));
        assert(words@.subrange(0, i + 1).map_values(|w: &str| w@) == words@.subrange(
            0,
            i as int,
        ).map_values(|w: &str| w@).push(words@[i as int]@));
        i = i + 1;
    }
    assert(words@.subrange(0, words.len() as int) == words@);
    v
}

fn text_args(first: &str, text: &String) -> (r: Vec<String>)
    ensures
        args_view(r) == seq![first@, text@],
{
    let mut v: Vec<String> = Vec::new();
    v.push(text_of(first));
    v.push(text_of(text.as_str()));
    assert(args_view(v) == seq![first@, text@]);
    v
}

/// Validates a computer request and says what to run for it.
pub fn plan_computer_action(req: &ActionRequest) -> (r: Result<ComputerTask, Reply>)
    ensures
        computer_plan(*req, r),
{
    let ghost e = Seq::<char>::empty();
    let ghost none = Seq::<i32>::empty();
    match req.parse_action() {
        None => reject("Invalid action"),
        Some(ComputerAction::Key) => match &req.text {
            Some(t) => input_task(InputAction::Key, text_args("key", t)),
            None => reject("Text parameter is required for key action"),
        },
        Some(ComputerAction::Type) => match &req.text {
            Some(t) => input_task(InputAction::Type, text_args("type", t)),
            None => reject("Text parameter is required for type action"),
        },
        Some(ComputerAction::MouseMove) => match &req.coordinate {
            Some(c) => if c.len() == 2 {
                input_task(InputAction::MouseMove, coordinate_args("mousemove", c))
            } else {
                reject("Coordinate must contain exactly 2 values")
            },
            None => reject("Coordinate parameter is required for mouse move"),
        },
        Some(ComputerAction::LeftClickDrag) => match &req.coordinate {
            Some(c) => if c.len() == 2 {
                let args = word_args(&vec!["mousedown", "1"]);
                proof {
                    assert(args_view(args) == input_args(InputAction::LeftClickDrag, e, c@));
                }
                input_task(InputAction::LeftClickDrag, args)
            } else {
                reject("Coordinate must contain exactly 2 values")
            },
            None => reject("Coordinate parameter is required for left click drag"),
        },
        Some(ComputerAction::LeftClick) => {
            let args = word_args(&vec!["click", "1"]);
            assert(args_view(args) == input_args(InputAction::LeftClick, e, none));
            input_task(InputAction::LeftClick, args)
        },
        Some(ComputerAction::RightClick) => {
            let args = word_args(&vec!["click", "3"]);
            assert(args_view(args) == input_args(InputAction::RightClick, e, none));
            input_task(InputAction::RightClick, args)
        },
        Some(ComputerAction::MiddleClick) => {
            let args = word_args(&vec!["click", "2"]);
            assert(args_view(args) == input_args(InputAction::MiddleClick, e, none));
            input_task(InputAction::MiddleClick, args)
        },
        Some(ComputerAction::DoubleClick) => {
            let args = word_args(&vec!["click", "--repeat", "2", "1"]);
            assert(args_view(args) == input_args(InputAction::DoubleClick, e, none));
            input_task(InputAction::DoubleClick, args)
        },
        Some(ComputerAction::Screenshot) => Ok(ComputerTask::Screenshot),
        Some(ComputerAction::CursorPosition) => Ok(ComputerTask::CursorPosition),
    }
}

/// What is answered when an input action ran.
pub open spec fn done_message(a: InputAction) -> Seq<char> {
    match a {
        InputAction::Key => "Key action executed successfully"@,
        InputAction::Type => "Type action executed successfully"@,
        InputAction::MouseMove => "Mouse move executed successfully"@,
        InputAction::LeftClick => "Left click executed successfully"@,
        InputAction::LeftClickDrag => "Left click drag executed successfully!"@,
        InputAction::RightClick => "Right click executed successfully"@,
        InputAction::MiddleClick => "Middle click executed successfully"@,
        InputAction::DoubleClick => "Double click executed successfully"@,
    }
}

/// What precedes the tool's error when an input action failed.
pub open spec fn failed_message(a: InputAction) -> Seq<char> {
    match a {
        InputAction::Key => "Failed to execute key action: "@,
        InputAction::Type => "Failed to execute type action: "@,
        InputAction::MouseMove => "Failed to execute mouse move: "@,
        InputAction::LeftClick => "Failed to execute left click: "@,
        InputAction::LeftClickDrag => "Failed to execute left click drag: "@,
        InputAction::RightClick => "Failed to execute right click: "@,
        InputAction::MiddleClick => "Failed to execute middle click: "@,
        InputAction::DoubleClick => "Failed to execute double click: "@,
    }
}

fn messages(a: &InputAction) -> (r: (&'static str, &'static str))
    ensures
        r.0@ == done_message(*a),
        r.1@ == failed_message(*a),
{
    match a {
        InputAction::Key => ("Key action executed successfully", "Failed to execute key action: "),
        InputAction::Type => (
            "Type action executed successfully",
            "Failed to execute type action: ",
        ),
        InputAction::MouseMove => (
            "Mouse move executed successfully",
            "Failed to execute mouse move: ",
        ),
        InputAction::LeftClick => (
            "Left click executed successfully",
            "Failed to execute left click: ",
        ),
        InputAction::LeftClickDrag => (
            "Left click drag executed successfully!",
            "Failed to execute left click drag: ",
        ),
        InputAction::RightClick => (
            "Right click executed successfully",
            "Failed to execute right click: ",
        ),
        InputAction::MiddleClick => (
            "Middle click executed successfully",
            "Failed to execute middle click: ",
        ),
        InputAction::DoubleClick => (
            "Double click executed successfully",
            "Failed to execute double click: ",
        ),
    }
}

/// The answer to an input action, given the tool's output or its error.
pub fn finish_input(action: InputAction, outcome: Result<String, String>) -> (r: Reply)
    ensures
        match outcome {
            Ok(_) => is_success(r, done_message(action)),
            Err(e) => is_error(r, SERVER_ERROR, failed_message(action) + e@),
        },
{
    let (done, failed) = messages(&action);
    match outcome {
        Ok(_) => success(text_of(done)),
        Err(e) => failure_with(SERVER_ERROR, failed, e.as_str()),
    }
}

/// What an external program reported.
pub struct ProcessOutput {
    pub success: bool,
    pub stdout: String,
    pub stderr: String,
}

impl ProcessOutput {
    /// Standard output on success, standard error otherwise.
    pub fn into_result(self) -> (r: Result<String, String>)
        ensures
            self.success ==> r == Ok::<String, String>(self.stdout),
            !self.success ==> r == Err::<String, String>(self.stderr),
    {
        if self.success {
            Ok(self.stdout)
        } else {
            Err(self.stderr)
        }
    }
}

/// The first of `ls` that begins with `p`.
pub open spec fn first_with_prefix(ls: Seq<Seq<char>>, p: Seq<char>) -> Option<Seq<char>>
    decreases ls.len(),
{
    if ls.len() == 0 {
        None
    } else if starts_with(ls[0], p) {
        Some(ls[0])
    } else {
        first_with_prefix(ls.skip(1), p)
    }
}

/// The number on the first line of `out` that begins with `key`, if that
/// line holds one after the key.
pub open spec fn field_value(out: Seq<char>, key: Seq<char>) -> Option<i32> {
    match first_with_prefix(lines_of(out), key) {
        Some(l) => i32_text(strip_prefix_repeated(l, key)),
        None => None,
    }
}

/// The pointer position in the input tool's `X=`/`Y=` report.
pub open spec fn mouse_location(out: Seq<char>) -> Result<(i32, i32), Seq<char>> {
    match field_value(out, "X="@) {
        None => Err("Failed to parse X coordinate"@),
        Some(x) => match field_value(out, "Y="@) {
            None => Err("Failed to parse Y coordinate"@),
            Some(y) => Ok((x, y)),
        },
    }
}

fn field_value_exec(out: &Vec<char>, key: &str) -> (r: Option<i32>)
    ensures
        r == field_value(out@, key@),
{
    let k = chars_of(key);
    let lines = lines_exec(out);
    let ghost ls = lines_of(out@);
    let mut i: usize = 0;
    assert(ls.skip(0) == ls);
    while i < lines.len()
        invariant
            i <= lines.len(),
            k@ == key@,
            ls == lines_of(out@),
            lines@.map_values(|v: Vec<char>| v@) == ls,
            first_with_prefix(ls.skip(i as int), key@) == first_with_prefix(ls, key@),
        decreases lines.len() - i,
    {
        let ghost rest = ls.skip(i as int);
        assert(rest[0] == ls[i as int]);
        assert(rest.skip(1) == ls.skip(i + 1));
        assert(lines@[i as int]@ == ls[i as int]);
        if occurs_at_exec(&lines[i], &k, 0) {
            assert(first_with_prefix(rest, key@) == Some(ls[i as int]));
            let value = strip_prefix_repeated_exec(&lines[i], &k);
            assert(value@ == strip_prefix_repeated(ls[i as int], key@));
            assert(first_with_prefix(lines_of(out@), key@) == Some(ls[i as int]));
            let r = parse_i32(&value);
            assert(r == field_value(out@, key@));
            return r;
        }
        i = i + 1;
    }
    None
}

/// Reads the pointer position from the input tool's report.
pub fn parse_mouse_location(out: &str) -> (r: Result<(i32, i32), String>)
    ensures
        match r {
            Ok(p) => mouse_location(out@) == Ok::<(i32, i32), Seq<char>>(p),
            Err(m) => mouse_location(out@) == Err::<(i32, i32), Seq<char>>(m@),
        },
{
    let o = chars_of(out);
    match field_value_exec(&o, "X=") {
        None => Err(text_of("Failed to parse X coordinate")),
        Some(x) => match field_value_exec(&o, "Y=") {
            None => Err(text_of("Failed to parse Y coordinate")),
            Some(y) => Ok((x, y)),
        },
    }
}

/// The answer to a cursor query, given the tool's report or its error.
pub fn cursor_reply(query: Result<String, String>) -> (r: Reply)
    ensures
        match query {
            Err(e) => is_error(r, SERVER_ERROR, "Failed to get cursor position: "@ + e@),
            Ok(out) => match mouse_location(out@) {
                Ok((x, y)) => is_success(
                    r,
                    "Cursor position is: X="@ + decimal(x as int) + ", Y="@ + decimal(y as int),
                ),
                Err(m) => is_error(r, SERVER_ERROR, "Failed to get cursor position: "@ + m),
            },
        },
{
    match query {
        Err(e) => failure_with(SERVER_ERROR, "Failed to get cursor position: ", e.as_str()),
        Ok(out) => match parse_mouse_location(out.as_str()) {
            Ok((x, y)) => {
                let mut m = chars_of("Cursor position is: X=");
                push_decimal(&mut m, x as i64);
                push_str(&mut m, ", Y=");
                push_decimal(&mut m, y as i64);
                success(string_of(&m))
            },
            Err(m) => failure_with(SERVER_ERROR, "Failed to get cursor position: ", m.as_str()),
        },
    }
}

/// The name of what `base64::engine::general_purpose::STANDARD.encode` returns.
pub uninterp spec fn base64_of(b: Seq<u8>) -> Seq<char>;

/// A character of the standard base64 alphabet, or the padding `'='`.
pub open spec fn is_base64_char(c: char) -> bool {
    ('A' <= c && c <= 'Z') || ('a' <= c && c <= 'z') || ('0' <= c && c <= '9') || c == '+' || c
        == '/' || c == '='
}

/// Relies on `base64::Engine::encode` with the padded standard engine: four
/// characters of the standard alphabet or `'='` for every started group of three bytes.
#[verifier::external_body]
fn encode_base64(b: &Vec<u8>) -> (r: String)
    requires
        b@.len() <= usize::MAX / 2,
    ensures
        r@ == base64_of(b@),
        r@.len() == 4 * ((b@.len() + 2) / 3),
        forall|i: int| 0 <= i < r@.len() ==> is_base64_char(#[trigger] r@[i]),
{
    base64::engine::general_purpose::STANDARD.encode(b)
}

/// Why a screenshot could not be had.
pub enum CaptureFailure {
    /// The capture tool could not be started.
    Spawn(String),
    /// The capture tool failed; its error output.
    Tool(String),
    /// The captured image could not be read.
    Read(String),
}

/// The answer to a screenshot request, given the captured PNG image or the failure.
pub fn screenshot_reply(capture: Result<Vec<u8>, CaptureFailure>) -> (r: Reply)
    ensures
        match capture {
            Ok(image) => if image@.len() <= usize::MAX / 2 {
                &&& r.status == OK
                &&& r.response.kind@ == "base64"@
                &&& r.response.media_type@ == "image/png"@
                &&& r.response.data@ == base64_of(image@)
                &&& r.response.data@.len() == 4 * ((image@.len() + 2) / 3)
                &&& forall|i: int|
                    0 <= i < r.response.data@.len() ==> is_base64_char(
                        #[trigger] r.response.data@[i],
                    )
            } else {
                is_error(r, SERVER_ERROR, "Failed to read screenshot file: image too large"@)
            },
            Err(CaptureFailure::Spawn(e)) => is_error(
                r,
                SERVER_ERROR,
                "Failed to execute screenshot command: "@ + e@,
            ),
            Err(CaptureFailure::Tool(e)) => is_error(
                r,
                SERVER_ERROR,
                "Failed to take screenshot: "@ + e@,
            ),
            Err(CaptureFailure::Read(e)) => is_error(
                r,
                SERVER_ERROR,
                "Failed to read screenshot file: "@ + e@,
            ),
        },
{
    match capture {
        Ok(image) => {
            if image.len() > usize::MAX / 2 {
                return failure(
                    SERVER_ERROR,
                    text_of("Failed to read screenshot file: image too large"),
                );
            }
            let data = encode_base64(&image);
            Reply {
                status: OK,
                response: ActionResponse {
                    kind: text_of("base64"),
                    media_type: text_of("image/png"),
                    data,
                },
            }
        },
        Err(CaptureFailure::Spawn(e)) => failure_with(
            SERVER_ERROR,
            "Failed to execute screenshot command: ",
            e.as_str(),
        ),
        Err(CaptureFailure::Tool(e)) => failure_with(
            SERVER_ERROR,
            "Failed to take screenshot: ",
            e.as_str(),
        ),
        Err(CaptureFailure::Read(e)) => failure_with(
            SERVER_ERROR,
            "Failed to read screenshot file: ",
            e.as_str(),
        ),
    }
}

} // verus!

verus! {

/// A click of any of the four kinds needs neither text nor a coordinate: it
/// always runs the input tool, and its answer is a 200 success when the tool succeeds.
pub proof fn clicks_need_no_arguments(req: ActionRequest, r: Result<ComputerTask, Reply>)
    requires
        action_of(req.action@) == Some(ComputerAction::LeftClick) || action_of(req.action@) == Some(
            ComputerAction::RightClick,
        ) || action_of(req.action@) == Some(ComputerAction::MiddleClick) || action_of(req.action@)
            == Some(ComputerAction::DoubleClick),
        computer_plan(req, r),
    ensures
        r matches Ok(ComputerTask::Input { action, args }) && done_message(action).len() > 0,
{
    reveal_strlit("Left click executed successfully");
    reveal_strlit("Right click executed successfully");
    reveal_strlit("Middle click executed successfully");
    reveal_strlit("Double click executed successfully");
}

/// `key` and `type` are rejected with a 400 that names the text parameter
/// exactly when the text is missing; with text they run the input tool.
pub proof fn keys_need_text(req: ActionRequest, r: Result<ComputerTask, Reply>)
    requires
        action_of(req.action@) == Some(ComputerAction::Key) || action_of(req.action@) == Some(
            ComputerAction::Type,
        ),
        computer_plan(req, r),
    ensures
        req.text is None <==> r is Err,
        r matches Err(rep) ==> rep.status == BAD_REQUEST && contains(
            rep.response.data@,
            "Text parameter"@,
        ),
{
    if req.text is None {
        let t = "Text parameter"@;
        reveal_strlit("Text parameter");
        reveal_strlit("Text parameter is required for key action");
        reveal_strlit("Text parameter is required for type action");
        let d = r->Err_0.response.data@;
        assert(d.subrange(0, t.len() as int) == t);
        assert(occurs_at(d, t, 0));
    }
}

/// `mouse_move` and `left_click_drag` run exactly when the coordinate holds
/// two integers; otherwise they are rejected with a 400.
pub proof fn pointer_moves_need_two_coordinates(req: ActionRequest, r: Result<ComputerTask, Reply>)
    requires
        action_of(req.action@) == Some(ComputerAction::MouseMove) || action_of(req.action@) == Some(
            ComputerAction::LeftClickDrag,
        ),
        computer_plan(req, r),
    ensures
        r is Ok <==> (req.coordinate matches Some(c) && c@.len() == 2),
        r matches Err(rep) ==> rep.status == BAD_REQUEST,
{
}

/// An action name that names no action is rejected with a 400, whatever the
/// other fields hold.
pub proof fn unknown_actions_rejected(req: ActionRequest, r: Result<ComputerTask, Reply>)
    requires
        action_of(req.action@) is None,
        computer_plan(req, r),
    ensures
        r matches Err(rep) && rep.status == BAD_REQUEST,
{
}

} // verus!
