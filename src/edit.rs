//! Text-file editing with a single-slot backup for undo.
//!
//! An edit request is run as a short conversation: [`begin_edit`] either answers
//! at once or names the first file operation to perform, and each call of
//! [`continue_edit`] takes the outcome of the last operation and either answers
//! or names the next one. The caller performs the operations; every decision
//! is made here.
use vstd::prelude::*;

use crate::reply::{
    failure, failure_with, is_error, is_success, success, success_with, Reply, BAD_REQUEST,
    SERVER_ERROR,
};
use crate::text::{
    chars_of, decimal, digits_of, join_lines, join_lines_exec, lines_exec, lines_of, push_decimal, push_digits, push_str,
    replace_all, replace_all_exec, same_text, split_newlines, split_newlines_exec, string_of,
    lemma_lines_of_join, plain_line,
};

verus! {

pub enum EditCommand {
    View,
    Create,
    StrReplace,
    Insert,
    UndoEdit,
}

pub struct EditRequest {
    pub command: String,
    pub path: String,
    pub file_text: Option<String>,
    pub view_range: Option<Vec<i32>>,
    pub old_str: Option<String>,
    pub new_str: Option<String>,
    pub insert_line: Option<i32>,
}

/// The command that a command name stands for.
pub open spec fn command_of(s: Seq<char>) -> Option<EditCommand> {
    if s == "view"@ {
        Some(EditCommand::View)
    } else if s == "create"@ {
        Some(EditCommand::Create)
    } else if s == "str_replace"@ {
        Some(EditCommand::StrReplace)
    } else if s == "insert"@ {
        Some(EditCommand::Insert)
    } else if s == "undo_edit"@ {
        Some(EditCommand::UndoEdit)
    } else {
        None
    }
}

impl EditRequest {
    pub fn parse_command(&self) -> (r: Option<EditCommand>)
        ensures
            r == command_of(self.command@),
    {
        let c = self.command.as_str();
        if same_text(c, "view") {
            Some(EditCommand::View)
        } else if same_text(c, "create") {
            Some(EditCommand::Create)
        } else if same_text(c, "str_replace") {
            Some(EditCommand::StrReplace)
        } else if same_text(c, "insert") {
            Some(EditCommand::Insert)
        } else if same_text(c, "undo_edit") {
            Some(EditCommand::UndoEdit)
        } else {
            None
        }
    }
}

/// Where the content of `p` is kept before it is modified.
pub open spec fn backup_path(p: Seq<char>) -> Seq<char> {
    p + ".bak"@
}

pub fn backup_path_of(p: &str) -> (r: String)
    ensures
        r@ == backup_path(p@),
{
    let mut v = chars_of(p);
    push_str(&mut v, ".bak");
    string_of(&v)
}

/// A file operation for the caller to perform.
pub enum FileOp {
    /// Read the whole file as text.
    Read { path: String },
    /// Create or overwrite the file with `contents`.
    Write { path: String, contents: String },
    /// Ask whether the file exists: `Ok` if it does, an error if not.
    Exists { path: String },
    /// Rename `from` over `to`.
    Rename { from: String, to: String },
}

/// Why a file operation failed.
pub struct FileError {
    pub not_found: bool,
    pub message: String,
}

/// Where an edit stands while it waits for the outcome of a file operation.
pub enum EditStage {
    View { path: String, range: Option<Vec<i32>> },
    Create { path: String },
    ReadForReplace { path: String, old: String, new: String },
    ReadForInsert { path: String, text: String, line: i32 },
    BackupForReplace { path: String, replaced: String },
    BackupForInsert { path: String, inserted: String },
    WriteUpdated { after_insert: bool },
    CheckBackup { path: String },
    Restore,
}

/// What to do next: perform `op` and come back with `stage`, or answer.
pub enum EditStep {
    Run { stage: EditStage, op: FileOp },
    Done(Reply),
}

pub open spec fn range_view(r: Option<Vec<i32>>) -> Option<Seq<i32>> {
    match r {
        Some(v) => Some(v@),
        None => None,
    }
}

/// What `view` shows of `content`: `Ok` with the text, or `Err` with the
/// message of a rejected range. Lines are the pieces between `'\n'`,
/// counted from 1; an end of -1 means the last line.
pub open spec fn view_result(content: Seq<char>, range: Option<Seq<i32>>) -> Result<
    Seq<char>,
    Seq<char>,
> {
    match range {
        None => Ok(content),
        Some(r) => if r.len() != 2 {
            Err("view_range should contain exactly 2 integers"@)
        } else {
            let ls = split_newlines(content);
            let n = ls.len() as int;
            let a = r[0] as int;
            let b = r[1] as int;
            if a < 1 || a > n {
                Err(
                    "Invalid view_range: first element "@ + decimal(a)
                        + " should be within range [1, "@ + decimal(n) + "]"@,
                )
            } else if b != -1 && (b < 0 || b > n) {
                Err(
                    "Invalid view_range: second element "@ + decimal(b)
                        + " should be smaller than number of lines "@ + decimal(n),
                )
            } else if b != -1 && b < a {
                Err(
                    "Invalid view_range: second element "@ + decimal(b)
                        + " should be larger or equal to first element "@ + decimal(a),
                )
            } else {
                let end = if b == -1 {
                    n
                } else {
                    b
                };
                Ok(join_lines(ls.subrange(a - 1, end)))
            }
        },
    }
}

/// The content after `text` is inserted as a line after line `line` of
/// `content` (0: before the first), or `None` when there is no such place.
pub open spec fn insert_result(content: Seq<char>, line: int, text: Seq<char>) -> Option<
    Seq<char>,
> {
    let ls = lines_of(content);
    if 0 <= line <= ls.len() {
        Some(join_lines(ls.insert(line, text)))
    } else {
        None
    }
}

pub open spec fn reads(op: FileOp, p: Seq<char>) -> bool {
    op matches FileOp::Read { path } && path@ == p
}

pub open spec fn writes(op: FileOp, p: Seq<char>, c: Seq<char>) -> bool {
    op matches FileOp::Write { path, contents } && path@ == p && contents@ == c
}

pub open spec fn checks(op: FileOp, p: Seq<char>) -> bool {
    op matches FileOp::Exists { path } && path@ == p
}

pub open spec fn renames(op: FileOp, from: Seq<char>, to: Seq<char>) -> bool {
    op matches FileOp::Rename { from: f, to: t } && f@ == from && t@ == to
}

pub open spec fn answers_error(s: EditStep, status: u16, data: Seq<char>) -> bool {
    s matches EditStep::Done(rep) && is_error(rep, status, data)
}

pub open spec fn answers_success(s: EditStep, data: Seq<char>) -> bool {
    s matches EditStep::Done(rep) && is_success(rep, data)
}

/// How an edit request starts.
pub open spec fn edit_begins(req: EditRequest, s: EditStep) -> bool {
    let p = req.path@;
    match command_of(req.command@) {
        None => answers_error(s, BAD_REQUEST, "Unsupported edit command"@),
        Some(EditCommand::View) => s matches EditStep::Run {
            stage: EditStage::View { path, range },
            op,
        } && path@ == p && range_view(range) == range_view(req.view_range) && reads(op, p),
        Some(EditCommand::Create) => match req.file_text {
            None => answers_error(s, BAD_REQUEST, "file_text is required for create action"@),
            Some(t) => s matches EditStep::Run { stage: EditStage::Create { path }, op }
                && path@ == p && writes(op, p, t@),
        },
        Some(EditCommand::StrReplace) => if req.old_str is Some && req.new_str is Some {
            s matches EditStep::Run { stage: EditStage::ReadForReplace { path, old, new }, op }
                && path@ == p && old@ == req.old_str->0@ && new@ == req.new_str->0@ && reads(
                op,
                p,
            )
        } else {
            answers_error(
                s,
                BAD_REQUEST,
                "old_str and new_str are required for str_replace action"@,
            )
        },
        Some(EditCommand::Insert) => if req.file_text is Some && req.insert_line is Some {
            s matches EditStep::Run { stage: EditStage::ReadForInsert { path, text, line }, op }
                && path@ == p && text@ == req.file_text->0@ && line == req.insert_line->0
                && reads(op, p)
        } else {
            answers_error(
                s,
                BAD_REQUEST,
                "file_text and insert_line are required for insert action"@,
            )
        },
        Some(EditCommand::UndoEdit) => s matches EditStep::Run {
            stage: EditStage::CheckBackup { path },
            op,
        } && path@ == p && checks(op, backup_path(p)),
    }
}

/// How an edit goes on from `stage` once its operation came back with `outcome`.
pub open spec fn edit_continues(
    stage: EditStage,
    outcome: Result<String, FileError>,
    s: EditStep,
) -> bool {
    match stage {
        EditStage::View { path, range } => match outcome {
            Ok(content) => match view_result(content@, range_view(range)) {
                Ok(d) => answers_success(s, d),
                Err(m) => answers_error(s, BAD_REQUEST, m),
            },
            Err(e) => if e.not_found {
                answers_error(s, BAD_REQUEST, "File not found: "@ + path@)
            } else {
                answers_error(s, SERVER_ERROR, "Failed to read file: "@ + e.message@)
            },
        },
        EditStage::Create { path } => match outcome {
            Ok(_) => answers_success(s, "File created successfully at: "@ + path@),
            Err(e) => answers_error(s, SERVER_ERROR, "Failed to create file: "@ + e.message@),
        },
        EditStage::ReadForReplace { path, old, new } => match outcome {
            Ok(content) => s matches EditStep::Run {
                stage: EditStage::BackupForReplace { path: kept, replaced },
                op,
            } && kept@ == path@ && replaced@ == replace_all(content@, old@, new@) && writes(
                op,
                backup_path(path@),
                content@,
            ),
            Err(e) => answers_error(s, SERVER_ERROR, "Failed to read file: "@ + e.message@),
        },
        EditStage::ReadForInsert { path, text, line } => match outcome {
            Ok(content) => match insert_result(content@, line as int, text@) {
                Some(u) => s matches EditStep::Run {
                    stage: EditStage::BackupForInsert { path: kept, inserted },
                    op,
                } && kept@ == path@ && inserted@ == u && writes(op, backup_path(path@), content@),
                None => answers_error(
                    s,
                    BAD_REQUEST,
                    "Line number "@ + decimal(line as int) + " is out of range"@,
                ),
            },
            Err(e) => answers_error(s, SERVER_ERROR, "Failed to read file: "@ + e.message@),
        },
        EditStage::BackupForReplace { path, replaced } => match outcome {
            Ok(_) => s matches EditStep::Run { stage: EditStage::WriteUpdated { after_insert }, op }
                && !after_insert && writes(op, path@, replaced@),
            Err(e) => answers_error(s, SERVER_ERROR, "Failed to create backup: "@ + e.message@),
        },
        EditStage::BackupForInsert { path, inserted } => match outcome {
            Ok(_) => s matches EditStep::Run { stage: EditStage::WriteUpdated { after_insert }, op }
                && after_insert && writes(op, path@, inserted@),
            Err(e) => answers_error(s, SERVER_ERROR, "Failed to create backup: "@ + e.message@),
        },
        EditStage::WriteUpdated { after_insert } => match outcome {
            Ok(_) => if after_insert {
                answers_success(s, "Text inserted successfully"@)
            } else {
                answers_success(s, "String replacement completed successfully"@)
            },
            Err(e) => answers_error(s, SERVER_ERROR, "Failed to write file: "@ + e.message@),
        },
        EditStage::CheckBackup { path } => match outcome {
            Ok(_) => s matches EditStep::Run { stage: EditStage::Restore, op } && renames(
                op,
                backup_path(path@),
                path@,
            ),
            Err(_) => answers_error(s, BAD_REQUEST, "No backup file found to undo"@),
        },
        EditStage::Restore => match outcome {
            Ok(_) => answers_success(s, "Edit undone successfully"@),
            Err(e) => answers_error(s, SERVER_ERROR, "Failed to restore backup: "@ + e.message@),
        },
    }
}

fn copy_text(s: &String) -> (r: String)
    ensures
        r@ == s@,
{
    string_of(&chars_of(s.as_str()))
}

fn copy_range(r: &Option<Vec<i32>>) -> (c: Option<Vec<i32>>)
    ensures
        range_view(c) == range_view(*r),
{
    match r {
        Some(v) => {
            let mut w: Vec<i32> = Vec::new();
            let mut i: usize = 0;
            while i < v.len()
                invariant
                    i <= v.len(),
                    w@ == v@.subrange(0, i as int),
                decreases v.len() - i,
            {
                w.push(v[i]);
                i = i + 1;
            }
            assert(w@ == v@);
            Some(w)
        },
        None => None,
    }
}

fn answer(rep: Reply) -> (s: EditStep)
    ensures
        s == EditStep::Done(rep),
{
    EditStep::Done(rep)
}

/// Starts an edit request: rejects an unknown command or a missing field,
/// else names the first file operation.
pub fn begin_edit(req: &EditRequest) -> (s: EditStep)
    ensures
        edit_begins(*req, s),
{
    let path = &req.path;
    match req.parse_command() {
        None => answer(failure(BAD_REQUEST, string_of(&chars_of("Unsupported edit command")))),
        Some(EditCommand::View) => EditStep::Run {
            stage: EditStage::View { path: copy_text(path), range: copy_range(&req.view_range) },
            op: FileOp::Read { path: copy_text(path) },
        },
        Some(EditCommand::Create) => match &req.file_text {
            None => answer(
                failure(
                    BAD_REQUEST,
                    string_of(&chars_of("file_text is required for create action")),
                ),
            ),
            Some(t) => EditStep::Run {
                stage: EditStage::Create { path: copy_text(path) },
                op: FileOp::Write { path: copy_text(path), contents: copy_text(t) },
            },
        },
        Some(EditCommand::StrReplace) => match (&req.old_str, &req.new_str) {
            (Some(old), Some(new)) => EditStep::Run {
                stage: EditStage::ReadForReplace {
                    path: copy_text(path),
                    old: copy_text(old),
                    new: copy_text(new),
                },
                op: FileOp::Read { path: copy_text(path) },
            },
            _ => answer(
                failure(
                    BAD_REQUEST,
                    string_of(&chars_of("old_str and new_str are required for str_replace action")),
                ),
            ),
        },
        Some(EditCommand::Insert) => match (&req.file_text, req.insert_line) {
            (Some(text), Some(line)) => EditStep::Run {
                stage: EditStage::ReadForInsert { path: copy_text(path), text: copy_text(text), line },
                op: FileOp::Read { path: copy_text(path) },
            },
            _ => answer(
                failure(
                    BAD_REQUEST,
                    string_of(&chars_of("file_text and insert_line are required for insert action")),
                ),
            ),
        },
        Some(EditCommand::UndoEdit) => EditStep::Run {
            stage: EditStage::CheckBackup { path: copy_text(path) },
            op: FileOp::Exists { path: backup_path_of(path.as_str()) },
        },
    }
}

/// What `view` shows of `content` for an optional line range.
pub fn view_text(content: &str, range: &Option<Vec<i32>>) -> (r: Result<String, String>)
    ensures
        match r {
            Ok(d) => view_result(content@, range_view(*range)) == Ok::<Seq<char>, Seq<char>>(d@),
            Err(m) => view_result(content@, range_view(*range)) == Err::<Seq<char>, Seq<char>>(
                m@,
            ),
        },
{
    let text = chars_of(content);
    match range {
        None => Ok(string_of(&text)),
        Some(r) => {
            if r.len() != 2 {
                return Err(string_of(&chars_of("view_range should contain exactly 2 integers")));
            }
            let lines = split_newlines_exec(&text);
            let ghost ls = split_newlines(content@);
            let n = lines.len();
            assert(decimal(n as int) == digits_of(n as nat));
            let a = r[0];
            let b = r[1];
            if a < 1 || a as usize > n {
                let mut m = chars_of("Invalid view_range: first element ");
                push_decimal(&mut m, a as i64);
                push_str(&mut m, " should be within range [1, ");
                push_digits(&mut m, n as u64);
                push_str(&mut m, "]");
                return Err(string_of(&m));
            }
            if b != -1 && (b < 0 || b as usize > n) {
                let mut m = chars_of("Invalid view_range: second element ");
                push_decimal(&mut m, b as i64);
                push_str(&mut m, " should be smaller than number of lines ");
                push_digits(&mut m, n as u64);
                return Err(string_of(&m));
            }
            if b != -1 && b < a {
                let mut m = chars_of("Invalid view_range: second element ");
                push_decimal(&mut m, b as i64);
                push_str(&mut m, " should be larger or equal to first element ");
                push_decimal(&mut m, a as i64);
                return Err(string_of(&m));
            }
            let end: usize = if b == -1 {
                n
            } else {
                b as usize
            };
            let mut picked: Vec<Vec<char>> = Vec::new();
            let mut i: usize = (a - 1) as usize;
            while i < end
                invariant
                    1 <= a,
                    a - 1 <= i <= end,
                    end <= lines.len(),
                    lines@.map_values(|v: Vec<char>| v@) == ls,
                    picked@.map_values(|v: Vec<char>| v@) == ls.subrange(a - 1, i as int),
                decreases end - i,
            {
                let ghost before = picked@.map_values(|v: Vec<char>| v@);
                let line = lines[i].clone();
                picked.push(line);
                assert(picked@.map_values(|v: Vec<char>| v@) == before.push(ls[i as int]));
                assert(ls.subrange(a - 1, i + 1) == ls.subrange(a - 1, i as int).push(ls[i as int]));
                i = i + 1;
            }
            let joined = join_lines_exec(&picked);
            Ok(string_of(&joined))
        },
    }
}

/// The content after `text` is inserted as a line after line `line`, if
/// `line` names a place in it.
pub fn insert_text(content: &str, line: i32, text: &str) -> (r: Option<String>)
    ensures
        match r {
            Some(u) => insert_result(content@, line as int, text@) == Some(u@),
            None => insert_result(content@, line as int, text@) is None,
        },
{
    let c = chars_of(content);
    let mut lines = lines_exec(&c);
    if line < 0 || line as usize > lines.len() {
        return None;
    }
    let ghost before = lines@.map_values(|v: Vec<char>| v@);
    let t = chars_of(text);
    lines.insert(line as usize, t);
    assert(lines@.map_values(|v: Vec<char>| v@) == before.insert(line as int, text@));
    let joined = join_lines_exec(&lines);
    Some(string_of(&joined))
}

/// Takes an edit on from `stage` with the outcome of its last file operation.
pub fn continue_edit(stage: EditStage, outcome: Result<String, FileError>) -> (s: EditStep)
    ensures
        edit_continues(stage, outcome, s),
{
    match stage {
        EditStage::View { path, range } => match outcome {
            Ok(content) => match view_text(content.as_str(), &range) {
                Ok(d) => answer(success(d)),
                Err(m) => answer(failure(BAD_REQUEST, m)),
            },
            Err(e) => if e.not_found {
                answer(failure_with(BAD_REQUEST, "File not found: ", path.as_str()))
            } else {
                answer(failure_with(SERVER_ERROR, "Failed to read file: ", e.message.as_str()))
            },
        },
        EditStage::Create { path } => match outcome {
            Ok(_) => answer(success_with("File created successfully at: ", path.as_str())),
            Err(e) => answer(
                failure_with(SERVER_ERROR, "Failed to create file: ", e.message.as_str()),
            ),
        },
        EditStage::ReadForReplace { path, old, new } => match outcome {
            Ok(content) => {
                let c = chars_of(content.as_str());
                let o = chars_of(old.as_str());
                let n = chars_of(new.as_str());
                let replaced = string_of(&replace_all_exec(&c, &o, &n));
                let backup = backup_path_of(path.as_str());
                EditStep::Run {
                    stage: EditStage::BackupForReplace { path, replaced },
                    op: FileOp::Write { path: backup, contents: content },
                }
            },
            Err(e) => answer(
                failure_with(SERVER_ERROR, "Failed to read file: ", e.message.as_str()),
            ),
        },
        EditStage::ReadForInsert { path, text, line } => match outcome {
            Ok(content) => match insert_text(content.as_str(), line, text.as_str()) {
                Some(inserted) => {
                    let backup = backup_path_of(path.as_str());
                    EditStep::Run {
                        stage: EditStage::BackupForInsert { path, inserted },
                        op: FileOp::Write { path: backup, contents: content },
                    }
                },
                None => {
                    let mut m = chars_of("Line number ");
                    push_decimal(&mut m, line as i64);
                    push_str(&mut m, " is out of range");
                    answer(failure(BAD_REQUEST, string_of(&m)))
                },
            },
            Err(e) => answer(
                failure_with(SERVER_ERROR, "Failed to read file: ", e.message.as_str()),
            ),
        },
        EditStage::BackupForReplace { path, replaced } => match outcome {
            Ok(_) => EditStep::Run {
                stage: EditStage::WriteUpdated { after_insert: false },
                op: FileOp::Write { path, contents: replaced },
            },
            Err(e) => answer(
                failure_with(SERVER_ERROR, "Failed to create backup: ", e.message.as_str()),
            ),
        },
        EditStage::BackupForInsert { path, inserted } => match outcome {
            Ok(_) => EditStep::Run {
                stage: EditStage::WriteUpdated { after_insert: true },
                op: FileOp::Write { path, contents: inserted },
            },
            Err(e) => answer(
                failure_with(SERVER_ERROR, "Failed to create backup: ", e.message.as_str()),
            ),
        },
        EditStage::WriteUpdated { after_insert } => match outcome {
            Ok(_) => if after_insert {
                answer(success(string_of(&chars_of("Text inserted successfully"))))
            } else {
                answer(success(string_of(&chars_of("String replacement completed successfully"))))
            },
            Err(e) => answer(
                failure_with(SERVER_ERROR, "Failed to write file: ", e.message.as_str()),
            ),
        },
        EditStage::CheckBackup { path } => match outcome {
            Ok(_) => {
                let from = backup_path_of(path.as_str());
                EditStep::Run { stage: EditStage::Restore, op: FileOp::Rename { from, to: path } }
            },
            Err(_) => answer(
                failure(BAD_REQUEST, string_of(&chars_of("No backup file found to undo"))),
            ),
        },
        EditStage::Restore => match outcome {
            Ok(_) => answer(success(string_of(&chars_of("Edit undone successfully")))),
            Err(e) => answer(
                failure_with(SERVER_ERROR, "Failed to restore backup: ", e.message.as_str()),
            ),
        },
    }
}

} // verus!

verus! {

/// The files as a map from path to content.
pub type Files = Map<Seq<char>, Seq<char>>;

/// The files after a write or a rename; reads and existence checks change nothing.
pub open spec fn apply_op(fs: Files, op: FileOp) -> Files {
    match op {
        FileOp::Write { path, contents } => fs.insert(path@, contents@),
        FileOp::Rename { from, to } => if fs.contains_key(from@) {
            fs.remove(from@).insert(to@, fs[from@])
        } else {
            fs
        },
        _ => fs,
    }
}

/// A name that no command has is rejected with a 400, whatever the other fields hold.
pub proof fn unknown_commands_rejected(req: EditRequest, s: EditStep)
    requires
        command_of(req.command@) is None,
        edit_begins(req, s),
    ensures
        s matches EditStep::Done(rep) && rep.status == BAD_REQUEST,
{
}

/// A view range whose end lies before its start, or whose start lies past
/// the last line, is rejected; the range `[1, 2]` of a file with at least two
/// lines shows exactly its first two lines.
pub proof fn view_ranges(content: Seq<char>, r: Seq<i32>)
    requires
        r.len() == 2,
    ensures
        r[1] != -1 && r[1] < r[0] ==> view_result(content, Some(r)) is Err,
        r[0] > split_newlines(content).len() ==> view_result(content, Some(r)) is Err,
        r[0] == 1 && r[1] == 2 && split_newlines(content).len() >= 2 ==> view_result(
            content,
            Some(r),
        ) == Ok::<Seq<char>, Seq<char>>(
            join_lines(seq![split_newlines(content)[0], split_newlines(content)[1]]),
        ),
{
    if r[0] == 1 && r[1] == 2 && split_newlines(content).len() >= 2 {
        let ls = split_newlines(content);
        assert(ls.subrange(0, 2) == seq![ls[0], ls[1]]);
    }
}

/// After a replacement wrote the backup and then the new content, undoing
/// it puts back exactly the content the file had before.
pub proof fn replace_then_undo_restores(
    fs: Files,
    p: Seq<char>,
    old: Seq<char>,
    new: Seq<char>,
    backup: FileOp,
    write: FileOp,
    restore: FileOp,
)
    requires
        fs.contains_key(p),
        writes(backup, backup_path(p), fs[p]),
        writes(write, p, replace_all(fs[p], old, new)),
        renames(restore, backup_path(p), p),
    ensures
        apply_op(apply_op(apply_op(fs, backup), write), restore)[p] == fs[p],
{
    reveal_strlit(".bak");
    assert(backup_path(p).len() != p.len());
    let f1 = apply_op(fs, backup);
    let f2 = apply_op(f1, write);
    assert(f2.contains_key(backup_path(p)));
    assert(f2[backup_path(p)] == fs[p]);
}

} // verus!

verus! {

/// Inserting at line `k` of a file whose lines are plain puts `text` in as
/// a line of its own between the old lines `k` and `k + 1`; a `k` past the
/// last line, or below zero, has no place.
pub proof fn insert_places_line(content: Seq<char>, k: int, text: Seq<char>)
    requires
        forall|i: int|
            0 <= i < lines_of(content).len() ==> plain_line(#[trigger] lines_of(content)[i]),
        plain_line(text),
        k == lines_of(content).len() ==> text.len() > 0,
        0 <= k < lines_of(content).len() ==> lines_of(content).last().len() > 0,
    ensures
        0 <= k <= lines_of(content).len() ==> (insert_result(content, k, text) matches Some(u)
            && lines_of(u) == lines_of(content).insert(k, text)),
        (k < 0 || k > lines_of(content).len()) ==> insert_result(content, k, text) is None,
{
    let ls = lines_of(content);
    if 0 <= k <= ls.len() {
        let ins = ls.insert(k, text);
        assert forall|i: int| 0 <= i < ins.len() implies plain_line(#[trigger] ins[i]) by {
            if i < k {
                assert(ins[i] == ls[i]);
            } else if i > k {
                assert(ins[i] == ls[i - 1]);
            }
        }
        if k < ls.len() {
            assert(ins.last() == ls.last());
        }
        lemma_lines_of_join(ins);
    }
}

} // verus!

verus! {

/// An insert whose line has no place in the file is answered with a 400
/// before any file is written: the backup slot keeps what it held.
pub proof fn rejected_insert_writes_nothing(
    stage: EditStage,
    content: String,
    s: EditStep,
)
    requires
        stage matches EditStage::ReadForInsert { text, line, .. } && insert_result(
            content@,
            line as int,
            text@,
        ) is None,
        edit_continues(stage, Ok(content), s),
    ensures
        s matches EditStep::Done(rep) && rep.status == BAD_REQUEST,
{
}

} // verus!
