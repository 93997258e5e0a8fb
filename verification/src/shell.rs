//! The interpreter as a state machine.
//!
//! A host loop reads input and performs filesystem work, but decides nothing:
//! it hands each line (or the end of input) to [`on_input`], performs the
//! [`Action`] the returned [`Step`] requests, and feeds the outcome back
//! through [`Machine::step`] until the step asks for no further action.  The
//! exact transition taken at every point is pinned by [`spec_on_input`] and
//! [`spec_step`], so the printed text, the chosen actions and their order are
//! all part of the verified contract.

use vstd::prelude::*;
use crate::text::{tokens_of, joined, lines_of, tokenize, join_spaces, join_lines, str_eq,
    suffix_strings};
use crate::paths::{spec_join_path, spec_base_name, join_path, base_name};

verus! {

/// What a path currently is on the filesystem, as far as the interpreter
/// cares: absent, a directory, or anything else that exists.
pub enum PathKind {
    Missing,
    File,
    Dir,
}

/// One filesystem operation the host is asked to perform.
pub enum Action {
    /// Create a directory; the parent must already exist.
    CreateDir(String),
    /// Remove a single non-directory entry.
    RemoveFile(String),
    /// Remove a directory and all its contents.
    RemoveDirAll(String),
    /// Remove an empty directory.
    RemoveDir(String),
    /// Atomically rename the first path to the second.
    Rename(String, String),
    /// Copy the first file's bytes to the second path, creating or
    /// truncating it.
    CopyFile(String, String),
    /// Read a file fully as text.
    ReadFile(String),
    /// List a directory's immediate entry names, in enumeration order.
    ReadDir(String),
    /// Change the process working directory.
    SetCwd(String),
    /// Query the process working directory.
    GetCwd,
    /// Ask what kind of entry a path currently is.
    Stat(String),
}

/// The outcome of a performed [`Action`], as the host reports it.  Failure
/// variants carry the operating system's error text.
pub enum Event {
    Succeeded,
    Failed(String),
    /// Opening the source failed (reading or copying a file).
    OpenFailed(String),
    /// Creating the destination failed (copying a file).
    CreateFailed(String),
    /// The file opened but reading it failed.
    ReadFailed(String),
    /// The entry names a [`Action::ReadDir`] found.
    Entries(Vec<String>),
    /// The text a [`Action::ReadFile`] read.
    Content(String),
    /// The working directory a [`Action::GetCwd`] found.
    Cwd(String),
    /// The working directory could not be determined.
    CwdUnknown,
    /// What a [`Action::Stat`] found the path to be.
    Kind(PathKind),
}

/// What the host should do after a step.
pub enum Next {
    /// Perform this action and report its outcome to [`Machine::step`].
    Do(Action),
    /// The command is finished; prompt for the next line.
    Continue,
    /// Terminate the process with exit status 0.
    Exit,
}

/// One step of the machine: text to write before acting, then what to do.
pub struct Step {
    /// Text for standard output, written exactly as given.
    pub out: Option<String>,
    /// Text for standard error, written exactly as given.
    pub err: Option<String>,
    /// What the host does next.
    pub next: Next,
}

/// One line of input, or the reason none could be read.
pub enum InputEvent {
    Line(String),
    EndOfInput,
    ReadFailure(String),
}

/// Where the machine stands inside a command: which builtin is running,
/// which action's outcome it awaits, and what remains to do.
pub enum CmdState {
    /// No command is running.
    Idle,
    /// `cd`: awaiting the working-directory change.
    AwaitCd,
    /// `pwd`: awaiting the working-directory query.
    AwaitPwd,
    /// `ls`: awaiting the listing of `path`.
    AwaitLs { path: String },
    /// `mkdir`: awaiting creation of `paths[i]`.
    MkdirRun { paths: Vec<String>, i: usize },
    /// `cat`: awaiting the contents of `paths[i]`.
    CatRun { paths: Vec<String>, i: usize },
    /// `rm`: awaiting the kind of `paths[i]`.
    RmStat { paths: Vec<String>, i: usize },
    /// `rm`: awaiting removal of `paths[i]`.
    RmWait { paths: Vec<String>, i: usize },
    /// `cp`: awaiting the kind of the destination.
    CpStat { src: String, dst: String },
    /// `cp`: awaiting the copy to the resolved destination.
    CpWait { src: String, dst: String },
    /// `mv`: awaiting the kind of the destination.
    MvStat { src: String, dst: String },
    /// `mv`: awaiting the direct rename of source to destination.
    MvRename,
    /// `mv` into a directory: awaiting the source's entry names.
    MvRead { src: String, dst: String },
    /// `mv` merge: awaiting the kind of `dst/names[i]`.
    MvEntryStat { src: String, dst: String, names: Vec<String>, i: usize },
    /// `mv` merge: awaiting removal of the conflicting `dst/names[i]`.
    MvEntryRemove { src: String, dst: String, names: Vec<String>, i: usize },
    /// `mv` merge: awaiting the rename of `src/names[i]` to `dst/names[i]`.
    MvEntryRename { src: String, dst: String, names: Vec<String>, i: usize },
    /// `mv` merge: awaiting removal of the emptied source directory.
    MvCleanup { src: String },
}

/// The interpreter's state between steps.
pub struct Machine {
    pub st: CmdState,
}

/// Abstract counterpart of [`Action`], over character sequences.
pub enum ActionModel {
    CreateDir(Seq<char>),
    RemoveFile(Seq<char>),
    RemoveDirAll(Seq<char>),
    RemoveDir(Seq<char>),
    Rename(Seq<char>, Seq<char>),
    CopyFile(Seq<char>, Seq<char>),
    ReadFile(Seq<char>),
    ReadDir(Seq<char>),
    SetCwd(Seq<char>),
    GetCwd,
    Stat(Seq<char>),
}

/// Abstract counterpart of [`Event`].
pub enum EventModel {
    Succeeded,
    Failed(Seq<char>),
    OpenFailed(Seq<char>),
    CreateFailed(Seq<char>),
    ReadFailed(Seq<char>),
    Entries(Seq<Seq<char>>),
    Content(Seq<char>),
    Cwd(Seq<char>),
    CwdUnknown,
    Kind(PathKind),
}

/// Abstract counterpart of [`Next`].
pub enum NextModel {
    Do(ActionModel),
    Continue,
    Exit,
}

/// Abstract counterpart of [`Step`].
pub struct StepModel {
    pub out: Option<Seq<char>>,
    pub err: Option<Seq<char>>,
    pub next: NextModel,
}

/// Abstract counterpart of [`InputEvent`].
pub enum InputModel {
    Line(Seq<char>),
    EndOfInput,
    ReadFailure(Seq<char>),
}

/// Abstract counterpart of [`CmdState`].
pub enum StateModel {
    Idle,
    AwaitCd,
    AwaitPwd,
    AwaitLs { path: Seq<char> },
    MkdirRun { paths: Seq<Seq<char>>, i: int },
    CatRun { paths: Seq<Seq<char>>, i: int },
    RmStat { paths: Seq<Seq<char>>, i: int },
    RmWait { paths: Seq<Seq<char>>, i: int },
    CpStat { src: Seq<char>, dst: Seq<char> },
    CpWait { src: Seq<char>, dst: Seq<char> },
    MvStat { src: Seq<char>, dst: Seq<char> },
    MvRename,
    MvRead { src: Seq<char>, dst: Seq<char> },
    MvEntryStat { src: Seq<char>, dst: Seq<char>, names: Seq<Seq<char>>, i: int },
    MvEntryRemove { src: Seq<char>, dst: Seq<char>, names: Seq<Seq<char>>, i: int },
    MvEntryRename { src: Seq<char>, dst: Seq<char>, names: Seq<Seq<char>>, i: int },
    MvCleanup { src: Seq<char> },
}

impl View for Action {
    type V = ActionModel;

    open spec fn view(&self) -> ActionModel {
        match self {
            Action::CreateDir(p) => ActionModel::CreateDir(p@),
            Action::RemoveFile(p) => ActionModel::RemoveFile(p@),
            Action::RemoveDirAll(p) => ActionModel::RemoveDirAll(p@),
            Action::RemoveDir(p) => ActionModel::RemoveDir(p@),
            Action::Rename(a, b) => ActionModel::Rename(a@, b@),
            Action::CopyFile(a, b) => ActionModel::CopyFile(a@, b@),
            Action::ReadFile(p) => ActionModel::ReadFile(p@),
            Action::ReadDir(p) => ActionModel::ReadDir(p@),
            Action::SetCwd(p) => ActionModel::SetCwd(p@),
            Action::GetCwd => ActionModel::GetCwd,
            Action::Stat(p) => ActionModel::Stat(p@),
        }
    }
}

impl View for Event {
    type V = EventModel;

    open spec fn view(&self) -> EventModel {
        match self {
            Event::Succeeded => EventModel::Succeeded,
            Event::Failed(e) => EventModel::Failed(e@),
            Event::OpenFailed(e) => EventModel::OpenFailed(e@),
            Event::CreateFailed(e) => EventModel::CreateFailed(e@),
            Event::ReadFailed(e) => EventModel::ReadFailed(e@),
            Event::Entries(v) => EventModel::Entries(v.deep_view()),
            Event::Content(s) => EventModel::Content(s@),
            Event::Cwd(s) => EventModel::Cwd(s@),
            Event::CwdUnknown => EventModel::CwdUnknown,
            Event::Kind(k) => EventModel::Kind(*k),
        }
    }
}

impl View for Next {
    type V = NextModel;

    open spec fn view(&self) -> NextModel {
        match self {
            Next::Do(a) => NextModel::Do(a@),
            Next::Continue => NextModel::Continue,
            Next::Exit => NextModel::Exit,
        }
    }
}

impl View for Step {
    type V = StepModel;

    open spec fn view(&self) -> StepModel {
        StepModel {
            out: match &self.out {
                Option::Some(s) => Option::Some(s@),
                Option::None => Option::None,
            },
            err: match &self.err {
                Option::Some(s) => Option::Some(s@),
                Option::None => Option::None,
            },
            next: self.next@,
        }
    }
}

impl View for InputEvent {
    type V = InputModel;

    open spec fn view(&self) -> InputModel {
        match self {
            InputEvent::Line(l) => InputModel::Line(l@),
            InputEvent::EndOfInput => InputModel::EndOfInput,
            InputEvent::ReadFailure(e) => InputModel::ReadFailure(e@),
        }
    }
}

impl View for CmdState {
    type V = StateModel;

    open spec fn view(&self) -> StateModel {
        match self {
            CmdState::Idle => StateModel::Idle,
            CmdState::AwaitCd => StateModel::AwaitCd,
            CmdState::AwaitPwd => StateModel::AwaitPwd,
            CmdState::AwaitLs { path } => StateModel::AwaitLs { path: path@ },
            CmdState::MkdirRun { paths, i } => StateModel::MkdirRun {
                paths: paths.deep_view(),
                i: *i as int,
            },
            CmdState::CatRun { paths, i } => StateModel::CatRun {
                paths: paths.deep_view(),
                i: *i as int,
            },
            CmdState::RmStat { paths, i } => StateModel::RmStat {
                paths: paths.deep_view(),
                i: *i as int,
            },
            CmdState::RmWait { paths, i } => StateModel::RmWait {
                paths: paths.deep_view(),
                i: *i as int,
            },
            CmdState::CpStat { src, dst } => StateModel::CpStat { src: src@, dst: dst@ },
            CmdState::CpWait { src, dst } => StateModel::CpWait { src: src@, dst: dst@ },
            CmdState::MvStat { src, dst } => StateModel::MvStat { src: src@, dst: dst@ },
            CmdState::MvRename => StateModel::MvRename,
            CmdState::MvRead { src, dst } => StateModel::MvRead { src: src@, dst: dst@ },
            CmdState::MvEntryStat { src, dst, names, i } => StateModel::MvEntryStat {
                src: src@,
                dst: dst@,
                names: names.deep_view(),
                i: *i as int,
            },
            CmdState::MvEntryRemove { src, dst, names, i } => StateModel::MvEntryRemove {
                src: src@,
                dst: dst@,
                names: names.deep_view(),
                i: *i as int,
            },
            CmdState::MvEntryRename { src, dst, names, i } => StateModel::MvEntryRename {
                src: src@,
                dst: dst@,
                names: names.deep_view(),
                i: *i as int,
            },
            CmdState::MvCleanup { src } => StateModel::MvCleanup { src: src@ },
        }
    }
}

impl View for Machine {
    type V = StateModel;

    open spec fn view(&self) -> StateModel {
        self.st@
    }
}

// ---------------------------------------------------------------------------
// The exact text of every message the interpreter prints.
// ---------------------------------------------------------------------------

pub open spec fn msg_unknown(name: Seq<char>) -> Seq<char> {
    "Command '"@ + name + "' not found\n"@
}

pub open spec fn msg_read_error(e: Seq<char>) -> Seq<char> {
    "Error: "@ + e + "\n"@
}

pub open spec fn msg_cd_missing() -> Seq<char> {
    "cd: missing argument\n"@
}

pub open spec fn msg_cd_fail(e: Seq<char>) -> Seq<char> {
    "cd: "@ + e + "\n"@
}

pub open spec fn msg_pwd_fail() -> Seq<char> {
    "pwd: failed to get current directory\n"@
}

pub open spec fn msg_ls_fail(p: Seq<char>, e: Seq<char>) -> Seq<char> {
    "ls: cannot access '"@ + p + "': "@ + e + "\n"@
}

pub open spec fn msg_mkdir_missing() -> Seq<char> {
    "mkdir: missing operand\n"@
}

pub open spec fn msg_mkdir_fail(p: Seq<char>, e: Seq<char>) -> Seq<char> {
    "mkdir: cannot create directory '"@ + p + "': "@ + e + "\n"@
}

pub open spec fn msg_cat_missing() -> Seq<char> {
    "cat: missing operand\n"@
}

pub open spec fn msg_cat_open_fail(p: Seq<char>, e: Seq<char>) -> Seq<char> {
    "cat: "@ + p + ": "@ + e + "\n"@
}

pub open spec fn msg_cat_read_fail(p: Seq<char>, e: Seq<char>) -> Seq<char> {
    "cat: error reading "@ + p + ": "@ + e + "\n"@
}

pub open spec fn msg_rm_missing() -> Seq<char> {
    "rm: missing operand\n"@
}

pub open spec fn msg_rm_fail(p: Seq<char>, e: Seq<char>) -> Seq<char> {
    "rm: failed to remove '"@ + p + "': "@ + e + "\n"@
}

pub open spec fn msg_cp_usage() -> Seq<char> {
    "cp: missing operand\n"@
}

pub open spec fn msg_cp_bad_source() -> Seq<char> {
    "cp: invalid source path\n"@
}

pub open spec fn msg_cp_open_fail(p: Seq<char>, e: Seq<char>) -> Seq<char> {
    "cp: error opening source file '\""@ + p + "\"': "@ + e + "\n"@
}

pub open spec fn msg_cp_create_fail(p: Seq<char>, e: Seq<char>) -> Seq<char> {
    "cp: error creating destination file '\""@ + p + "\"': "@ + e + "\n"@
}

pub open spec fn msg_cp_copy_fail(s: Seq<char>, d: Seq<char>, e: Seq<char>) -> Seq<char> {
    "cp: error copying from \""@ + s + "\" to \""@ + d + "\": "@ + e + "\n"@
}

pub open spec fn msg_mv_usage() -> Seq<char> {
    "Usage: mv <source> <destination>\nmv error: Invalid number of arguments\n"@
}

pub open spec fn msg_mv_fail(e: Seq<char>) -> Seq<char> {
    "mv error: "@ + e + "\n"@
}

pub open spec fn msg_mv_exists() -> Seq<char> {
    "mv error: Destination exists\n"@
}

// ---------------------------------------------------------------------------
// The transition relation, as spec-level functions.
// ---------------------------------------------------------------------------

/// A step that writes nothing.
pub open spec fn quiet(next: NextModel) -> StepModel {
    StepModel { out: Option::None, err: Option::None, next }
}

/// A step that writes `m` to standard error.
pub open spec fn err_to(m: Seq<char>, next: NextModel) -> StepModel {
    StepModel { out: Option::None, err: Option::Some(m), next }
}

/// A step that writes `m` to standard output.
pub open spec fn out_to(m: Seq<char>, next: NextModel) -> StepModel {
    StepModel { out: Option::Some(m), err: Option::None, next }
}

/// The command a token list selects and the first step it takes.
pub open spec fn spec_dispatch(ts: Seq<Seq<char>>) -> (StateModel, StepModel) {
    if ts.len() == 0 {
        (StateModel::Idle, quiet(NextModel::Continue))
    } else {
        let name = ts[0];
        let args = ts.drop_first();
        if name == "cd"@ {
            if args.len() == 0 {
                (StateModel::Idle, err_to(msg_cd_missing(), NextModel::Continue))
            } else {
                (StateModel::AwaitCd, quiet(NextModel::Do(ActionModel::SetCwd(args[0]))))
            }
        } else if name == "echo"@ {
            (StateModel::Idle, out_to(joined(args) + "\n"@, NextModel::Continue))
        } else if name == "pwd"@ {
            (StateModel::AwaitPwd, quiet(NextModel::Do(ActionModel::GetCwd)))
        } else if name == "ls"@ {
            let p = if args.len() == 0 {
                "."@
            } else {
                args[0]
            };
            (StateModel::AwaitLs { path: p }, quiet(NextModel::Do(ActionModel::ReadDir(p))))
        } else if name == "mkdir"@ {
            if args.len() == 0 {
                (StateModel::Idle, err_to(msg_mkdir_missing(), NextModel::Continue))
            } else {
                (
                    StateModel::MkdirRun { paths: args, i: 0 },
                    quiet(NextModel::Do(ActionModel::CreateDir(args[0]))),
                )
            }
        } else if name == "cat"@ {
            if args.len() == 0 {
                (StateModel::Idle, err_to(msg_cat_missing(), NextModel::Continue))
            } else {
                (
                    StateModel::CatRun { paths: args, i: 0 },
                    quiet(NextModel::Do(ActionModel::ReadFile(args[0]))),
                )
            }
        } else if name == "rm"@ {
            if args.len() == 0 {
                (StateModel::Idle, err_to(msg_rm_missing(), NextModel::Continue))
            } else {
                (
                    StateModel::RmStat { paths: args, i: 0 },
                    quiet(NextModel::Do(ActionModel::Stat(args[0]))),
                )
            }
        } else if name == "cp"@ {
            if args.len() != 2 {
                (StateModel::Idle, err_to(msg_cp_usage(), NextModel::Continue))
            } else {
                (
                    StateModel::CpStat { src: args[0], dst: args[1] },
                    quiet(NextModel::Do(ActionModel::Stat(args[1]))),
                )
            }
        } else if name == "mv"@ {
            if args.len() != 2 {
                (StateModel::Idle, err_to(msg_mv_usage(), NextModel::Continue))
            } else {
                (
                    StateModel::MvStat { src: args[0], dst: args[1] },
                    quiet(NextModel::Do(ActionModel::Stat(args[1]))),
                )
            }
        } else if name == "exit"@ {
            (StateModel::Idle, quiet(NextModel::Exit))
        } else {
            (StateModel::Idle, err_to(msg_unknown(name), NextModel::Continue))
        }
    }
}

/// What one line of input starts: its tokens dispatched.
pub open spec fn spec_begin(line: Seq<char>) -> (StateModel, StepModel) {
    spec_dispatch(tokens_of(line))
}

/// What the machine does with one read attempt: end of input exits with
/// status 0, a read failure is reported and the loop goes on, and a line is
/// dispatched.
pub open spec fn spec_on_input(ev: InputModel) -> (StateModel, StepModel) {
    match ev {
        InputModel::EndOfInput => (StateModel::Idle, quiet(NextModel::Exit)),
        InputModel::ReadFailure(e) => (
            StateModel::Idle,
            err_to(msg_read_error(e), NextModel::Continue),
        ),
        InputModel::Line(l) => spec_begin(l),
    }
}

/// The transition the machine takes when the awaited action's outcome `ev`
/// arrives in state `st`.  An outcome that does not answer the pending
/// action quietly ends the command.
pub open spec fn spec_step(st: StateModel, ev: EventModel) -> (StateModel, StepModel) {
    match st {
        StateModel::Idle => (StateModel::Idle, quiet(NextModel::Continue)),
        StateModel::AwaitCd => (
            StateModel::Idle,
            match ev {
                EventModel::Failed(e) => err_to(msg_cd_fail(e), NextModel::Continue),
                _ => quiet(NextModel::Continue),
            },
        ),
        StateModel::AwaitPwd => (
            StateModel::Idle,
            match ev {
                EventModel::Cwd(p) => out_to(p + "\n"@, NextModel::Continue),
                EventModel::CwdUnknown => err_to(msg_pwd_fail(), NextModel::Continue),
                _ => quiet(NextModel::Continue),
            },
        ),
        StateModel::AwaitLs { path } => (
            StateModel::Idle,
            match ev {
                EventModel::Entries(names) => out_to(lines_of(names), NextModel::Continue),
                EventModel::Failed(e) => err_to(msg_ls_fail(path, e), NextModel::Continue),
                _ => quiet(NextModel::Continue),
            },
        ),
        StateModel::MkdirRun { paths, i } => if 0 <= i < paths.len() {
            let m = match ev {
                EventModel::Failed(e) => Option::Some(msg_mkdir_fail(paths[i], e)),
                _ => Option::None,
            };
            if i + 1 < paths.len() {
                (
                    StateModel::MkdirRun { paths, i: i + 1 },
                    StepModel {
                        out: Option::None,
                        err: m,
                        next: NextModel::Do(ActionModel::CreateDir(paths[i + 1])),
                    },
                )
            } else {
                (StateModel::Idle, StepModel { out: Option::None, err: m, next: NextModel::Continue })
            }
        } else {
            (StateModel::Idle, quiet(NextModel::Continue))
        },
        StateModel::CatRun { paths, i } => if 0 <= i < paths.len() {
            let (o, m) = match ev {
                EventModel::Content(s) => (Option::Some(s), Option::None),
                EventModel::OpenFailed(e) => (
                    Option::None,
                    Option::Some(msg_cat_open_fail(paths[i], e)),
                ),
                EventModel::ReadFailed(e) => (
                    Option::None,
                    Option::Some(msg_cat_read_fail(paths[i], e)),
                ),
                _ => (Option::None, Option::None),
            };
            if i + 1 < paths.len() {
                (
                    StateModel::CatRun { paths, i: i + 1 },
                    StepModel {
                        out: o,
                        err: m,
                        next: NextModel::Do(ActionModel::ReadFile(paths[i + 1])),
                    },
                )
            } else {
                (StateModel::Idle, StepModel { out: o, err: m, next: NextModel::Continue })
            }
        } else {
            (StateModel::Idle, quiet(NextModel::Continue))
        },
        StateModel::RmStat { paths, i } => if 0 <= i < paths.len() {
            match ev {
                EventModel::Kind(PathKind::Dir) => (
                    StateModel::RmWait { paths, i },
                    quiet(NextModel::Do(ActionModel::RemoveDirAll(paths[i]))),
                ),
                _ => (
                    StateModel::RmWait { paths, i },
                    quiet(NextModel::Do(ActionModel::RemoveFile(paths[i]))),
                ),
            }
        } else {
            (StateModel::Idle, quiet(NextModel::Continue))
        },
        StateModel::RmWait { paths, i } => if 0 <= i < paths.len() {
            let m = match ev {
                EventModel::Failed(e) => Option::Some(msg_rm_fail(paths[i], e)),
                _ => Option::None,
            };
            if i + 1 < paths.len() {
                (
                    StateModel::RmStat { paths, i: i + 1 },
                    StepModel {
                        out: Option::None,
                        err: m,
                        next: NextModel::Do(ActionModel::Stat(paths[i + 1])),
                    },
                )
            } else {
                (StateModel::Idle, StepModel { out: Option::None, err: m, next: NextModel::Continue })
            }
        } else {
            (StateModel::Idle, quiet(NextModel::Continue))
        },
        StateModel::CpStat { src, dst } => match ev {
            EventModel::Kind(PathKind::Dir) => match spec_base_name(src) {
                Option::None => (StateModel::Idle, err_to(msg_cp_bad_source(), NextModel::Continue)),
                Option::Some(n) => {
                    let d = spec_join_path(dst, n);
                    (
                        StateModel::CpWait { src, dst: d },
                        quiet(NextModel::Do(ActionModel::CopyFile(src, d))),
                    )
                },
            },
            _ => (
                StateModel::CpWait { src, dst },
                quiet(NextModel::Do(ActionModel::CopyFile(src, dst))),
            ),
        },
        StateModel::CpWait { src, dst } => (
            StateModel::Idle,
            match ev {
                EventModel::OpenFailed(e) => err_to(msg_cp_open_fail(src, e), NextModel::Continue),
                EventModel::CreateFailed(e) => err_to(
                    msg_cp_create_fail(dst, e),
                    NextModel::Continue,
                ),
                EventModel::Failed(e) => err_to(msg_cp_copy_fail(src, dst, e), NextModel::Continue),
                _ => quiet(NextModel::Continue),
            },
        ),
        StateModel::MvStat { src, dst } => match ev {
            EventModel::Kind(PathKind::Dir) => (
                StateModel::MvRead { src, dst },
                quiet(NextModel::Do(ActionModel::ReadDir(src))),
            ),
            EventModel::Kind(PathKind::File) => (
                StateModel::Idle,
                err_to(msg_mv_exists(), NextModel::Continue),
            ),
            EventModel::Kind(PathKind::Missing) => (
                StateModel::MvRename,
                quiet(NextModel::Do(ActionModel::Rename(src, dst))),
            ),
            _ => (StateModel::Idle, quiet(NextModel::Continue)),
        },
        StateModel::MvRename => (
            StateModel::Idle,
            match ev {
                EventModel::Failed(e) => err_to(msg_mv_fail(e), NextModel::Continue),
                _ => quiet(NextModel::Continue),
            },
        ),
        StateModel::MvRead { src, dst } => match ev {
            EventModel::Entries(names) => if names.len() == 0 {
                (
                    StateModel::MvCleanup { src },
                    quiet(NextModel::Do(ActionModel::RemoveDir(src))),
                )
            } else {
                (
                    StateModel::MvEntryStat { src, dst, names, i: 0 },
                    quiet(NextModel::Do(ActionModel::Stat(spec_join_path(dst, names[0])))),
                )
            },
            EventModel::Failed(e) => (StateModel::Idle, err_to(msg_mv_fail(e), NextModel::Continue)),
            _ => (StateModel::Idle, quiet(NextModel::Continue)),
        },
        StateModel::MvEntryStat { src, dst, names, i } => if 0 <= i < names.len() {
            let d = spec_join_path(dst, names[i]);
            match ev {
                EventModel::Kind(PathKind::Dir) => (
                    StateModel::MvEntryRemove { src, dst, names, i },
                    quiet(NextModel::Do(ActionModel::RemoveDirAll(d))),
                ),
                EventModel::Kind(PathKind::File) => (
                    StateModel::MvEntryRemove { src, dst, names, i },
                    quiet(NextModel::Do(ActionModel::RemoveFile(d))),
                ),
                EventModel::Kind(PathKind::Missing) => (
                    StateModel::MvEntryRename { src, dst, names, i },
                    quiet(NextModel::Do(ActionModel::Rename(spec_join_path(src, names[i]), d))),
                ),
                _ => (StateModel::Idle, quiet(NextModel::Continue)),
            }
        } else {
            (StateModel::Idle, quiet(NextModel::Continue))
        },
        StateModel::MvEntryRemove { src, dst, names, i } => if 0 <= i < names.len() {
            match ev {
                EventModel::Succeeded => (
                    StateModel::MvEntryRename { src, dst, names, i },
                    quiet(NextModel::Do(ActionModel::Rename(
                        spec_join_path(src, names[i]),
                        spec_join_path(dst, names[i]),
                    ))),
                ),
                EventModel::Failed(e) => (
                    StateModel::Idle,
                    err_to(msg_mv_fail(e), NextModel::Continue),
                ),
                _ => (StateModel::Idle, quiet(NextModel::Continue)),
            }
        } else {
            (StateModel::Idle, quiet(NextModel::Continue))
        },
        StateModel::MvEntryRename { src, dst, names, i } => if 0 <= i < names.len() {
            match ev {
                EventModel::Succeeded => if i + 1 < names.len() {
                    (
                        StateModel::MvEntryStat { src, dst, names, i: i + 1 },
                        quiet(NextModel::Do(ActionModel::Stat(spec_join_path(dst, names[i + 1])))),
                    )
                } else {
                    (
                        StateModel::MvCleanup { src },
                        quiet(NextModel::Do(ActionModel::RemoveDir(src))),
                    )
                },
                EventModel::Failed(e) => (
                    StateModel::Idle,
                    err_to(msg_mv_fail(e), NextModel::Continue),
                ),
                _ => (StateModel::Idle, quiet(NextModel::Continue)),
            }
        } else {
            (StateModel::Idle, quiet(NextModel::Continue))
        },
        StateModel::MvCleanup { src } => (
            StateModel::Idle,
            match ev {
                EventModel::Failed(e) => err_to(msg_mv_fail(e), NextModel::Continue),
                _ => quiet(NextModel::Continue),
            },
        ),
    }
}

// ---------------------------------------------------------------------------
// Executable machine.
// ---------------------------------------------------------------------------

/// `pre + a + post`, owned.
fn glue3(pre: &str, a: &str, post: &str) -> (r: String)
    ensures
        r@ == pre@ + a@ + post@,
{
    let mut r = pre.to_owned();
    r.append(a);
    r.append(post);
    r
}

/// `pre + a + mid + b + post`, owned.
fn glue5(pre: &str, a: &str, mid: &str, b: &str, post: &str) -> (r: String)
    ensures
        r@ == pre@ + a@ + mid@ + b@ + post@,
{
    let mut r = pre.to_owned();
    r.append(a);
    r.append(mid);
    r.append(b);
    r.append(post);
    r
}

/// `p1 + a + p2 + b + p3 + c + p4`, owned.
fn glue7(p1: &str, a: &str, p2: &str, b: &str, p3: &str, c: &str, p4: &str) -> (r: String)
    ensures
        r@ == p1@ + a@ + p2@ + b@ + p3@ + c@ + p4@,
{
    let mut r = p1.to_owned();
    r.append(a);
    r.append(p2);
    r.append(b);
    r.append(p3);
    r.append(c);
    r.append(p4);
    r
}

/// A [`Step`] that writes nothing.
fn step_quiet(next: Next) -> (s: Step)
    ensures
        s@ == quiet(next@),
{
    Step { out: None, err: None, next }
}

/// A [`Step`] that writes `m` to standard error.
fn step_err(m: String, next: Next) -> (s: Step)
    ensures
        s@ == err_to(m@, next@),
{
    Step { out: None, err: Some(m), next }
}

/// A [`Step`] that writes `m` to standard output.
fn step_out(m: String, next: Next) -> (s: Step)
    ensures
        s@ == out_to(m@, next@),
{
    Step { out: Some(m), err: None, next }
}

/// An idle machine.
fn idle() -> (m: Machine)
    ensures
        m@ == StateModel::Idle,
{
    Machine { st: CmdState::Idle }
}

/// Tokenizes `line`, selects the builtin, and takes the command's first
/// step, exactly as [`spec_begin`] describes.
pub fn begin(line: &str) -> (r: (Machine, Step))
    ensures
        (r.0@, r.1@) == spec_begin(line@),
{
    let ts = tokenize(line);
    proof {
        assert(forall|k: int| 0 <= k < ts@.len() ==> ts.deep_view()[k] == ts@[k]@);
    }
    if ts.len() == 0 {
        return (idle(), step_quiet(Next::Continue));
    }
    let ghost args = tokens_of(line@).drop_first();
    proof {
        assert(args =~= ts.deep_view().skip(1));
    }
    let name = ts[0].as_str();
    if str_eq(name, "cd") {
        if ts.len() == 1 {
            (idle(), step_err("cd: missing argument\n".to_owned(), Next::Continue))
        } else {
            (
                Machine { st: CmdState::AwaitCd },
                step_quiet(Next::Do(Action::SetCwd(ts[1].clone()))),
            )
        }
    } else if str_eq(name, "echo") {
        let rest = suffix_strings(&ts, 1);
        let mut m = join_spaces(&rest);
        m.append("\n");
        (idle(), step_out(m, Next::Continue))
    } else if str_eq(name, "pwd") {
        (Machine { st: CmdState::AwaitPwd }, step_quiet(Next::Do(Action::GetCwd)))
    } else if str_eq(name, "ls") {
        let p = if ts.len() == 1 {
            ".".to_owned()
        } else {
            ts[1].clone()
        };
        (
            Machine { st: CmdState::AwaitLs { path: p.clone() } },
            step_quiet(Next::Do(Action::ReadDir(p))),
        )
    } else if str_eq(name, "mkdir") {
        if ts.len() == 1 {
            (idle(), step_err("mkdir: missing operand\n".to_owned(), Next::Continue))
        } else {
            let paths = suffix_strings(&ts, 1);
            let first = paths[0].clone();
            (
                Machine { st: CmdState::MkdirRun { paths, i: 0 } },
                step_quiet(Next::Do(Action::CreateDir(first))),
            )
        }
    } else if str_eq(name, "cat") {
        if ts.len() == 1 {
            (idle(), step_err("cat: missing operand\n".to_owned(), Next::Continue))
        } else {
            let paths = suffix_strings(&ts, 1);
            let first = paths[0].clone();
            (
                Machine { st: CmdState::CatRun { paths, i: 0 } },
                step_quiet(Next::Do(Action::ReadFile(first))),
            )
        }
    } else if str_eq(name, "rm") {
        if ts.len() == 1 {
            (idle(), step_err("rm: missing operand\n".to_owned(), Next::Continue))
        } else {
            let paths = suffix_strings(&ts, 1);
            let first = paths[0].clone();
            (
                Machine { st: CmdState::RmStat { paths, i: 0 } },
                step_quiet(Next::Do(Action::Stat(first))),
            )
        }
    } else if str_eq(name, "cp") {
        if ts.len() != 3 {
            (idle(), step_err("cp: missing operand\n".to_owned(), Next::Continue))
        } else {
            let src = ts[1].clone();
            let dst = ts[2].clone();
            (
                Machine { st: CmdState::CpStat { src, dst: dst.clone() } },
                step_quiet(Next::Do(Action::Stat(dst))),
            )
        }
    } else if str_eq(name, "mv") {
        if ts.len() != 3 {
            (
                idle(),
                step_err(
                    "Usage: mv <source> <destination>\nmv error: Invalid number of arguments\n".to_owned(),
                    Next::Continue,
                ),
            )
        } else {
            let src = ts[1].clone();
            let dst = ts[2].clone();
            (
                Machine { st: CmdState::MvStat { src, dst: dst.clone() } },
                step_quiet(Next::Do(Action::Stat(dst))),
            )
        }
    } else if str_eq(name, "exit") {
        (idle(), step_quiet(Next::Exit))
    } else {
        (idle(), step_err(glue3("Command '", name, "' not found\n"), Next::Continue))
    }
}

/// Handles one read attempt, exactly as [`spec_on_input`] describes.
pub fn on_input(ev: InputEvent) -> (r: (Machine, Step))
    ensures
        (r.0@, r.1@) == spec_on_input(ev@),
{
    match ev {
        InputEvent::EndOfInput => (idle(), step_quiet(Next::Exit)),
        InputEvent::ReadFailure(e) => (
            idle(),
            step_err(glue3("Error: ", e.as_str(), "\n"), Next::Continue),
        ),
        InputEvent::Line(l) => begin(l.as_str()),
    }
}

impl Machine {
    /// Consumes the awaited outcome and takes the next transition, exactly
    /// as [`spec_step`] describes.
    pub fn step(self, ev: Event) -> (r: (Machine, Step))
        ensures
            (r.0@, r.1@) == spec_step(self@, ev@),
    {
        match self.st {
            CmdState::Idle => (idle(), step_quiet(Next::Continue)),
            CmdState::AwaitCd => (
                idle(),
                match ev {
                    Event::Failed(e) => step_err(glue3("cd: ", e.as_str(), "\n"), Next::Continue),
                    _ => step_quiet(Next::Continue),
                },
            ),
            CmdState::AwaitPwd => (
                idle(),
                match ev {
                    Event::Cwd(p) => {
                        let mut m = p;
                        m.append("\n");
                        step_out(m, Next::Continue)
                    },
                    Event::CwdUnknown => step_err(
                        "pwd: failed to get current directory\n".to_owned(),
                        Next::Continue,
                    ),
                    _ => step_quiet(Next::Continue),
                },
            ),
            CmdState::AwaitLs { path } => (
                idle(),
                match ev {
                    Event::Entries(names) => step_out(join_lines(&names), Next::Continue),
                    Event::Failed(e) => step_err(
                        glue5("ls: cannot access '", path.as_str(), "': ", e.as_str(), "\n"),
                        Next::Continue,
                    ),
                    _ => step_quiet(Next::Continue),
                },
            ),
            CmdState::MkdirRun { paths, i } => {
                if i < paths.len() {
                    let m: Option<String> = match &ev {
                        Event::Failed(e) => Some(
                            glue5(
                                "mkdir: cannot create directory '",
                                paths[i].as_str(),
                                "': ",
                                e.as_str(),
                                "\n",
                            ),
                        ),
                        _ => None,
                    };
                    if i + 1 < paths.len() {
                        let nxt = paths[i + 1].clone();
                        (
                            Machine { st: CmdState::MkdirRun { paths, i: i + 1 } },
                            Step { out: None, err: m, next: Next::Do(Action::CreateDir(nxt)) },
                        )
                    } else {
                        (idle(), Step { out: None, err: m, next: Next::Continue })
                    }
                } else {
                    (idle(), step_quiet(Next::Continue))
                }
            },
            CmdState::CatRun { paths, i } => {
                if i < paths.len() {
                    let (o, m): (Option<String>, Option<String>) = match ev {
                        Event::Content(s) => (Some(s), None),
                        Event::OpenFailed(e) => (
                            None,
                            Some(glue5("cat: ", paths[i].as_str(), ": ", e.as_str(), "\n")),
                        ),
                        Event::ReadFailed(e) => (
                            None,
                            Some(
                                glue5(
                                    "cat: error reading ",
                                    paths[i].as_str(),
                                    ": ",
                                    e.as_str(),
                                    "\n",
                                ),
                            ),
                        ),
                        _ => (None, None),
                    };
                    if i + 1 < paths.len() {
                        let nxt = paths[i + 1].clone();
                        (
                            Machine { st: CmdState::CatRun { paths, i: i + 1 } },
                            Step { out: o, err: m, next: Next::Do(Action::ReadFile(nxt)) },
                        )
                    } else {
                        (idle(), Step { out: o, err: m, next: Next::Continue })
                    }
                } else {
                    (idle(), step_quiet(Next::Continue))
                }
            },
            CmdState::RmStat { paths, i } => {
                if i < paths.len() {
                    let p = paths[i].clone();
                    match ev {
                        Event::Kind(PathKind::Dir) => (
                            Machine { st: CmdState::RmWait { paths, i } },
                            step_quiet(Next::Do(Action::RemoveDirAll(p))),
                        ),
                        _ => (
                            Machine { st: CmdState::RmWait { paths, i } },
                            step_quiet(Next::Do(Action::RemoveFile(p))),
                        ),
                    }
                } else {
                    (idle(), step_quiet(Next::Continue))
                }
            },
            CmdState::RmWait { paths, i } => {
                if i < paths.len() {
                    let m: Option<String> = match &ev {
                        Event::Failed(e) => Some(
                            glue5(
                                "rm: failed to remove '",
                                paths[i].as_str(),
                                "': ",
                                e.as_str(),
                                "\n",
                            ),
                        ),
                        _ => None,
                    };
                    if i + 1 < paths.len() {
                        let nxt = paths[i + 1].clone();
                        (
                            Machine { st: CmdState::RmStat { paths, i: i + 1 } },
                            Step { out: None, err: m, next: Next::Do(Action::Stat(nxt)) },
                        )
                    } else {
                        (idle(), Step { out: None, err: m, next: Next::Continue })
                    }
                } else {
                    (idle(), step_quiet(Next::Continue))
                }
            },
            CmdState::CpStat { src, dst } => match ev {
                Event::Kind(PathKind::Dir) => match base_name(src.as_str()) {
                    None => (
                        idle(),
                        step_err("cp: invalid source path\n".to_owned(), Next::Continue),
                    ),
                    Some(n) => {
                        let d = join_path(dst.as_str(), n.as_str());
                        (
                            Machine { st: CmdState::CpWait { src: src.clone(), dst: d.clone() } },
                            step_quiet(Next::Do(Action::CopyFile(src, d))),
                        )
                    },
                },
                _ => (
                    Machine { st: CmdState::CpWait { src: src.clone(), dst: dst.clone() } },
                    step_quiet(Next::Do(Action::CopyFile(src, dst))),
                ),
            },
            CmdState::CpWait { src, dst } => (
                idle(),
                match ev {
                    Event::OpenFailed(e) => step_err(
                        glue5(
                            "cp: error opening source file '\"",
                            src.as_str(),
                            "\"': ",
                            e.as_str(),
                            "\n",
                        ),
                        Next::Continue,
                    ),
                    Event::CreateFailed(e) => step_err(
                        glue5(
                            "cp: error creating destination file '\"",
                            dst.as_str(),
                            "\"': ",
                            e.as_str(),
                            "\n",
                        ),
                        Next::Continue,
                    ),
                    Event::Failed(e) => step_err(
                        glue7(
                            "cp: error copying from \"",
                            src.as_str(),
                            "\" to \"",
                            dst.as_str(),
                            "\": ",
                            e.as_str(),
                            "\n",
                        ),
                        Next::Continue,
                    ),
                    _ => step_quiet(Next::Continue),
                },
            ),
            CmdState::MvStat { src, dst } => match ev {
                Event::Kind(PathKind::Dir) => (
                    Machine { st: CmdState::MvRead { src: src.clone(), dst } },
                    step_quiet(Next::Do(Action::ReadDir(src))),
                ),
                Event::Kind(PathKind::File) => (
                    idle(),
                    step_err("mv error: Destination exists\n".to_owned(), Next::Continue),
                ),
                Event::Kind(PathKind::Missing) => (
                    Machine { st: CmdState::MvRename },
                    step_quiet(Next::Do(Action::Rename(src, dst))),
                ),
                _ => (idle(), step_quiet(Next::Continue)),
            },
            CmdState::MvRename => (
                idle(),
                match ev {
                    Event::Failed(e) => step_err(
                        glue3("mv error: ", e.as_str(), "\n"),
                        Next::Continue,
                    ),
                    _ => step_quiet(Next::Continue),
                },
            ),
            CmdState::MvRead { src, dst } => match ev {
                Event::Entries(names) => {
                    if names.len() == 0 {
                        (
                            Machine { st: CmdState::MvCleanup { src: src.clone() } },
                            step_quiet(Next::Do(Action::RemoveDir(src))),
                        )
                    } else {
                        let d0 = join_path(dst.as_str(), names[0].as_str());
                        (
                            Machine { st: CmdState::MvEntryStat { src, dst, names, i: 0 } },
                            step_quiet(Next::Do(Action::Stat(d0))),
                        )
                    }
                },
                Event::Failed(e) => (
                    idle(),
                    step_err(glue3("mv error: ", e.as_str(), "\n"), Next::Continue),
                ),
                _ => (idle(), step_quiet(Next::Continue)),
            },
            CmdState::MvEntryStat { src, dst, names, i } => {
                if i < names.len() {
                    let d = join_path(dst.as_str(), names[i].as_str());
                    match ev {
                        Event::Kind(PathKind::Dir) => (
                            Machine { st: CmdState::MvEntryRemove { src, dst, names, i } },
                            step_quiet(Next::Do(Action::RemoveDirAll(d))),
                        ),
                        Event::Kind(PathKind::File) => (
                            Machine { st: CmdState::MvEntryRemove { src, dst, names, i } },
                            step_quiet(Next::Do(Action::RemoveFile(d))),
                        ),
                        Event::Kind(PathKind::Missing) => {
                            let sp = join_path(src.as_str(), names[i].as_str());
                            (
                                Machine { st: CmdState::MvEntryRename { src, dst, names, i } },
                                step_quiet(Next::Do(Action::Rename(sp, d))),
                            )
                        },
                        _ => (idle(), step_quiet(Next::Continue)),
                    }
                } else {
                    (idle(), step_quiet(Next::Continue))
                }
            },
            CmdState::MvEntryRemove { src, dst, names, i } => {
                if i < names.len() {
                    match ev {
                        Event::Succeeded => {
                            let sp = join_path(src.as_str(), names[i].as_str());
                            let dp = join_path(dst.as_str(), names[i].as_str());
                            (
                                Machine { st: CmdState::MvEntryRename { src, dst, names, i } },
                                step_quiet(Next::Do(Action::Rename(sp, dp))),
                            )
                        },
                        Event::Failed(e) => (
                            idle(),
                            step_err(glue3("mv error: ", e.as_str(), "\n"), Next::Continue),
                        ),
                        _ => (idle(), step_quiet(Next::Continue)),
                    }
                } else {
                    (idle(), step_quiet(Next::Continue))
                }
            },
            CmdState::MvEntryRename { src, dst, names, i } => {
                if i < names.len() {
                    match ev {
                        Event::Succeeded => {
                            if i + 1 < names.len() {
                                let dn = join_path(dst.as_str(), names[i + 1].as_str());
                                (
                                    Machine {
                                        st: CmdState::MvEntryStat { src, dst, names, i: i + 1 },
                                    },
                                    step_quiet(Next::Do(Action::Stat(dn))),
                                )
                            } else {
                                (
                                    Machine { st: CmdState::MvCleanup { src: src.clone() } },
                                    step_quiet(Next::Do(Action::RemoveDir(src))),
                                )
                            }
                        },
                        Event::Failed(e) => (
                            idle(),
                            step_err(glue3("mv error: ", e.as_str(), "\n"), Next::Continue),
                        ),
                        _ => (idle(), step_quiet(Next::Continue)),
                    }
                } else {
                    (idle(), step_quiet(Next::Continue))
                }
            },
            CmdState::MvCleanup { src } => (
                idle(),
                match ev {
                    Event::Failed(e) => step_err(
                        glue3("mv error: ", e.as_str(), "\n"),
                        Next::Continue,
                    ),
                    _ => step_quiet(Next::Continue),
                },
            ),
        }
    }
}

} // verus!
