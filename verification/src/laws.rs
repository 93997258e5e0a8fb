//! The interpreter's guarantees, stated and proved over the transition
//! relation of [`crate::shell`].
//!
//! Each law speaks of every input of its shape.  Where a guarantee is about
//! what the host's filesystem ends up holding, the law pins the exact actions
//! the machine requests and their order; the host performs actions verbatim
//! and decides nothing, so these are the interpreter's whole contribution.

use vstd::prelude::*;
use crate::text::{tokens_of, joined, is_shell_ws};
use crate::paths::{spec_join_path, spec_base_name};
use crate::shell::{spec_begin, spec_step, spec_on_input, spec_dispatch, quiet, err_to, out_to,
    msg_unknown, msg_mkdir_fail, msg_rm_fail, msg_cd_fail, msg_mv_exists, StateModel, NextModel,
    ActionModel, EventModel, InputModel, PathKind};

verus! {

/// The command names the interpreter knows.
pub open spec fn is_builtin_name(n: Seq<char>) -> bool {
    n == "cd"@ || n == "echo"@ || n == "pwd"@ || n == "ls"@ || n == "mkdir"@ || n == "cat"@
        || n == "rm"@ || n == "cp"@ || n == "mv"@ || n == "exit"@
}

/// An unknown command name `X` prints `Command 'X' not found` on standard
/// error and the loop stays alive: the step asks for no action and continues,
/// leaving the machine idle for the next line.
pub proof fn law_unknown_command(line: Seq<char>)
    requires
        tokens_of(line).len() > 0,
        !is_builtin_name(tokens_of(line)[0]),
    ensures
        spec_begin(line) == (
            StateModel::Idle,
            err_to(msg_unknown(tokens_of(line)[0]), NextModel::Continue),
        ),
{
}

/// `echo` prints its arguments joined by single spaces, followed by one
/// newline, on standard output; with no arguments it prints the newline
/// alone.  It touches the filesystem in no way and never fails.
pub proof fn law_echo(line: Seq<char>)
    requires
        tokens_of(line).len() > 0,
        tokens_of(line)[0] == "echo"@,
    ensures
        spec_begin(line) == (
            StateModel::Idle,
            out_to(joined(tokens_of(line).drop_first()) + "\n"@, NextModel::Continue),
        ),
        tokens_of(line).len() == 1 ==> spec_begin(line).1.out == Option::Some("\n"@),
{
    reveal_strlit("cd");
    reveal_strlit("echo");
    assert("cd"@.len() == 2);
    assert("echo"@.len() == 4);
    if tokens_of(line).len() == 1 {
        assert(tokens_of(line).drop_first().len() == 0);
        assert(joined(tokens_of(line).drop_first()) + "\n"@ =~= "\n"@);
    }
}

/// Every `mkdir` operand is attempted: whatever the outcome for operand `i`
/// (success, or a failure, which is reported for that operand alone), the
/// machine goes on to create operand `i + 1`, and finishes only after the
/// last one.
pub proof fn law_mkdir_independent(paths: Seq<Seq<char>>, i: int, ev: EventModel)
    requires
        0 <= i < paths.len(),
    ensures
        ({
            let (st, s) = spec_step(StateModel::MkdirRun { paths, i }, ev);
            &&& s.out is None
            &&& (match ev {
                EventModel::Failed(e) => s.err == Option::Some(msg_mkdir_fail(paths[i], e)),
                _ => s.err is None,
            })
            &&& (i + 1 < paths.len() ==> st == (StateModel::MkdirRun { paths, i: i + 1 })
                && s.next == NextModel::Do(ActionModel::CreateDir(paths[i + 1])))
            &&& (i + 1 >= paths.len() ==> st == StateModel::Idle && s.next == NextModel::Continue)
        }),
{
}

/// `cp` whose destination is an existing directory copies the source to
/// `destination/<base name of source>`: one copy action, to exactly that
/// path, creating or truncating it.
pub proof fn law_cp_into_dir(src: Seq<char>, dst: Seq<char>, n: Seq<char>)
    requires
        spec_base_name(src) == Option::Some(n),
    ensures
        spec_step(StateModel::CpStat { src, dst }, EventModel::Kind(PathKind::Dir)) == (
            (StateModel::CpWait { src, dst: spec_join_path(dst, n) }),
            quiet(NextModel::Do(ActionModel::CopyFile(src, spec_join_path(dst, n)))),
        ),
{
}

/// `cp` whose destination is not an existing directory copies straight to
/// the destination path, whether or not it exists: the single copy action
/// creates or truncates that path, so a pre-existing file is fully
/// overwritten, never appended to.
pub proof fn law_cp_direct(src: Seq<char>, dst: Seq<char>, k: PathKind)
    requires
        k != PathKind::Dir,
    ensures
        spec_step(StateModel::CpStat { src, dst }, EventModel::Kind(k)) == (
            (StateModel::CpWait { src, dst }),
            quiet(NextModel::Do(ActionModel::CopyFile(src, dst))),
        ),
{
}

/// `mv` onto an existing plain file fails with the "already exists" error
/// and requests no filesystem action at all, so both source and destination
/// are left untouched.
pub proof fn law_mv_onto_file(src: Seq<char>, dst: Seq<char>)
    ensures
        spec_step(StateModel::MvStat { src, dst }, EventModel::Kind(PathKind::File)) == (
            StateModel::Idle,
            err_to(msg_mv_exists(), NextModel::Continue),
        ),
{
}

/// In a directory merge, an entry whose name already exists at the
/// destination as a plain file clobbers it: the machine first removes
/// `dst/name`, then renames `src/name` onto that exact path, so after both
/// actions the destination holds what the source entry held.
pub proof fn law_mv_merge_overwrites(src: Seq<char>, dst: Seq<char>, names: Seq<Seq<char>>, i: int)
    requires
        0 <= i < names.len(),
    ensures
        spec_step(
            StateModel::MvEntryStat { src, dst, names, i },
            EventModel::Kind(PathKind::File),
        ) == (
            (StateModel::MvEntryRemove { src, dst, names, i }),
            quiet(NextModel::Do(ActionModel::RemoveFile(spec_join_path(dst, names[i])))),
        ),
        spec_step(StateModel::MvEntryRemove { src, dst, names, i }, EventModel::Succeeded) == (
            (StateModel::MvEntryRename { src, dst, names, i }),
            quiet(NextModel::Do(ActionModel::Rename(
                spec_join_path(src, names[i]),
                spec_join_path(dst, names[i]),
            ))),
        ),
{
}

/// `mv` into an existing directory merges entry by entry: it enumerates the
/// source directory, and then either removes the emptied source at once (no
/// entries) or starts with the first entry's conflict check at the
/// destination.
pub proof fn law_mv_into_dir_begins_merge(src: Seq<char>, dst: Seq<char>, names: Seq<Seq<char>>)
    ensures
        spec_step(StateModel::MvStat { src, dst }, EventModel::Kind(PathKind::Dir)) == (
            (StateModel::MvRead { src, dst }),
            quiet(NextModel::Do(ActionModel::ReadDir(src))),
        ),
        names.len() == 0 ==> spec_step(
            StateModel::MvRead { src, dst },
            EventModel::Entries(names),
        ) == ((StateModel::MvCleanup { src }), quiet(NextModel::Do(ActionModel::RemoveDir(src)))),
        names.len() > 0 ==> spec_step(
            StateModel::MvRead { src, dst },
            EventModel::Entries(names),
        ) == (
            (StateModel::MvEntryStat { src, dst, names, i: 0 }),
            quiet(NextModel::Do(ActionModel::Stat(spec_join_path(dst, names[0])))),
        ),
{
}

/// The merge visits entries in order: an entry with no conflict at the
/// destination is renamed straight over, and a successful rename moves the
/// machine to the next entry's conflict check.
pub proof fn law_mv_merge_in_order(src: Seq<char>, dst: Seq<char>, names: Seq<Seq<char>>, i: int)
    requires
        0 <= i < names.len(),
    ensures
        spec_step(
            StateModel::MvEntryStat { src, dst, names, i },
            EventModel::Kind(PathKind::Missing),
        ) == (
            (StateModel::MvEntryRename { src, dst, names, i }),
            quiet(NextModel::Do(ActionModel::Rename(
                spec_join_path(src, names[i]),
                spec_join_path(dst, names[i]),
            ))),
        ),
        i + 1 < names.len() ==> spec_step(
            StateModel::MvEntryRename { src, dst, names, i },
            EventModel::Succeeded,
        ) == (
            (StateModel::MvEntryStat { src, dst, names, i: i + 1 }),
            quiet(NextModel::Do(ActionModel::Stat(spec_join_path(dst, names[i + 1])))),
        ),
{
}

/// What removing a plain file does to a map from file paths to contents.
pub open spec fn apply_remove_file(
    fs: Map<Seq<char>, Seq<char>>,
    p: Seq<char>,
) -> Map<Seq<char>, Seq<char>> {
    fs.remove(p)
}

/// What atomically renaming a plain file does to a map from file paths to
/// contents: the entry moves, its contents untouched.
pub open spec fn apply_rename_file(
    fs: Map<Seq<char>, Seq<char>>,
    a: Seq<char>,
    b: Seq<char>,
) -> Map<Seq<char>, Seq<char>> {
    if fs.dom().contains(a) {
        fs.remove(a).insert(b, fs[a])
    } else {
        fs
    }
}

/// The pair of actions [`law_mv_merge_overwrites`] pins — remove `dst/name`,
/// then rename `src/name` onto it — leaves a file map in which `dst/name`
/// holds exactly the contents `src/name` held before, and `src/name` is
/// gone: the destination's original entry is overwritten, not preserved.
pub proof fn law_mv_merge_content(
    fs: Map<Seq<char>, Seq<char>>,
    src: Seq<char>,
    dst: Seq<char>,
    name: Seq<char>,
)
    requires
        fs.dom().contains(spec_join_path(src, name)),
        spec_join_path(src, name) != spec_join_path(dst, name),
    ensures
        ({
            let sp = spec_join_path(src, name);
            let dp = spec_join_path(dst, name);
            let after = apply_rename_file(apply_remove_file(fs, dp), sp, dp);
            &&& after.dom().contains(dp)
            &&& after[dp] == fs[sp]
            &&& !after.dom().contains(sp)
        }),
{
}

/// A directory merge ends by removing the emptied source directory: after
/// the last entry's rename succeeds the machine asks to remove the source,
/// so the source directory no longer exists.
pub proof fn law_mv_merge_cleanup(src: Seq<char>, dst: Seq<char>, names: Seq<Seq<char>>, i: int)
    requires
        0 <= i,
        i == names.len() - 1,
    ensures
        spec_step(StateModel::MvEntryRename { src, dst, names, i }, EventModel::Succeeded) == (
            (StateModel::MvCleanup { src }),
            quiet(NextModel::Do(ActionModel::RemoveDir(src))),
        ),
        spec_step(StateModel::MvCleanup { src }, EventModel::Succeeded) == (
            StateModel::Idle,
            quiet(NextModel::Continue),
        ),
{
}

/// `rm` removes a directory recursively and any other existing path as a
/// single file; a path that the host reports missing is still attempted as a
/// file removal, whose failure is then reported.
pub proof fn law_rm_choice(paths: Seq<Seq<char>>, i: int, k: PathKind)
    requires
        0 <= i < paths.len(),
    ensures
        k == PathKind::Dir ==> spec_step(StateModel::RmStat { paths, i }, EventModel::Kind(k)) == (
            (StateModel::RmWait { paths, i }),
            quiet(NextModel::Do(ActionModel::RemoveDirAll(paths[i]))),
        ),
        k != PathKind::Dir ==> spec_step(StateModel::RmStat { paths, i }, EventModel::Kind(k)) == (
            (StateModel::RmWait { paths, i }),
            quiet(NextModel::Do(ActionModel::RemoveFile(paths[i]))),
        ),
{
}

/// A failed removal is reported for that path alone and does not end the
/// loop: the machine goes on to the next operand, or finishes the command
/// and awaits the next line; it never exits.
pub proof fn law_rm_failure_continues(paths: Seq<Seq<char>>, i: int, e: Seq<char>)
    requires
        0 <= i < paths.len(),
    ensures
        ({
            let (st, s) = spec_step(StateModel::RmWait { paths, i }, EventModel::Failed(e));
            &&& s.err == Option::Some(msg_rm_fail(paths[i], e))
            &&& s.out is None
            &&& s.next != NextModel::Exit
            &&& (i + 1 < paths.len() ==> st == (StateModel::RmStat { paths, i: i + 1 })
                && s.next == NextModel::Do(ActionModel::Stat(paths[i + 1])))
            &&& (i + 1 >= paths.len() ==> st == StateModel::Idle && s.next == NextModel::Continue)
        }),
{
}

/// A failed `cd` reports the underlying cause and issues no action, so the
/// process working directory is exactly what it was before the attempt.
pub proof fn law_cd_failure(e: Seq<char>)
    ensures
        spec_step(StateModel::AwaitCd, EventModel::Failed(e)) == (
            StateModel::Idle,
            err_to(msg_cd_fail(e), NextModel::Continue),
        ),
{
}

/// End of input terminates the interpreter: the step writes nothing and
/// asks the host to exit with status 0, with no `exit` command required.
pub proof fn law_end_of_input()
    ensures
        spec_on_input(InputModel::EndOfInput) == (StateModel::Idle, quiet(NextModel::Exit)),
{
}

/// The `exit` command terminates the interpreter with status 0.
pub proof fn law_exit_command(line: Seq<char>)
    requires
        tokens_of(line).len() > 0,
        tokens_of(line)[0] == "exit"@,
    ensures
        spec_begin(line).1.next == NextModel::Exit,
{
    reveal_strlit("cd");
    reveal_strlit("echo");
    reveal_strlit("pwd");
    reveal_strlit("ls");
    reveal_strlit("mkdir");
    reveal_strlit("cat");
    reveal_strlit("rm");
    reveal_strlit("cp");
    reveal_strlit("mv");
    reveal_strlit("exit");
    assert("cd"@.len() == 2);
    assert("echo"@.len() == 4);
    assert("pwd"@.len() == 3);
    assert("ls"@.len() == 2);
    assert("mkdir"@.len() == 5);
    assert("cat"@.len() == 3);
    assert("rm"@.len() == 2);
    assert("cp"@.len() == 2);
    assert("mv"@.len() == 2);
    assert("exit"@.len() == 4);
    assert("echo"@[1] == 'c');
    assert("exit"@[1] == 'x');
}

/// A line with no tokens — empty, or whitespace alone — runs nothing,
/// prints nothing, and the loop stays alive.
pub proof fn law_blank_line(line: Seq<char>)
    requires
        forall|j: int| 0 <= j < line.len() ==> is_shell_ws(line[j]),
    ensures
        spec_begin(line) == (StateModel::Idle, quiet(NextModel::Continue)),
{
    lemma_all_ws_no_tokens(line);
    assert(spec_dispatch(tokens_of(line)) == (StateModel::Idle, quiet(NextModel::Continue)));
}

/// A line of whitespace alone has no tokens.
proof fn lemma_all_ws_no_tokens(line: Seq<char>)
    requires
        forall|j: int| 0 <= j < line.len() ==> is_shell_ws(line[j]),
    ensures
        tokens_of(line).len() == 0,
    decreases line.len(),
{
    if line.len() > 0 {
        assert(is_shell_ws(line[0]));
        assert(forall|j: int| 0 <= j < line.drop_first().len() ==> is_shell_ws(
            line.drop_first()[j],
        ));
        lemma_all_ws_no_tokens(line.drop_first());
    }
}

} // verus!
