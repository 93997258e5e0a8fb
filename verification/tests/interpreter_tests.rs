//! Scenario tests: the machine driven by a small in-memory filesystem host.
//!
//! The host below performs each requested action on a map of paths and feeds
//! the outcome back, exactly as the real host does against the operating
//! system; the interpreter itself never sees the difference.

use std::collections::BTreeMap;

use minishell::shell::{begin, on_input, Action, Event, InputEvent, Machine, Next, PathKind, Step};

#[derive(Clone, Debug, PartialEq)]
enum Node {
    File(String),
    Dir,
}

struct Host {
    fs: BTreeMap<String, Node>,
    cwd: String,
    out: String,
    err: String,
    exited: bool,
}

fn norm(p: &str) -> String {
    let mut s = p.to_string();
    while s.len() > 1 && s.ends_with('/') {
        s.pop();
    }
    s
}

impl Host {
    fn new() -> Host {
        Host {
            fs: BTreeMap::new(),
            cwd: "/start".to_string(),
            out: String::new(),
            err: String::new(),
            exited: false,
        }
    }

    fn mk_dir(&mut self, p: &str) {
        self.fs.insert(p.to_string(), Node::Dir);
    }

    fn mk_file(&mut self, p: &str, contents: &str) {
        self.fs.insert(p.to_string(), Node::File(contents.to_string()));
    }

    fn file(&self, p: &str) -> Option<&String> {
        match self.fs.get(p) {
            Some(Node::File(c)) => Some(c),
            _ => None,
        }
    }

    fn children(&self, p: &str) -> Vec<String> {
        let prefix = format!("{}/", p);
        let mut names = Vec::new();
        for key in self.fs.keys() {
            if let Some(rest) = key.strip_prefix(&prefix) {
                if !rest.is_empty() && !rest.contains('/') {
                    names.push(rest.to_string());
                }
            }
        }
        names
    }

    fn perform(&mut self, a: Action) -> Event {
        match a {
            Action::CreateDir(p) => {
                let p = norm(&p);
                if self.fs.contains_key(&p) {
                    return Event::Failed("File exists".to_string());
                }
                if let Some(idx) = p.rfind('/') {
                    let parent = &p[..idx];
                    if !parent.is_empty() && self.fs.get(parent) != Some(&Node::Dir) {
                        return Event::Failed("No such file or directory".to_string());
                    }
                }
                self.fs.insert(p, Node::Dir);
                Event::Succeeded
            }
            Action::RemoveFile(p) => {
                let p = norm(&p);
                match self.fs.get(&p) {
                    Some(Node::File(_)) => {
                        self.fs.remove(&p);
                        Event::Succeeded
                    }
                    Some(Node::Dir) => Event::Failed("Is a directory".to_string()),
                    None => Event::Failed("No such file or directory".to_string()),
                }
            }
            Action::RemoveDirAll(p) => {
                let p = norm(&p);
                if !self.fs.contains_key(&p) {
                    return Event::Failed("No such file or directory".to_string());
                }
                let prefix = format!("{}/", p);
                self.fs.retain(|k, _| k != &p && !k.starts_with(&prefix));
                Event::Succeeded
            }
            Action::RemoveDir(p) => {
                let p = norm(&p);
                if self.fs.get(&p) != Some(&Node::Dir) {
                    return Event::Failed("No such file or directory".to_string());
                }
                if !self.children(&p).is_empty() {
                    return Event::Failed("Directory not empty".to_string());
                }
                self.fs.remove(&p);
                Event::Succeeded
            }
            Action::Rename(a, b) => {
                let a = norm(&a);
                let b = norm(&b);
                if !self.fs.contains_key(&a) {
                    return Event::Failed("No such file or directory".to_string());
                }
                let moved: Vec<(String, Node)> = self
                    .fs
                    .iter()
                    .filter(|(k, _)| *k == &a || k.starts_with(&format!("{}/", a)))
                    .map(|(k, v)| (k.clone(), v.clone()))
                    .collect();
                for (k, _) in &moved {
                    self.fs.remove(k);
                }
                for (k, v) in moved {
                    let new_key = format!("{}{}", b, &k[a.len()..]);
                    self.fs.insert(new_key, v);
                }
                Event::Succeeded
            }
            Action::CopyFile(a, b) => {
                let a = norm(&a);
                let b = norm(&b);
                let contents = match self.fs.get(&a) {
                    Some(Node::File(c)) => c.clone(),
                    _ => return Event::OpenFailed("No such file or directory".to_string()),
                };
                if self.fs.get(&b) == Some(&Node::Dir) {
                    return Event::CreateFailed("Is a directory".to_string());
                }
                self.fs.insert(b, Node::File(contents));
                Event::Succeeded
            }
            Action::ReadFile(p) => {
                let p = norm(&p);
                match self.fs.get(&p) {
                    Some(Node::File(c)) => Event::Content(c.clone()),
                    _ => Event::OpenFailed("No such file or directory".to_string()),
                }
            }
            Action::ReadDir(p) => {
                let p = norm(&p);
                if p == "." {
                    let mut names = Vec::new();
                    for key in self.fs.keys() {
                        if !key.contains('/') {
                            names.push(key.clone());
                        }
                    }
                    return Event::Entries(names);
                }
                if self.fs.get(&p) != Some(&Node::Dir) {
                    return Event::Failed("No such file or directory".to_string());
                }
                Event::Entries(self.children(&p))
            }
            Action::SetCwd(p) => {
                let p = norm(&p);
                if self.fs.get(&p) == Some(&Node::Dir) {
                    self.cwd = p;
                    Event::Succeeded
                } else {
                    Event::Failed("No such file or directory".to_string())
                }
            }
            Action::GetCwd => Event::Cwd(self.cwd.clone()),
            Action::Stat(p) => {
                let p = norm(&p);
                match self.fs.get(&p) {
                    Some(Node::Dir) => Event::Kind(PathKind::Dir),
                    Some(Node::File(_)) => Event::Kind(PathKind::File),
                    None => Event::Kind(PathKind::Missing),
                }
            }
        }
    }

    fn pump(&mut self, start: (Machine, Step)) {
        let (mut m, mut s) = start;
        loop {
            if let Some(o) = s.out.take() {
                self.out.push_str(&o);
            }
            if let Some(e) = s.err.take() {
                self.err.push_str(&e);
            }
            match s.next {
                Next::Do(a) => {
                    let ev = self.perform(a);
                    let (m2, s2) = m.step(ev);
                    m = m2;
                    s = s2;
                }
                Next::Continue => break,
                Next::Exit => {
                    self.exited = true;
                    break;
                }
            }
        }
    }

    fn run(&mut self, line: &str) {
        let start = begin(line);
        self.pump(start);
    }

    fn take_out(&mut self) -> String {
        std::mem::take(&mut self.out)
    }

    fn take_err(&mut self) -> String {
        std::mem::take(&mut self.err)
    }
}

#[test]
fn unknown_command_reports_and_loop_survives() {
    let mut h = Host::new();
    h.run("frobnicate x y");
    assert_eq!(h.take_err(), "Command 'frobnicate' not found\n");
    assert_eq!(h.take_out(), "");
    assert!(!h.exited);
    h.run("echo still alive");
    assert_eq!(h.take_out(), "still alive\n");
}

#[test]
fn echo_joins_arguments_with_single_spaces() {
    let mut h = Host::new();
    h.run("echo a b c");
    assert_eq!(h.take_out(), "a b c\n");
    assert_eq!(h.take_err(), "");
}

#[test]
fn echo_without_arguments_prints_newline() {
    let mut h = Host::new();
    h.run("echo");
    assert_eq!(h.take_out(), "\n");
    assert_eq!(h.take_err(), "");
}

#[test]
fn echo_collapses_token_whitespace() {
    let mut h = Host::new();
    h.run("  echo \t a\t\tb  c   ");
    assert_eq!(h.take_out(), "a b c\n");
}

#[test]
fn mkdir_creates_every_operand() {
    let mut h = Host::new();
    h.run("mkdir d1 d2");
    assert_eq!(h.fs.get("d1"), Some(&Node::Dir));
    assert_eq!(h.fs.get("d2"), Some(&Node::Dir));
    assert_eq!(h.take_err(), "");
}

#[test]
fn mkdir_failure_is_reported_per_operand_and_others_still_attempted() {
    let mut h = Host::new();
    h.mk_dir("d1");
    h.run("mkdir d1 d2");
    assert_eq!(h.take_err(), "mkdir: cannot create directory 'd1': File exists\n");
    assert_eq!(h.fs.get("d2"), Some(&Node::Dir));
}

#[test]
fn mkdir_without_operand_is_a_usage_error() {
    let mut h = Host::new();
    h.run("mkdir");
    assert_eq!(h.take_err(), "mkdir: missing operand\n");
}

#[test]
fn cp_copies_bytes_and_overwrites_existing_destination() {
    let mut h = Host::new();
    h.mk_file("a.txt", "B");
    h.mk_file("b.txt", "a much longer pre-existing content");
    h.run("cp a.txt b.txt");
    assert_eq!(h.take_err(), "");
    assert_eq!(h.file("b.txt"), Some(&"B".to_string()));
    assert_eq!(h.file("a.txt"), Some(&"B".to_string()));
}

#[test]
fn cp_into_directory_uses_source_base_name() {
    let mut h = Host::new();
    h.mk_file("a.txt", "hello");
    h.mk_dir("dir");
    h.run("cp a.txt dir/");
    assert_eq!(h.take_err(), "");
    assert_eq!(h.file("dir/a.txt"), Some(&"hello".to_string()));
}

#[test]
fn cp_missing_source_reports_open_error() {
    let mut h = Host::new();
    h.run("cp nosuch.txt out.txt");
    assert_eq!(
        h.take_err(),
        "cp: error opening source file '\"nosuch.txt\"': No such file or directory\n"
    );
    assert_eq!(h.fs.get("out.txt"), None);
}

#[test]
fn cp_wrong_argument_count_is_a_usage_error() {
    let mut h = Host::new();
    h.run("cp onlyone");
    assert_eq!(h.take_err(), "cp: missing operand\n");
}

#[test]
fn mv_onto_existing_file_fails_and_leaves_both_unchanged() {
    let mut h = Host::new();
    h.mk_file("src", "source bytes");
    h.mk_file("dst", "destination bytes");
    h.run("mv src dst");
    assert_eq!(h.take_err(), "mv error: Destination exists\n");
    assert_eq!(h.file("src"), Some(&"source bytes".to_string()));
    assert_eq!(h.file("dst"), Some(&"destination bytes".to_string()));
}

#[test]
fn mv_renames_to_fresh_path() {
    let mut h = Host::new();
    h.mk_file("src", "payload");
    h.run("mv src dst");
    assert_eq!(h.take_err(), "");
    assert_eq!(h.fs.get("src"), None);
    assert_eq!(h.file("dst"), Some(&"payload".to_string()));
}

#[test]
fn mv_merge_overwrites_conflicting_entry_and_removes_source() {
    let mut h = Host::new();
    h.mk_dir("srcdir");
    h.mk_file("srcdir/f", "new contents");
    h.mk_file("srcdir/g", "extra");
    h.mk_dir("dstdir");
    h.mk_file("dstdir/f", "old contents");
    h.run("mv srcdir dstdir");
    assert_eq!(h.take_err(), "");
    assert_eq!(h.file("dstdir/f"), Some(&"new contents".to_string()));
    assert_eq!(h.file("dstdir/g"), Some(&"extra".to_string()));
    assert_eq!(h.fs.get("srcdir"), None);
    assert_eq!(h.fs.get("srcdir/f"), None);
}

#[test]
fn mv_merge_replaces_conflicting_directory_recursively() {
    let mut h = Host::new();
    h.mk_dir("srcdir");
    h.mk_file("srcdir/sub", "now a file");
    h.mk_dir("dstdir");
    h.mk_dir("dstdir/sub");
    h.mk_file("dstdir/sub/deep", "buried");
    h.run("mv srcdir dstdir");
    assert_eq!(h.take_err(), "");
    assert_eq!(h.file("dstdir/sub"), Some(&"now a file".to_string()));
    assert_eq!(h.fs.get("dstdir/sub/deep"), None);
    assert_eq!(h.fs.get("srcdir"), None);
}

#[test]
fn mv_wrong_argument_count_prints_usage_and_error() {
    let mut h = Host::new();
    h.run("mv lonely");
    assert_eq!(
        h.take_err(),
        "Usage: mv <source> <destination>\nmv error: Invalid number of arguments\n"
    );
}

#[test]
fn rm_removes_directory_recursively() {
    let mut h = Host::new();
    h.mk_dir("d");
    h.mk_file("d/a", "x");
    h.mk_dir("d/sub");
    h.mk_file("d/sub/b", "y");
    h.run("rm d");
    assert_eq!(h.take_err(), "");
    assert!(h.fs.is_empty());
}

#[test]
fn rm_missing_path_reports_and_loop_survives() {
    let mut h = Host::new();
    h.run("rm nosuch");
    assert_eq!(h.take_err(), "rm: failed to remove 'nosuch': No such file or directory\n");
    assert!(!h.exited);
    h.run("echo ok");
    assert_eq!(h.take_out(), "ok\n");
}

#[test]
fn rm_attempts_every_operand() {
    let mut h = Host::new();
    h.mk_file("a", "1");
    h.mk_file("c", "3");
    h.run("rm a b c");
    assert_eq!(h.take_err(), "rm: failed to remove 'b': No such file or directory\n");
    assert_eq!(h.fs.get("a"), None);
    assert_eq!(h.fs.get("c"), None);
}

#[test]
fn cd_failure_leaves_working_directory_unchanged() {
    let mut h = Host::new();
    h.run("cd nonexistent");
    assert_eq!(h.take_err(), "cd: No such file or directory\n");
    h.run("pwd");
    assert_eq!(h.take_out(), "/start\n");
}

#[test]
fn cd_success_changes_working_directory() {
    let mut h = Host::new();
    h.mk_dir("other");
    h.run("cd other");
    assert_eq!(h.take_err(), "");
    h.run("pwd");
    assert_eq!(h.take_out(), "other\n");
}

#[test]
fn cd_without_argument_is_an_error() {
    let mut h = Host::new();
    h.run("cd");
    assert_eq!(h.take_err(), "cd: missing argument\n");
}

#[test]
fn ls_lists_entries_one_per_line() {
    let mut h = Host::new();
    h.mk_dir("d");
    h.mk_file("d/one", "1");
    h.mk_file("d/two", "2");
    h.run("ls d");
    assert_eq!(h.take_out(), "one\ntwo\n");
}

#[test]
fn ls_unreadable_path_reports_error() {
    let mut h = Host::new();
    h.run("ls nosuch");
    assert_eq!(h.take_err(), "ls: cannot access 'nosuch': No such file or directory\n");
}

#[test]
fn cat_concatenates_files_without_separator() {
    let mut h = Host::new();
    h.mk_file("a", "first");
    h.mk_file("b", "second");
    h.run("cat a b");
    assert_eq!(h.take_out(), "firstsecond");
}

#[test]
fn cat_open_error_continues_with_remaining_files() {
    let mut h = Host::new();
    h.mk_file("b", "still here");
    h.run("cat nosuch b");
    assert_eq!(h.take_err(), "cat: nosuch: No such file or directory\n");
    assert_eq!(h.take_out(), "still here");
}

#[test]
fn blank_line_runs_nothing() {
    let mut h = Host::new();
    h.run("   \t  ");
    assert_eq!(h.take_out(), "");
    assert_eq!(h.take_err(), "");
    assert!(!h.exited);
}

#[test]
fn end_of_input_exits_cleanly() {
    let mut h = Host::new();
    let start = on_input(InputEvent::EndOfInput);
    h.pump(start);
    assert!(h.exited);
    assert_eq!(h.take_out(), "");
    assert_eq!(h.take_err(), "");
}

#[test]
fn exit_command_exits() {
    let mut h = Host::new();
    let start = on_input(InputEvent::Line("exit".to_string()));
    h.pump(start);
    assert!(h.exited);
}

#[test]
fn ls_without_argument_lists_current_directory() {
    let mut h = Host::new();
    h.mk_file("alpha", "1");
    h.mk_file("beta", "2");
    h.run("ls");
    assert_eq!(h.take_out(), "alpha\nbeta\n");
}

#[test]
fn cat_read_error_uses_its_own_message() {
    let (m, s) = begin("cat f");
    assert!(matches!(s.next, Next::Do(Action::ReadFile(_))));
    let (_, s2) = m.step(Event::ReadFailed("stream did not contain valid UTF-8".to_string()));
    assert_eq!(
        s2.err,
        Some("cat: error reading f: stream did not contain valid UTF-8\n".to_string())
    );
    assert!(matches!(s2.next, Next::Continue));
}

#[test]
fn cp_create_error_names_the_destination() {
    let (m, s) = begin("cp a b");
    assert!(matches!(s.next, Next::Do(Action::Stat(_))));
    let (m2, _) = m.step(Event::Kind(PathKind::Missing));
    let (_, s3) = m2.step(Event::CreateFailed("Permission denied".to_string()));
    assert_eq!(
        s3.err,
        Some("cp: error creating destination file '\"b\"': Permission denied\n".to_string())
    );
}

#[test]
fn cp_copy_error_names_both_paths() {
    let (m, _) = begin("cp a b");
    let (m2, _) = m.step(Event::Kind(PathKind::Missing));
    let (_, s3) = m2.step(Event::Failed("Input/output error".to_string()));
    assert_eq!(
        s3.err,
        Some("cp: error copying from \"a\" to \"b\": Input/output error\n".to_string())
    );
}

#[test]
fn cp_source_without_base_name_into_directory_is_rejected() {
    let mut h = Host::new();
    h.mk_dir("dir");
    h.run("cp .. dir");
    assert_eq!(h.take_err(), "cp: invalid source path\n");
}

#[test]
fn pwd_failure_is_reported() {
    let (m, s) = begin("pwd");
    assert!(matches!(s.next, Next::Do(Action::GetCwd)));
    let (_, s2) = m.step(Event::CwdUnknown);
    assert_eq!(s2.err, Some("pwd: failed to get current directory\n".to_string()));
}

#[test]
fn mv_rename_failure_is_reported() {
    let mut h = Host::new();
    h.run("mv ghost gone");
    assert_eq!(h.take_err(), "mv error: No such file or directory\n");
}

#[test]
fn read_failure_is_reported_and_loop_survives() {
    let mut h = Host::new();
    let start = on_input(InputEvent::ReadFailure("stream did not decode".to_string()));
    h.pump(start);
    assert!(!h.exited);
    assert_eq!(h.take_err(), "Error: stream did not decode\n");
}
