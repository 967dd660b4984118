use std::collections::BTreeMap;

use mkdir_touch::materializer::State;
use mkdir_touch::outcome::{ErrorKind, Failure, IoError, Outcome};
use mkdir_touch::protocol::{Action, Reply};
use mkdir_touch::report::{exit_status, report, Stream};
use mkdir_touch::time::Timestamp;

// A file system in memory that answers as a POSIX one does, as far as the
// tests need it: entries by their path, directories that may be read-only,
// entries that belong to somebody else.

#[derive(Clone, Debug, PartialEq)]
enum Node {
    File(Vec<u8>),
    Directory,
}

#[derive(Clone, Debug, PartialEq)]
struct Entry {
    node: Node,
    accessed: Timestamp,
    modified: Timestamp,
    writable: bool,
    owned: bool,
}

const LONG_AGO: Timestamp = Timestamp { seconds: 1_000, nanoseconds: 0 };

struct Disk {
    entries: BTreeMap<String, Entry>,
    log: Vec<Action>,
}

fn failure(kind: ErrorKind, message: &str) -> Failure {
    Failure { kind, message: String::from(message) }
}

fn not_a_directory() -> Failure {
    failure(ErrorKind::NotADirectory, "Not a directory (os error 20)")
}

fn not_found() -> Failure {
    failure(ErrorKind::NotFound, "No such file or directory (os error 2)")
}

fn permission_denied() -> Failure {
    failure(ErrorKind::PermissionDenied, "Permission denied (os error 13)")
}

fn not_permitted() -> Failure {
    failure(ErrorKind::PermissionDenied, "Operation not permitted (os error 1)")
}

impl Disk {
    fn new() -> Disk {
        Disk { entries: BTreeMap::new(), log: Vec::new() }
    }

    fn put(&mut self, path: &str, node: Node, writable: bool, owned: bool) {
        let entry = Entry { node, accessed: LONG_AGO, modified: LONG_AGO, writable, owned };
        self.entries.insert(String::from(path), entry);
    }

    fn with_file(mut self, path: &str) -> Disk {
        self.put(path, Node::File(Vec::new()), true, true);
        self
    }

    fn with_directory(mut self, path: &str) -> Disk {
        self.put(path, Node::Directory, true, true);
        self
    }

    fn holds(&self, path: &str) -> bool {
        path == "/" || self.entries.contains_key(path)
    }

    fn is_directory(&self, path: &str) -> bool {
        matches!(self.entries.get(path), Some(Entry { node: Node::Directory, .. }))
    }

    fn is_file(&self, path: &str) -> bool {
        matches!(self.entries.get(path), Some(Entry { node: Node::File(_), .. }))
    }

    // The directory that would hold `path`; `None` stands for the current
    // directory and for the root, which are always there and writable.
    fn holder(path: &str) -> Option<&str> {
        match path.rfind('/') {
            Some(0) | None => None,
            Some(k) => Some(&path[..k]),
        }
    }

    fn check_holder(&self, path: &str) -> Result<(), Failure> {
        match Disk::holder(path) {
            None => Ok(()),
            Some(dir) => match self.entries.get(dir) {
                None => Err(not_found()),
                Some(Entry { node: Node::File(_), .. }) => Err(not_a_directory()),
                Some(Entry { writable: false, .. }) => Err(permission_denied()),
                Some(_) => Ok(()),
            },
        }
    }

    fn create_directories(&mut self, path: &str) -> Result<(), Failure> {
        let mut ends: Vec<usize> = path.match_indices('/').map(|(k, _)| k).collect();
        ends.push(path.len());
        for end in ends {
            let prefix = &path[..end];
            if prefix.is_empty() {
                continue;
            }
            match self.entries.get(prefix) {
                Some(Entry { node: Node::Directory, .. }) => {}
                Some(_) => return Err(not_a_directory()),
                None => {
                    self.check_holder(prefix)?;
                    self.put(prefix, Node::Directory, true, true);
                }
            }
        }
        Ok(())
    }

    fn create_file(&mut self, path: &str) -> Result<(), Failure> {
        self.check_holder(path)?;
        if !self.entries.contains_key(path) {
            self.put(path, Node::File(Vec::new()), true, true);
        }
        Ok(())
    }

    fn set_times(&mut self, path: &str, accessed: Timestamp, modified: Timestamp) -> Result<(), Failure> {
        match self.entries.get_mut(path) {
            None => Err(not_found()),
            Some(Entry { owned: false, .. }) => Err(not_permitted()),
            Some(entry) => {
                entry.accessed = accessed;
                entry.modified = modified;
                Ok(())
            }
        }
    }

    fn perform(&mut self, action: &Action) -> Reply {
        self.log.push(action.clone());
        match action {
            Action::Probe { path } => Reply::probed(self.holds(path)),
            Action::CreateDirectories { path } => Reply::completed(self.create_directories(path)),
            Action::CreateFile { path } => Reply::completed(self.create_file(path)),
            Action::SetTimes { path, accessed, modified } => {
                Reply::completed(self.set_times(path, *accessed, *modified))
            }
        }
    }

    // Works on `state` until it is over, the clock standing at `now`.
    fn finish_at(&mut self, mut state: State, now: Timestamp) -> Outcome {
        loop {
            match state.request() {
                Some(action) => {
                    let reply = self.perform(&action);
                    state = state.advance_at(reply, now);
                }
                None => break,
            }
        }
        state.outcome().unwrap()
    }

    // Works on `state` until it is over, by the clock of the machine.
    fn finish(&mut self, mut state: State) -> Outcome {
        loop {
            match state.request() {
                Some(action) => {
                    let reply = self.perform(&action);
                    state = state.advance(reply);
                }
                None => break,
            }
        }
        state.outcome().unwrap()
    }

    // Works on `state` until the parent directory is settled.
    fn settle_directory(&mut self, mut state: State) -> State {
        while matches!(state, State::ProbingDirectory { .. } | State::CreatingDirectory { .. }) {
            let action = state.request().unwrap();
            let reply = self.perform(&action);
            state = state.advance(reply);
        }
        state
    }

    fn mkdir_touch(&mut self, path: &str) -> bool {
        self.finish(State::start(path)).is_success()
    }

    fn touch(&mut self, path: &str) -> Outcome {
        self.finish(State::ProbingTarget { path: String::from(path) })
    }
}

// Works on `args` one after the other and collects what the program would
// write to standard output and to standard error, and its exit status.
fn run_command(disk: &mut Disk, args: &[&str]) -> (String, String, i32) {
    let mut stdout = String::new();
    let mut stderr = String::new();
    let mut outcomes = Vec::new();
    for path in args {
        let outcome = disk.finish(State::start(path));
        let line = report(path, &outcome);
        match line.stream {
            Stream::Output => {
                stdout.push_str(&line.text);
                stdout.push('\n');
            }
            Stream::Error => {
                stderr.push_str(&line.text);
                stderr.push('\n');
            }
        }
        outcomes.push(outcome);
    }
    (stdout, stderr, exit_status(&outcomes))
}

fn clock() -> Timestamp {
    let now = filetime::FileTime::now();
    Timestamp { seconds: now.unix_seconds(), nanoseconds: now.nanoseconds() }
}

fn at_or_after(later: Timestamp, earlier: Timestamp) -> bool {
    later.is_at_or_after(&earlier)
}

fn probe(path: &str) -> Action {
    Action::Probe { path: String::from(path) }
}

fn create_directories(path: &str) -> Action {
    Action::CreateDirectories { path: String::from(path) }
}

fn create_file(path: &str) -> Action {
    Action::CreateFile { path: String::from(path) }
}

fn set_times(path: &str, stamp: Timestamp) -> Action {
    Action::SetTimes { path: String::from(path), accessed: stamp, modified: stamp }
}

const NOON: Timestamp = Timestamp { seconds: 1_700_000_000, nanoseconds: 250 };

#[test]
fn test_touch_creates_file() {
    let path = "test_touch_creates_file";
    let mut disk = Disk::new();
    assert!(!disk.holds(path));
    assert!(disk.touch(path).is_success());
    assert!(disk.holds(path));
    assert!(disk.is_file(path));
    assert_eq!(disk.entries[path].node, Node::File(Vec::new()));
}

#[test]
fn test_touch_updates_timestamp() {
    let path = "test_touch_updates_timestamp";
    let mut disk = Disk::new().with_file(path);
    let before = clock();
    assert!(disk.touch(path).is_success());
    let after = clock();
    let modified = disk.entries[path].modified;
    assert!(at_or_after(modified, before));
    assert!(at_or_after(after, modified));
}

#[test]
fn test_touch_updates_timestamp_for_directory() {
    let dir = "test_touch_updates_timestamp_for_directory";
    let mut disk = Disk::new().with_directory(dir);
    let before = clock();
    assert!(disk.touch(dir).is_success());
    let after = clock();
    let modified = disk.entries[dir].modified;
    assert!(at_or_after(modified, before));
    assert!(at_or_after(after, modified));
    assert!(disk.is_directory(dir));
}

#[test]
fn test_mkdir_success() {
    let dir = "test_mkdir_success";
    let mut disk = Disk::new();
    assert!(!disk.holds(dir));
    let state = disk.settle_directory(State::start("test_mkdir_success/x"));
    assert_eq!(state, State::ProbingTarget { path: String::from("test_mkdir_success/x") });
    assert!(disk.holds(dir));
    assert!(disk.is_directory(dir));
}

#[test]
fn test_mkdir_already_exists() {
    let dir = "test_mkdir_already_exists";
    let mut disk = Disk::new().with_directory(dir);
    let state = disk.settle_directory(State::start("test_mkdir_already_exists/x"));
    assert_eq!(state, State::ProbingTarget { path: String::from("test_mkdir_already_exists/x") });
    assert_eq!(disk.log, vec![probe(dir)]);
    assert_eq!(disk.entries[dir].modified, LONG_AGO);
}

#[test]
fn test_mkdir_touch_with_directory1() {
    let dir = "test_mkdir_touch_with_directory1";
    let path = format!("{}/{}", dir, "a.txt");
    let mut disk = Disk::new();
    assert!(disk.mkdir_touch(&path));
    assert!(disk.holds(&path));
}

#[test]
fn test_mkdir_touch_with_directory2() {
    let dir = "test_mkdir_touch_with_directory2";
    let path = format!("{}/{}", dir, "a/b/c.txt");
    let mut disk = Disk::new();
    assert!(disk.mkdir_touch(&path));
    assert!(disk.holds(&path));
    assert!(disk.is_directory("test_mkdir_touch_with_directory2/a/b"));
}

#[test]
fn test_mkdir_touch_without_directory() {
    let path = "test_mkdir_touch_without_directory";
    let mut disk = Disk::new();
    assert!(disk.mkdir_touch(path));
    assert!(disk.holds(path));
}

#[test]
fn test_mkdir_touch_error() {
    let path = "test_mkdir_touch_error";
    let mut disk = Disk::new().with_file(path);
    let create_path = format!("{}/{}", path, "a.txt");
    assert!(!disk.mkdir_touch(&create_path));
    assert!(!disk.holds(&create_path));
}

#[test]
fn materializing_twice_succeeds_twice() {
    let path = "again/f.txt";
    let mut disk = Disk::new();
    assert_eq!(disk.finish(State::start(path)), Outcome::Success);
    let first = disk.entries[path].modified;
    disk.log.clear();
    assert_eq!(disk.finish(State::start(path)), Outcome::Success);
    let second = disk.entries[path].modified;
    assert!(disk.is_file(path));
    assert!(at_or_after(second, first));
    assert_eq!(disk.log, vec![probe("again"), probe(path), set_times(path, second)]);
}

#[test]
fn missing_directories_are_created_before_the_file() {
    let path = "d1/d2/f.txt";
    let mut disk = Disk::new();
    assert_eq!(disk.finish_at(State::start(path), NOON), Outcome::Success);
    assert!(disk.is_directory("d1"));
    assert!(disk.is_directory("d1/d2"));
    assert!(disk.is_file(path));
    assert_eq!(
        disk.log,
        vec![
            probe("d1/d2"),
            create_directories("d1/d2"),
            probe(path),
            create_file(path),
            set_times(path, NOON),
        ]
    );
    assert_eq!(disk.entries[path].accessed, NOON);
    assert_eq!(disk.entries[path].modified, NOON);
}

#[test]
fn path_without_separator_asks_for_no_directory() {
    let path = "f.txt";
    let mut disk = Disk::new();
    assert_eq!(State::start(path), State::ProbingTarget { path: String::from(path) });
    assert_eq!(disk.finish_at(State::start(path), NOON), Outcome::Success);
    assert!(disk.is_file(path));
    assert_eq!(disk.log, vec![probe(path), create_file(path), set_times(path, NOON)]);
    assert_eq!(disk.entries.len(), 1);
}

#[test]
fn old_file_gets_fresh_timestamps() {
    let path = "old.txt";
    let mut disk = Disk::new().with_file(path);
    assert_eq!(disk.entries[path].modified, LONG_AGO);
    let before = clock();
    assert_eq!(disk.finish(State::start(path)), Outcome::Success);
    let after = clock();
    let entry = &disk.entries[path];
    assert!(at_or_after(entry.modified, before));
    assert!(at_or_after(entry.accessed, before));
    assert!(at_or_after(after, entry.modified));
    assert!(at_or_after(after, entry.accessed));
    assert_eq!(entry.accessed, entry.modified);
    assert!(entry.modified.nanoseconds < 1_000_000_000);
}

#[test]
fn failed_path_leaves_the_next_one_alone() {
    let mut disk = Disk::new().with_file("plain");
    let paths = ["plain/inside.txt", "fine/f.txt"];
    let mut outcomes = Vec::new();
    for path in paths {
        outcomes.push(disk.finish_at(State::start(path), NOON));
    }
    assert!(!outcomes[0].is_success());
    assert_eq!(outcomes[1], Outcome::Success);
    assert!(disk.is_file("fine/f.txt"));
    assert!(!disk.holds("plain/inside.txt"));
    assert_eq!(exit_status(&outcomes), 1);
}

#[test]
fn directory_that_cannot_be_created_stops_the_path() {
    let path = "blocked/sub/x.txt";
    let mut disk = Disk::new().with_file("blocked");
    let outcome = disk.finish_at(State::start(path), NOON);
    assert_eq!(
        outcome,
        Outcome::DirectoryError(IoError {
            path: String::from("blocked/sub"),
            kind: ErrorKind::NotADirectory,
            message: String::from("Not a directory (os error 20)"),
        })
    );
    assert!(!disk.holds(path));
    assert!(!disk.holds("blocked/sub"));
    assert_eq!(disk.log, vec![probe("blocked/sub"), create_directories("blocked/sub")]);
    let line = report(path, &outcome);
    assert_eq!(line.stream, Stream::Error);
    assert_eq!(line.text, "Error creating a directory(blocked/sub): Not a directory (os error 20)");
}

#[test]
fn parent_that_is_a_file_surfaces_as_a_file_error() {
    let path = "blocked/x.txt";
    let mut disk = Disk::new().with_file("blocked");
    let outcome = disk.finish_at(State::start(path), NOON);
    assert_eq!(
        outcome,
        Outcome::FileError(IoError {
            path: String::from(path),
            kind: ErrorKind::NotADirectory,
            message: String::from("Not a directory (os error 20)"),
        })
    );
    assert!(!disk.holds(path));
    assert!(disk.is_file("blocked"));
    assert_eq!(disk.log, vec![probe("blocked"), probe(path), create_file(path)]);
    let line = report(path, &outcome);
    assert!(line.text.contains("Error creating a file(blocked/x.txt): Not a directory"));
}

#[test]
fn existing_directory_is_touched_and_keeps_its_contents() {
    let mut disk = Disk::new().with_directory("box").with_file("box/inner.txt");
    let before = disk.entries.clone();
    assert_eq!(disk.finish_at(State::start("box"), NOON), Outcome::Success);
    assert!(disk.is_directory("box"));
    assert_eq!(disk.entries["box/inner.txt"], before["box/inner.txt"]);
    assert_eq!(disk.entries.len(), 2);
    assert_eq!(disk.entries["box"].accessed, NOON);
    assert_eq!(disk.entries["box"].modified, NOON);
    assert_eq!(disk.log, vec![probe("box"), set_times("box", NOON)]);
}

#[test]
fn existing_file_keeps_its_contents() {
    let mut disk = Disk::new();
    disk.put("notes.txt", Node::File(vec![1, 2, 3]), true, true);
    assert_eq!(disk.finish_at(State::start("notes.txt"), NOON), Outcome::Success);
    assert_eq!(disk.entries["notes.txt"].node, Node::File(vec![1, 2, 3]));
    assert_eq!(disk.entries["notes.txt"].modified, NOON);
}

#[test]
fn test_success_output() {
    let mut disk = Disk::new();
    let (stdout, stderr, status) = run_command(&mut disk, &[]);
    assert_eq!(stdout, "");
    assert_eq!(stderr, "");
    assert_eq!(status, 0);
}

#[test]
fn test_fail_permission_denied() {
    let mut disk = Disk::new();
    disk.put("/etc", Node::Directory, false, false);
    let (stdout, stderr, status) = run_command(&mut disk, &["/etc/denied"]);
    assert_eq!(stdout, "");
    assert!(stderr.contains("Error creating a file(/etc/denied): Permission denied"));
    assert_eq!(status, 1);
    assert!(!disk.holds("/etc/denied"));
}

#[test]
fn test_fail_operation_not_permitted() {
    let mut disk = Disk::new();
    disk.put("/etc", Node::Directory, false, false);
    disk.put("/etc/passwd", Node::File(vec![7]), false, false);
    let (stdout, stderr, status) = run_command(&mut disk, &["/etc/passwd"]);
    assert_eq!(stdout, "");
    assert!(stderr.contains("Error creating a file(/etc/passwd): Operation not permitted"));
    assert_eq!(status, 1);
    assert_eq!(disk.entries["/etc/passwd"].modified, LONG_AGO);
    assert_eq!(disk.entries["/etc/passwd"].node, Node::File(vec![7]));
}

#[test]
fn test_fail_not_a_directory() {
    let path = "test_fail_not_a_directory";
    let mut disk = Disk::new();
    let (stdout, stderr, status) =
        run_command(&mut disk, &[path, format!("{}/{}", path, "test.txt").as_str()]);
    assert_eq!(stdout, "Touched test_fail_not_a_directory\n");
    assert!(stderr.contains(
        "Error creating a file(test_fail_not_a_directory/test.txt): Not a directory"
    ));
    assert_eq!(stderr.lines().count(), 1);
    assert_eq!(status, 1);
    assert!(disk.is_file(path));
}

#[test]
fn file_in_a_read_only_directory_is_a_file_error() {
    let mut disk = Disk::new();
    disk.put("/etc", Node::Directory, false, false);
    let outcome = disk.finish_at(State::start("/etc/denied"), NOON);
    assert_eq!(
        outcome,
        Outcome::FileError(IoError {
            path: String::from("/etc/denied"),
            kind: ErrorKind::PermissionDenied,
            message: String::from("Permission denied (os error 13)"),
        })
    );
    assert_eq!(disk.log, vec![probe("/etc"), probe("/etc/denied"), create_file("/etc/denied")]);
}

#[test]
fn timestamps_that_cannot_be_set_are_a_file_error() {
    let mut disk = Disk::new();
    disk.put("/etc", Node::Directory, false, false);
    disk.put("/etc/passwd", Node::File(vec![7]), false, false);
    let outcome = disk.finish_at(State::start("/etc/passwd"), NOON);
    assert_eq!(
        outcome,
        Outcome::FileError(IoError {
            path: String::from("/etc/passwd"),
            kind: ErrorKind::PermissionDenied,
            message: String::from("Operation not permitted (os error 1)"),
        })
    );
    assert_eq!(
        disk.log,
        vec![probe("/etc"), probe("/etc/passwd"), set_times("/etc/passwd", NOON)]
    );
}

#[test]
fn directory_in_a_read_only_place_is_a_directory_error() {
    let mut disk = Disk::new();
    disk.put("/srv", Node::Directory, false, false);
    let outcome = disk.finish_at(State::start("/srv/new/f.txt"), NOON);
    assert_eq!(
        outcome,
        Outcome::DirectoryError(IoError {
            path: String::from("/srv/new"),
            kind: ErrorKind::PermissionDenied,
            message: String::from("Permission denied (os error 13)"),
        })
    );
    assert!(!disk.holds("/srv/new"));
}

#[test]
fn file_under_a_missing_directory_cannot_be_touched() {
    let path = "nowhere/f.txt";
    let mut disk = Disk::new();
    let outcome = disk.finish_at(State::ProbingTarget { path: String::from(path) }, NOON);
    assert_eq!(
        outcome,
        Outcome::FileError(IoError {
            path: String::from(path),
            kind: ErrorKind::NotFound,
            message: String::from("No such file or directory (os error 2)"),
        })
    );
    assert!(!disk.holds(path));
    assert!(!disk.holds("nowhere"));
    assert_eq!(disk.log, vec![probe(path), create_file(path)]);
    assert_eq!(
        report(path, &outcome).text,
        "Error creating a file(nowhere/f.txt): No such file or directory (os error 2)"
    );
}

#[test]
fn duplicates_are_worked_on_again() {
    let mut disk = Disk::new();
    let early = Timestamp { seconds: 10, nanoseconds: 0 };
    let late = Timestamp { seconds: 20, nanoseconds: 0 };
    assert_eq!(disk.finish_at(State::start("twice.txt"), early), Outcome::Success);
    assert_eq!(disk.entries["twice.txt"].modified, early);
    assert_eq!(disk.finish_at(State::start("twice.txt"), late), Outcome::Success);
    assert_eq!(disk.entries["twice.txt"].modified, late);
}
