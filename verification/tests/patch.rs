use cadence_crater::codec::parse_document;
use cadence_crater::document::{Item, Table};
use cadence_crater::error::{CraterError, ErrorKind};
use cadence_crater::patch::{LocalOverride, PatchEvent, PatchState, PatchStep};
use std::collections::BTreeMap;

/// Files in memory, with the faults that a test wants to see.
struct Disk {
    files: BTreeMap<String, String>,
    /// A write to this path fails after the temporary file was written.
    failing_write: Option<String>,
    /// Every path that was written, in order.
    written: Vec<String>,
    /// Every path that was read, in order.
    read: Vec<String>,
}

impl Disk {
    fn new(files: &[(&str, &str)]) -> Disk {
        Disk {
            files: files
                .iter()
                .map(|(path, text)| (path.to_string(), text.to_string()))
                .collect(),
            failing_write: None,
            written: Vec::new(),
            read: Vec::new(),
        }
    }

    fn text(&self, path: &str) -> &str {
        self.files.get(path).map(|s| s.as_str()).unwrap()
    }

    fn table(&self, path: &str) -> Table {
        parse_document(self.text(path)).unwrap().into_table().unwrap()
    }

    fn string_at(&self, path: &str, keys: &[&str]) -> Option<String> {
        let table = self.table(path);
        let (last, front) = keys.split_last().unwrap();
        let mut current = &table;
        for key in front {
            current = current.get(key)?.as_table()?;
        }
        current.get(last)?.as_str().map(|s| s.to_string())
    }

    /// Runs a patch to its end, the way a caller with a real disk would.
    fn patch(
        &mut self,
        patcher: &LocalOverride,
        name: &str,
        version: &str,
        path: &str,
    ) -> Result<(), CraterError> {
        let mut step = patcher.patch(name, version, path, PatchState::Start, PatchEvent::Begin);
        loop {
            let (state, event) = match step {
                PatchStep::Read { path: file, state } => {
                    self.read.push(file.clone());
                    match self.files.get(&file) {
                        Some(text) => (state, PatchEvent::Contents(text.clone())),
                        None => (
                            state,
                            PatchEvent::Failed("No such file or directory".to_string()),
                        ),
                    }
                }
                PatchStep::Write { request, state } => {
                    self.files
                        .insert(request.tmp_path.clone(), request.contents.clone());
                    if self.failing_write.as_deref() == Some(request.path.as_str()) {
                        (state, PatchEvent::Failed("interrupted".to_string()))
                    } else {
                        let contents = self.files.remove(&request.tmp_path).unwrap();
                        self.files.insert(request.path.clone(), contents);
                        self.written.push(request.path.clone());
                        (state, PatchEvent::Written)
                    }
                }
                PatchStep::Done => return Ok(()),
                PatchStep::Failed(e) => return Err(e),
            };
            step = patcher.patch(name, version, path, state, event);
        }
    }
}

const ROOT: &str = "[workspace]\nmembers = [\"one\", \"two\"]\n\n[dependencies]\nwidget = \"1.0\"\n";
const CHILD: &str = "[package]\nname = \"member\"\n\n[dependencies]\nwidget = \"1.0\"\nserde = \"1\"\n";

fn workspace() -> LocalOverride {
    LocalOverride::new(
        "/w/Cargo.toml".to_string(),
        vec!["/w/one/Cargo.toml".to_string(), "/w/two/Cargo.toml".to_string()],
    )
}

#[test]
fn end_to_end_with_two_children() {
    let mut disk = Disk::new(&[
        ("/w/Cargo.toml", ROOT),
        ("/w/one/Cargo.toml", CHILD),
        ("/w/two/Cargo.toml", CHILD),
    ]);
    disk.patch(&workspace(), "widget", "2.0-local", "/abs/widget")
        .unwrap();

    assert_eq!(
        disk.string_at("/w/Cargo.toml", &["patch", "crates-io", "widget", "path"]),
        Some("/abs/widget".to_string())
    );
    assert_eq!(
        disk.string_at("/w/Cargo.toml", &["dependencies", "widget"]),
        Some("1.0".to_string())
    );
    for child in ["/w/one/Cargo.toml", "/w/two/Cargo.toml"] {
        assert_eq!(
            disk.string_at(child, &["dependencies", "widget"]),
            Some("2.0-local".to_string())
        );
        assert_eq!(
            disk.string_at(child, &["dependencies", "serde"]),
            Some("1".to_string())
        );
        assert!(disk.table(child).get("patch").is_none());
    }
    assert_eq!(
        disk.read,
        vec!["/w/Cargo.toml", "/w/one/Cargo.toml", "/w/two/Cargo.toml"]
    );
    assert_eq!(
        disk.written,
        vec!["/w/one/Cargo.toml", "/w/two/Cargo.toml", "/w/Cargo.toml"]
    );
    assert_eq!(disk.files.len(), 3);
}

#[test]
fn single_crate_receives_both_overrides() {
    let mut disk = Disk::new(&[(
        "/app/Cargo.toml",
        "[package]\nname = \"app\"\n\n[dependencies]\nwidget = \"1.0\"\n",
    )]);
    let patcher = LocalOverride::new("/app/Cargo.toml".to_string(), Vec::new());
    disk.patch(&patcher, "widget", "2.0-local", "/abs/widget")
        .unwrap();
    assert_eq!(
        disk.text("/app/Cargo.toml"),
        "[dependencies]\nwidget = \"2.0-local\"\n\n[package]\nname = \"app\"\n[patch.crates-io.widget]\npath = \"/abs/widget\"\n"
    );
    assert_eq!(disk.read, vec!["/app/Cargo.toml"]);
    assert_eq!(disk.written, vec!["/app/Cargo.toml"]);
}

#[test]
fn patching_twice_gives_what_patching_once_gives() {
    let mut disk = Disk::new(&[
        ("/w/Cargo.toml", ROOT),
        ("/w/one/Cargo.toml", CHILD),
        ("/w/two/Cargo.toml", CHILD),
    ]);
    disk.patch(&workspace(), "widget", "2.0-local", "/abs/widget")
        .unwrap();
    let once = disk.files.clone();
    disk.patch(&workspace(), "widget", "2.0-local", "/abs/widget")
        .unwrap();
    assert_eq!(disk.files, once);
}

#[test]
fn missing_dependencies_in_single_crate_leave_the_file_untouched() {
    let text = "[package]\nname = \"app\"\n";
    let mut disk = Disk::new(&[("/app/Cargo.toml", text)]);
    let patcher = LocalOverride::new("/app/Cargo.toml".to_string(), Vec::new());
    let e = disk
        .patch(&patcher, "widget", "2.0-local", "/abs/widget")
        .unwrap_err();
    assert_eq!(e.kind(), ErrorKind::MissingDependencySection);
    assert_eq!(
        e.to_string(),
        "unable to override the version required by /app/Cargo.toml: missing or corrupt dependency section"
    );
    assert_eq!(disk.text("/app/Cargo.toml"), text);
    assert!(disk.written.is_empty());
    assert_eq!(disk.files.len(), 1);
}

#[test]
fn missing_dependencies_in_a_child_end_the_run() {
    let bare = "[package]\nname = \"two\"\n";
    let mut disk = Disk::new(&[
        ("/w/Cargo.toml", ROOT),
        ("/w/one/Cargo.toml", CHILD),
        ("/w/two/Cargo.toml", bare),
    ]);
    let e = disk
        .patch(&workspace(), "widget", "2.0-local", "/abs/widget")
        .unwrap_err();
    assert_eq!(e.kind(), ErrorKind::MissingDependencySection);
    assert_eq!(
        e.message(),
        "unable to override the version required by /w/two/Cargo.toml"
    );
    // the child before it stays patched, the failing child and the root are untouched
    assert_eq!(
        disk.string_at("/w/one/Cargo.toml", &["dependencies", "widget"]),
        Some("2.0-local".to_string())
    );
    assert_eq!(disk.text("/w/two/Cargo.toml"), bare);
    assert_eq!(disk.text("/w/Cargo.toml"), ROOT);
    assert_eq!(disk.written, vec!["/w/one/Cargo.toml"]);
}

#[test]
fn root_with_children_needs_no_dependencies() {
    let mut disk = Disk::new(&[
        ("/w/Cargo.toml", "[workspace]\nmembers = [\"one\", \"two\"]\n"),
        ("/w/one/Cargo.toml", CHILD),
        ("/w/two/Cargo.toml", CHILD),
    ]);
    disk.patch(&workspace(), "widget", "2.0-local", "/abs/widget")
        .unwrap();
    assert_eq!(
        disk.string_at("/w/Cargo.toml", &["patch", "crates-io", "widget", "path"]),
        Some("/abs/widget".to_string())
    );
    assert!(disk.table("/w/Cargo.toml").get("dependencies").is_none());
}

#[test]
fn unreadable_root_is_a_read_error() {
    let mut disk = Disk::new(&[("/w/one/Cargo.toml", CHILD), ("/w/two/Cargo.toml", CHILD)]);
    let e = disk
        .patch(&workspace(), "widget", "2.0-local", "/abs/widget")
        .unwrap_err();
    assert_eq!(e.kind(), ErrorKind::Read);
    assert_eq!(
        e.to_string(),
        "unable to read TOML file /w/Cargo.toml: No such file or directory"
    );
    assert!(disk.written.is_empty());
    assert_eq!(disk.read, vec!["/w/Cargo.toml"]);
}

#[test]
fn malformed_root_is_a_parse_error() {
    let mut disk = Disk::new(&[
        ("/w/Cargo.toml", "[workspace"),
        ("/w/one/Cargo.toml", CHILD),
        ("/w/two/Cargo.toml", CHILD),
    ]);
    let e = disk
        .patch(&workspace(), "widget", "2.0-local", "/abs/widget")
        .unwrap_err();
    assert_eq!(e.kind(), ErrorKind::Parse);
    assert_eq!(e.message(), "unable to parse TOML file /w/Cargo.toml");
    assert!(disk.written.is_empty());
}

#[test]
fn unreadable_child_keeps_earlier_children_written() {
    let mut disk = Disk::new(&[("/w/Cargo.toml", ROOT), ("/w/one/Cargo.toml", CHILD)]);
    let e = disk
        .patch(&workspace(), "widget", "2.0-local", "/abs/widget")
        .unwrap_err();
    assert_eq!(e.kind(), ErrorKind::Read);
    assert_eq!(e.message(), "unable to read TOML file /w/two/Cargo.toml");
    assert_eq!(disk.written, vec!["/w/one/Cargo.toml"]);
    assert_eq!(disk.text("/w/Cargo.toml"), ROOT);
}

#[test]
fn interrupted_write_leaves_the_target_as_it_was() {
    let mut disk = Disk::new(&[
        ("/w/Cargo.toml", ROOT),
        ("/w/one/Cargo.toml", CHILD),
        ("/w/two/Cargo.toml", CHILD),
    ]);
    disk.failing_write = Some("/w/two/Cargo.toml".to_string());
    let e = disk
        .patch(&workspace(), "widget", "2.0-local", "/abs/widget")
        .unwrap_err();
    assert_eq!(e.kind(), ErrorKind::Write);
    assert_eq!(
        e.to_string(),
        "unable to write to TOML file /w/two/Cargo.toml: interrupted"
    );
    // the new text reached the temporary file only
    assert_eq!(disk.text("/w/two/Cargo.toml"), CHILD);
    assert_eq!(
        disk.string_at("/w/two/.cadence-rename", &["dependencies", "widget"]),
        Some("2.0-local".to_string())
    );
    assert_eq!(disk.text("/w/Cargo.toml"), ROOT);
    assert_eq!(disk.written, vec!["/w/one/Cargo.toml"]);
}

#[test]
fn interrupted_write_of_the_root_keeps_the_children() {
    let mut disk = Disk::new(&[
        ("/w/Cargo.toml", ROOT),
        ("/w/one/Cargo.toml", CHILD),
        ("/w/two/Cargo.toml", CHILD),
    ]);
    disk.failing_write = Some("/w/Cargo.toml".to_string());
    let e = disk
        .patch(&workspace(), "widget", "2.0-local", "/abs/widget")
        .unwrap_err();
    assert_eq!(e.kind(), ErrorKind::Write);
    assert_eq!(e.message(), "unable to write to TOML file /w/Cargo.toml");
    assert_eq!(disk.text("/w/Cargo.toml"), ROOT);
    assert_eq!(
        disk.written,
        vec!["/w/one/Cargo.toml", "/w/two/Cargo.toml"]
    );
}

#[test]
fn first_step_reads_the_root() {
    let step = workspace().patch("widget", "2.0", "/abs", PatchState::Start, PatchEvent::Begin);
    match step {
        PatchStep::Read { path, state } => {
            assert_eq!(path, "/w/Cargo.toml");
            assert!(matches!(state, PatchState::RootRequested));
        }
        other => panic!("expected a read, found {:?}", other),
    }
}

#[test]
fn root_contents_lead_to_the_first_child() {
    let step = workspace().patch(
        "widget",
        "2.0",
        "/abs",
        PatchState::RootRequested,
        PatchEvent::Contents(ROOT.to_string()),
    );
    match step {
        PatchStep::Read { path, state } => {
            assert_eq!(path, "/w/one/Cargo.toml");
            match state {
                PatchState::ChildRequested { root, index } => {
                    assert_eq!(index, 0);
                    assert!(root.contains_key("patch"));
                    assert!(root.contains_key("workspace"));
                }
                other => panic!("expected a child to be requested, found {:?}", other),
            }
        }
        other => panic!("expected a read, found {:?}", other),
    }
}

#[test]
fn child_contents_lead_to_its_write() {
    let step = workspace().patch(
        "widget",
        "2.0",
        "/abs",
        PatchState::ChildRequested { root: Table::new(), index: 1 },
        PatchEvent::Contents(CHILD.to_string()),
    );
    match step {
        PatchStep::Write { request, state } => {
            assert_eq!(request.path, "/w/two/Cargo.toml");
            assert_eq!(request.tmp_path, "/w/two/.cadence-rename");
            assert_eq!(
                request.contents,
                "[dependencies]\nserde = \"1\"\nwidget = \"2.0\"\n\n[package]\nname = \"member\"\n"
            );
            assert!(matches!(state, PatchState::ChildWriting { index: 1, .. }));
        }
        other => panic!("expected a write, found {:?}", other),
    }
}

#[test]
fn last_child_written_leads_to_the_write_of_the_root() {
    let mut root = Table::new();
    root.insert("kept".to_string(), Item::Boolean(true));
    let step = workspace().patch(
        "widget",
        "2.0",
        "/abs",
        PatchState::ChildWriting { root, index: 1 },
        PatchEvent::Written,
    );
    match step {
        PatchStep::Write { request, state } => {
            assert_eq!(request.path, "/w/Cargo.toml");
            assert_eq!(request.contents, "kept = true\n");
            assert!(matches!(state, PatchState::RootWriting));
        }
        other => panic!("expected a write, found {:?}", other),
    }
}

#[test]
fn child_written_leads_to_the_next_child() {
    let step = workspace().patch(
        "widget",
        "2.0",
        "/abs",
        PatchState::ChildWriting { root: Table::new(), index: 0 },
        PatchEvent::Written,
    );
    match step {
        PatchStep::Read { path, state } => {
            assert_eq!(path, "/w/two/Cargo.toml");
            assert!(matches!(state, PatchState::ChildRequested { index: 1, .. }));
        }
        other => panic!("expected a read, found {:?}", other),
    }
}

#[test]
fn root_written_ends_the_run() {
    let step = workspace().patch(
        "widget",
        "2.0",
        "/abs",
        PatchState::RootWriting,
        PatchEvent::Written,
    );
    assert!(matches!(step, PatchStep::Done));
}

#[test]
fn an_event_that_does_not_answer_a_read_is_a_read_error() {
    for event in [PatchEvent::Begin, PatchEvent::Written] {
        let step = workspace().patch("widget", "2.0", "/abs", PatchState::RootRequested, event);
        match step {
            PatchStep::Failed(e) => {
                assert_eq!(e.kind(), ErrorKind::Read);
                assert_eq!(e.to_string(), "unable to read TOML file /w/Cargo.toml");
            }
            other => panic!("expected a failure, found {:?}", other),
        }
    }
}

#[test]
fn an_event_that_does_not_answer_a_write_is_a_write_error() {
    for event in [PatchEvent::Begin, PatchEvent::Contents("x = 1".to_string())] {
        let step = workspace().patch("widget", "2.0", "/abs", PatchState::RootWriting, event);
        match step {
            PatchStep::Failed(e) => {
                assert_eq!(e.kind(), ErrorKind::Write);
                assert_eq!(e.to_string(), "unable to write to TOML file /w/Cargo.toml");
            }
            other => panic!("expected a failure, found {:?}", other),
        }
    }
}

#[test]
fn an_index_past_the_last_child_turns_to_the_root() {
    for state in [
        PatchState::ChildRequested { root: Table::new(), index: 2 },
        PatchState::ChildWriting { root: Table::new(), index: 7 },
    ] {
        let step = workspace().patch("widget", "2.0", "/abs", state, PatchEvent::Written);
        match step {
            PatchStep::Write { request, state } => {
                assert_eq!(request.path, "/w/Cargo.toml");
                assert_eq!(request.contents, "");
                assert!(matches!(state, PatchState::RootWriting));
            }
            other => panic!("expected a write, found {:?}", other),
        }
    }
}

#[test]
fn a_root_without_a_parent_cannot_be_written() {
    let patcher = LocalOverride::new("/".to_string(), Vec::new());
    let step = patcher.patch(
        "widget",
        "2.0",
        "/abs",
        PatchState::RootRequested,
        PatchEvent::Contents("[dependencies]\n".to_string()),
    );
    match step {
        PatchStep::Failed(e) => {
            assert_eq!(e.kind(), ErrorKind::PathResolution);
            assert_eq!(e.to_string(), "could not determine parent of /");
        }
        other => panic!("expected a failure, found {:?}", other),
    }
}
