//! Patching the manifests of a project so that it builds against the local
//! crate.
//!
//! A patch reads and writes files, which this crate leaves to its caller.
//! [`LocalOverride::patch`] is therefore a step function: it takes the state
//! of a run and the outcome of the last step, and returns the next thing to
//! do together with the state to come back with. A run starts from
//! [`PatchState::Start`] and ends with [`PatchStep::Done`] or
//! [`PatchStep::Failed`].
//!
//! The root manifest is read first and written last. It always receives the
//! source override. Where the project has sub-crates, each of them is read,
//! receives the version override and is written, one after the other, and
//! the root keeps its own requirement; where it has none, the root receives
//! the version override too. A failure ends the run; manifests written
//! before it stay written.

use vstd::prelude::*;
use crate::document::Table;
use crate::error::CraterError;
use crate::error::ErrorKind;
use crate::error::Failure;
use crate::manifest::Manifest;
use crate::manifest::WritePlan;
use crate::manifest::WriteRequest;
use crate::manifest::load_cargo_toml;
use crate::manifest::loaded;
use crate::manifest::manifest_outcome;
use crate::manifest::message;
use crate::manifest::missing_dependencies;
use crate::manifest::override_source;
use crate::manifest::override_version;
use crate::manifest::read_error;
use crate::manifest::read_failure;
use crate::manifest::source_overridden;
use crate::manifest::version_overridden;
use crate::manifest::write_cargo_toml;
use crate::manifest::write_error;
use crate::manifest::write_failure;
use crate::manifest::write_plan;

verus! {

/// The manifests of a project, as mathematics: the path of the root manifest
/// and the paths of the manifests of its sub-crates, in order.
pub ghost struct Targets {
    pub root: Seq<char>,
    pub crates: Seq<Seq<char>>,
}

/// What came back from the step before, as mathematics.
pub ghost enum PatchEventModel {
    Begin,
    Contents(Seq<char>),
    Written,
    Failed(Seq<char>),
}

/// The state of a run, as mathematics.
pub ghost enum PatchStateModel {
    Start,
    RootRequested,
    ChildRequested { root: Manifest, index: int },
    ChildWriting { root: Manifest, index: int },
    RootWriting,
}

/// The next thing to do, as mathematics.
pub ghost enum PatchStepModel {
    Read { path: Seq<char>, state: PatchStateModel },
    Write { plan: WritePlan, state: PatchStateModel },
    Done,
    Failed(Failure),
}

/// The manifest that a requested read brought, or the error for the path.
/// Anything but contents counts as a read that failed.
pub open spec fn read_outcome(path: Seq<char>, event: PatchEventModel) -> Result<Manifest, Failure> {
    match event {
        PatchEventModel::Contents(text) => loaded(path, Ok(text)),
        PatchEventModel::Failed(reason) => Err(read_failure(path, Some(reason))),
        _ => Err(read_failure(path, None)),
    }
}

/// The error of a requested write, if it did not succeed. Anything but the
/// confirmation counts as a write that failed.
pub open spec fn write_result(path: Seq<char>, event: PatchEventModel) -> Option<Failure> {
    match event {
        PatchEventModel::Written => None,
        PatchEventModel::Failed(reason) => Some(write_failure(path, Some(reason))),
        _ => Some(write_failure(path, None)),
    }
}

/// The error for a manifest that cannot receive the version override.
pub open spec fn version_failure(path: Seq<char>) -> Failure {
    Failure::wrap(
        ErrorKind::MissingDependencySection,
        "unable to override the version required by "@ + path,
        missing_dependencies(),
    )
}

/// The step that writes a document to a manifest, or the failure to prepare
/// that write.
pub open spec fn write_step(path: Seq<char>, doc: Manifest, state: PatchStateModel) -> PatchStepModel {
    match write_plan(path, doc) {
        Ok(plan) => PatchStepModel::Write { plan, state },
        Err(e) => PatchStepModel::Failed(e),
    }
}

/// The step that gives a manifest the version override and writes it.
pub open spec fn version_step(
    path: Seq<char>,
    doc: Manifest,
    name: Seq<char>,
    version: Seq<char>,
    state: PatchStateModel,
) -> PatchStepModel {
    match version_overridden(doc, name, version) {
        Some(done) => write_step(path, done, state),
        None => PatchStepModel::Failed(version_failure(path)),
    }
}

/// The step that turns to the sub-crate at `index`: its manifest is read
/// next; where no sub-crate is left, the root manifest is written.
pub open spec fn child_step(targets: Targets, root: Manifest, index: int) -> PatchStepModel {
    if 0 <= index < targets.crates.len() {
        PatchStepModel::Read { path: targets.crates[index], state: PatchStateModel::ChildRequested { root, index } }
    } else {
        write_step(targets.root, root, PatchStateModel::RootWriting)
    }
}

/// The transition function of a patch: the step that follows the given
/// state and event, for the local crate `name` at `version` in `path`.
pub open spec fn patch_step(
    targets: Targets,
    name: Seq<char>,
    version: Seq<char>,
    path: Seq<char>,
    state: PatchStateModel,
    event: PatchEventModel,
) -> PatchStepModel {
    match state {
        PatchStateModel::Start => PatchStepModel::Read { path: targets.root, state: PatchStateModel::RootRequested },
        PatchStateModel::RootRequested => match read_outcome(targets.root, event) {
            Err(e) => PatchStepModel::Failed(e),
            Ok(doc) => {
                let redirected = source_overridden(doc, name, path);
                if targets.crates.len() == 0 {
                    version_step(targets.root, redirected, name, version, PatchStateModel::RootWriting)
                } else {
                    child_step(targets, redirected, 0)
                }
            },
        },
        PatchStateModel::ChildRequested { root, index } => {
            if 0 <= index < targets.crates.len() {
                match read_outcome(targets.crates[index], event) {
                    Err(e) => PatchStepModel::Failed(e),
                    Ok(doc) => version_step(
                        targets.crates[index],
                        doc,
                        name,
                        version,
                        PatchStateModel::ChildWriting { root, index },
                    ),
                }
            } else {
                child_step(targets, root, index)
            }
        },
        PatchStateModel::ChildWriting { root, index } => {
            if 0 <= index < targets.crates.len() {
                match write_result(targets.crates[index], event) {
                    Some(e) => PatchStepModel::Failed(e),
                    None => child_step(targets, root, index + 1),
                }
            } else {
                child_step(targets, root, index)
            }
        },
        PatchStateModel::RootWriting => match write_result(targets.root, event) {
            Some(e) => PatchStepModel::Failed(e),
            None => PatchStepModel::Done,
        },
    }
}

/// What came back from the step before.
#[derive(Debug)]
pub enum PatchEvent {
    /// Nothing yet: the run begins.
    Begin,
    /// The text of the file that was to be read.
    Contents(String),
    /// The write that was asked for is on disk under its final name.
    Written,
    /// The read or write that was asked for failed, for the given reason.
    Failed(String),
}

impl View for PatchEvent {
    type V = PatchEventModel;

    open spec fn view(&self) -> PatchEventModel {
        match self {
            PatchEvent::Begin => PatchEventModel::Begin,
            PatchEvent::Contents(text) => PatchEventModel::Contents(text@),
            PatchEvent::Written => PatchEventModel::Written,
            PatchEvent::Failed(reason) => PatchEventModel::Failed(reason@),
        }
    }
}

/// The state of a run between two steps.
#[derive(Debug)]
pub enum PatchState {
    /// Nothing has been done.
    Start,
    /// The root manifest is being read.
    RootRequested,
    /// The manifest of the sub-crate at `index` is being read. `root` is the
    /// root manifest with its source override.
    ChildRequested { root: Table, index: usize },
    /// The manifest of the sub-crate at `index` is being written.
    ChildWriting { root: Table, index: usize },
    /// The root manifest is being written.
    RootWriting,
}

impl View for PatchState {
    type V = PatchStateModel;

    open spec fn view(&self) -> PatchStateModel {
        match self {
            PatchState::Start => PatchStateModel::Start,
            PatchState::RootRequested => PatchStateModel::RootRequested,
            PatchState::ChildRequested { root, index } => PatchStateModel::ChildRequested {
                root: root@,
                index: *index as int,
            },
            PatchState::ChildWriting { root, index } => PatchStateModel::ChildWriting {
                root: root@,
                index: *index as int,
            },
            PatchState::RootWriting => PatchStateModel::RootWriting,
        }
    }
}

/// The next thing to do in a run.
#[derive(Debug)]
pub enum PatchStep {
    /// Read the file at `path` and come back with its contents.
    Read { path: String, state: PatchState },
    /// Carry out the write and come back when it is done.
    Write { request: WriteRequest, state: PatchState },
    /// Every manifest is written.
    Done,
    /// The run ended with an error.
    Failed(CraterError),
}

impl View for PatchStep {
    type V = PatchStepModel;

    open spec fn view(&self) -> PatchStepModel {
        match self {
            PatchStep::Read { path, state } => PatchStepModel::Read { path: path@, state: state@ },
            PatchStep::Write { request, state } => PatchStepModel::Write { plan: request@, state: state@ },
            PatchStep::Done => PatchStepModel::Done,
            PatchStep::Failed(e) => PatchStepModel::Failed(e@),
        }
    }
}

/// The texts of a list of strings.
pub open spec fn texts(strings: Seq<String>) -> Seq<Seq<char>> {
    strings.map_values(|s: String| s@)
}

/// Patches the manifests of a project to use a local crate.
#[derive(Debug)]
pub struct LocalOverride {
    root: String,
    crates: Vec<String>,
}

impl View for LocalOverride {
    type V = Targets;

    closed spec fn view(&self) -> Targets {
        Targets { root: self.root@, crates: texts(self.crates@) }
    }
}

/// The manifest that a requested read brought.
fn read_manifest(path: &str, event: PatchEvent) -> (r: Result<Table, CraterError>)
    ensures
        manifest_outcome(r) == read_outcome(path@, event@),
{
    match event {
        PatchEvent::Contents(text) => load_cargo_toml(path, Ok(text)),
        PatchEvent::Failed(reason) => Err(read_error(path, Some(reason))),
        _ => Err(read_error(path, None)),
    }
}

/// The error of a requested write, if it did not succeed.
fn written(path: &str, event: PatchEvent) -> (r: Option<CraterError>)
    ensures
        match r {
            Some(e) => write_result(path@, event@) == Some(e@),
            None => write_result(path@, event@) is None,
        },
{
    match event {
        PatchEvent::Written => None,
        PatchEvent::Failed(reason) => Some(write_error(path, Some(reason))),
        _ => Some(write_error(path, None)),
    }
}

/// The step that writes a document to a manifest.
fn write_manifest(path: &str, doc: Table, state: PatchState) -> (step: PatchStep)
    ensures
        step@ == write_step(path@, doc@, state@),
{
    match write_cargo_toml(path, doc) {
        Ok(request) => PatchStep::Write { request, state },
        Err(e) => PatchStep::Failed(e),
    }
}

/// The step that gives a manifest the version override and writes it.
fn write_version(path: &str, doc: Table, name: &str, version: &str, state: PatchState) -> (step:
    PatchStep)
    ensures
        step@ == version_step(path@, doc@, name@, version@, state@),
{
    let mut doc = doc;
    match override_version(&mut doc, name, version) {
        Ok(()) => write_manifest(path, doc, state),
        Err(cause) => PatchStep::Failed(
            CraterError::new_err(
                ErrorKind::MissingDependencySection,
                message("unable to override the version required by ", path),
                cause,
            ),
        ),
    }
}

impl LocalOverride {
    /// A patcher for the project with the given root manifest and the
    /// manifests of its sub-crates. A workspace passes the manifest of the
    /// workspace as `root` and the manifest of each member to be patched in
    /// `crates`; a single crate passes its manifest and no sub-crates.
    pub fn new(root: String, crates: Vec<String>) -> (patcher: LocalOverride)
        ensures
            patcher@ == (Targets { root: root@, crates: texts(crates@) }),
    {
        LocalOverride { root, crates }
    }

    /// The step that turns to the sub-crate at `index`.
    fn child(&self, root: Table, index: usize) -> (step: PatchStep)
        ensures
            step@ == child_step(self@, root@, index as int),
    {
        if index < self.crates.len() {
            PatchStep::Read {
                path: self.crates[index].clone(),
                state: PatchState::ChildRequested { root, index },
            }
        } else {
            write_manifest(self.root.as_str(), root, PatchState::RootWriting)
        }
    }

    /// Takes a run one step further.
    ///
    /// `name` is the name of the local crate, `version` the version that its
    /// manifest declares, and `path` the directory it lies in; they are the
    /// same at every step of a run. `state` is the state that the step
    /// before returned, `PatchState::Start` at first; `event` is what
    /// carrying out that step gave. An event that does not answer the step
    /// counts as its failure, and a state whose index names no sub-crate as
    /// all sub-crates done.
    pub fn patch(
        &self,
        name: &str,
        version: &str,
        path: &str,
        state: PatchState,
        event: PatchEvent,
    ) -> (step: PatchStep)
        ensures
            step@ == patch_step(self@, name@, version@, path@, state@, event@),
    {
        match state {
            PatchState::Start => PatchStep::Read {
                path: self.root.clone(),
                state: PatchState::RootRequested,
            },
            PatchState::RootRequested => match read_manifest(self.root.as_str(), event) {
                Err(e) => PatchStep::Failed(e),
                Ok(doc) => {
                    let mut root = doc;
                    override_source(&mut root, name, path);
                    if self.crates.len() == 0 {
                        write_version(
                            self.root.as_str(),
                            root,
                            name,
                            version,
                            PatchState::RootWriting,
                        )
                    } else {
                        self.child(root, 0)
                    }
                },
            },
            PatchState::ChildRequested { root, index } => {
                if index < self.crates.len() {
                    match read_manifest(self.crates[index].as_str(), event) {
                        Err(e) => PatchStep::Failed(e),
                        Ok(doc) => write_version(
                            self.crates[index].as_str(),
                            doc,
                            name,
                            version,
                            PatchState::ChildWriting { root, index },
                        ),
                    }
                } else {
                    self.child(root, index)
                }
            },
            PatchState::ChildWriting { root, index } => {
                if index < self.crates.len() {
                    match written(self.crates[index].as_str(), event) {
                        Some(e) => PatchStep::Failed(e),
                        None => self.child(root, index + 1),
                    }
                } else {
                    self.child(root, index)
                }
            },
            PatchState::RootWriting => match written(self.root.as_str(), event) {
                Some(e) => PatchStep::Failed(e),
                None => PatchStep::Done,
            },
        }
    }
}

/// The manifest that is awaited in a state and is to receive the version
/// override: the root manifest of a project without sub-crates, or the
/// manifest of the sub-crate that is being read.
pub open spec fn awaited_for_version(targets: Targets, state: PatchStateModel) -> Option<Seq<char>> {
    match state {
        PatchStateModel::RootRequested => if targets.crates.len() == 0 {
            Some(targets.root)
        } else {
            None
        },
        PatchStateModel::ChildRequested { root, index } => if 0 <= index < targets.crates.len() {
            Some(targets.crates[index])
        } else {
            None
        },
        _ => None,
    }
}

/// The manifest has no `dependencies` table.
pub open spec fn lacks_dependencies(doc: Manifest) -> bool {
    !(doc.contains_key("dependencies"@) && doc["dependencies"@] is Table)
}

/// A manifest without a `dependencies` table that is to receive the version
/// override ends the run with an error of the kind
/// `MissingDependencySection`. No write is asked for, so the file stays as
/// it was.
pub proof fn missing_dependencies_fail_closed(
    targets: Targets,
    name: Seq<char>,
    version: Seq<char>,
    path: Seq<char>,
    state: PatchStateModel,
    event: PatchEventModel,
    awaited: Seq<char>,
    doc: Manifest,
)
    requires
        awaited_for_version(targets, state) == Some(awaited),
        read_outcome(awaited, event) == Ok::<Manifest, Failure>(doc),
        lacks_dependencies(doc),
    ensures
        patch_step(targets, name, version, path, state, event) == PatchStepModel::Failed(
            version_failure(awaited),
        ),
        version_failure(awaited).kind == ErrorKind::MissingDependencySection,
{
    reveal_strlit("patch");
    reveal_strlit("dependencies");
    assert("patch"@.len() != "dependencies"@.len());
}

} // verus!
