//! What a whole patch does to the files of a project.
//!
//! [`crate::patch::patch_step`] says what one step of a patch is. This
//! module follows the steps on a disk that carries each of them out, and
//! states what the disk holds when the run is over.

use vstd::prelude::*;
use crate::error::ErrorKind;
use crate::error::Failure;
use crate::manifest::Manifest;
use crate::manifest::WritePlan;
use crate::manifest::loaded;
use crate::manifest::read_failure;
use crate::manifest::source_overridden;
use crate::manifest::version_overridden;
use crate::manifest::write_plan;
use crate::patch::PatchEventModel;
use crate::patch::PatchStateModel;
use crate::patch::PatchStepModel;
use crate::patch::Targets;
use crate::patch::child_step;
use crate::patch::lacks_dependencies;
use crate::patch::patch_step;
use crate::patch::read_outcome;
use crate::patch::version_failure;

verus! {

/// The files of a project: the text that each path holds.
pub type Disk = Map<Seq<char>, Seq<char>>;

/// What carrying out a step gives, and the disk after it, where reading a
/// file that exists and writing any file succeed.
pub open spec fn carried_out(step: PatchStepModel, disk: Disk) -> (PatchEventModel, Disk) {
    match step {
        PatchStepModel::Read { path, .. } => if disk.contains_key(path) {
            (PatchEventModel::Contents(disk[path]), disk)
        } else {
            (PatchEventModel::Failed("no such file"@), disk)
        },
        PatchStepModel::Write { plan, .. } => (
            PatchEventModel::Written,
            disk.insert(plan.path, plan.contents),
        ),
        _ => (PatchEventModel::Begin, disk),
    }
}

/// The state to come back with after a step, where the run goes on.
pub open spec fn pending(step: PatchStepModel) -> Option<PatchStateModel> {
    match step {
        PatchStepModel::Read { state, .. } => Some(state),
        PatchStepModel::Write { state, .. } => Some(state),
        _ => None,
    }
}

/// The step at which a run stops and the disk it leaves, when at most
/// `fuel` steps are carried out, the given one first.
pub open spec fn run_from(
    targets: Targets,
    name: Seq<char>,
    version: Seq<char>,
    path: Seq<char>,
    step: PatchStepModel,
    disk: Disk,
    fuel: nat,
) -> (PatchStepModel, Disk)
    decreases fuel,
{
    if fuel > 0 && pending(step) is Some {
        let (event, after) = carried_out(step, disk);
        let next = patch_step(targets, name, version, path, pending(step)->0, event);
        run_from(targets, name, version, path, next, after, (fuel - 1) as nat)
    } else {
        (step, disk)
    }
}

/// The end of a patch on a disk: the last step, and the disk as the run
/// leaves it. A run reads the root manifest, reads and writes the manifest
/// of each sub-crate, and writes the root manifest.
pub open spec fn run(
    targets: Targets,
    name: Seq<char>,
    version: Seq<char>,
    path: Seq<char>,
    disk: Disk,
) -> (PatchStepModel, Disk) {
    let first = patch_step(
        targets,
        name,
        version,
        path,
        PatchStateModel::Start,
        PatchEventModel::Begin,
    );
    run_from(targets, name, version, path, first, disk, 2 * targets.crates.len() + 2)
}

/// The manifest that a path holds on a disk.
pub open spec fn manifest_on(disk: Disk, path: Seq<char>) -> Result<Manifest, Failure> {
    if disk.contains_key(path) {
        loaded(path, Ok(disk[path]))
    } else {
        Err(read_failure(path, Some("no such file"@)))
    }
}

/// The write that gives the manifest at `path` its version override.
pub open spec fn version_plan(
    path: Seq<char>,
    doc: Manifest,
    name: Seq<char>,
    version: Seq<char>,
) -> Result<WritePlan, Failure> {
    match version_overridden(doc, name, version) {
        Some(done) => write_plan(path, done),
        None => Err(version_failure(path)),
    }
}

/// The write that a patch makes to the manifest of the sub-crate at `index`:
/// the manifest as it is on the disk, with the version override.
pub open spec fn child_plan(
    targets: Targets,
    name: Seq<char>,
    version: Seq<char>,
    disk: Disk,
    index: int,
) -> Result<WritePlan, Failure> {
    match manifest_on(disk, targets.crates[index]) {
        Ok(doc) => version_plan(targets.crates[index], doc, name, version),
        Err(e) => Err(e),
    }
}

/// The root manifest as a patch writes it: the manifest as it is on the
/// disk with the source override, and with the version override as well
/// where the project has no sub-crates.
pub open spec fn root_plan(
    targets: Targets,
    name: Seq<char>,
    version: Seq<char>,
    path: Seq<char>,
    disk: Disk,
) -> Result<WritePlan, Failure> {
    match manifest_on(disk, targets.root) {
        Ok(doc) => {
            let redirected = source_overridden(doc, name, path);
            if targets.crates.len() == 0 {
                version_plan(targets.root, redirected, name, version)
            } else {
                write_plan(targets.root, redirected)
            }
        },
        Err(e) => Err(e),
    }
}

/// A file is on one disk as it is on the other: there with the same text, or
/// missing.
pub open spec fn unchanged(after: Disk, before: Disk, file: Seq<char>) -> bool {
    &&& after.contains_key(file) == before.contains_key(file)
    &&& before.contains_key(file) ==> after[file] == before[file]
}

/// No manifest is named twice.
pub open spec fn distinct_manifests(targets: Targets) -> bool {
    &&& forall|i: int| 0 <= i < targets.crates.len() ==> #[trigger] targets.crates[i] != targets.root
    &&& forall|i: int, j: int|
        0 <= i < j < targets.crates.len() ==> #[trigger] targets.crates[i]
            != #[trigger] targets.crates[j]
}

/// Every manifest of the project can be patched: each is on the disk and is
/// a TOML document, each that receives the version override has a
/// `dependencies` table, and each can be written back.
pub open spec fn patchable(
    targets: Targets,
    name: Seq<char>,
    version: Seq<char>,
    path: Seq<char>,
    disk: Disk,
) -> bool {
    &&& distinct_manifests(targets)
    &&& root_plan(targets, name, version, path, disk) is Ok
    &&& forall|i: int|
        0 <= i < targets.crates.len() ==> #[trigger] child_plan(targets, name, version, disk, i) is Ok
}

/// The disk after the first `count` sub-crates were patched.
pub open spec fn children_patched(
    targets: Targets,
    name: Seq<char>,
    version: Seq<char>,
    disk: Disk,
    count: int,
) -> Disk
    decreases count,
{
    if count <= 0 {
        disk
    } else {
        children_patched(targets, name, version, disk, count - 1).insert(
            targets.crates[count - 1],
            child_plan(targets, name, version, disk, count - 1)->Ok_0.contents,
        )
    }
}

/// The disk after the whole project was patched.
pub open spec fn patched(
    targets: Targets,
    name: Seq<char>,
    version: Seq<char>,
    path: Seq<char>,
    disk: Disk,
) -> Disk {
    children_patched(targets, name, version, disk, targets.crates.len() as int).insert(
        targets.root,
        root_plan(targets, name, version, path, disk)->Ok_0.contents,
    )
}

/// After the first `count` sub-crates were patched, each of them holds its
/// patched text and every other file is as it was.
pub proof fn lemma_children_patched(
    targets: Targets,
    name: Seq<char>,
    version: Seq<char>,
    disk: Disk,
    count: int,
    file: Seq<char>,
)
    requires
        distinct_manifests(targets),
        0 <= count <= targets.crates.len(),
    ensures
        ({
            let after = children_patched(targets, name, version, disk, count);
            &&& (forall|i: int| 0 <= i < count ==> targets.crates[i] != file) ==> unchanged(
                after,
                disk,
                file,
            )
            &&& forall|i: int|
                0 <= i < count && targets.crates[i] == file ==> after.contains_key(file)
                    && after[file] == child_plan(targets, name, version, disk, i)->Ok_0.contents
        }),
    decreases count,
{
    if count > 0 {
        lemma_children_patched(targets, name, version, disk, count - 1, file);
        let after = children_patched(targets, name, version, disk, count);
        assert forall|i: int| 0 <= i < count && targets.crates[i] == file implies after.contains_key(
            file,
        ) && after[file] == child_plan(targets, name, version, disk, i)->Ok_0.contents by {
            if i < count - 1 {
                assert(targets.crates[i] != targets.crates[count - 1]);
            }
        }
    }
}

/// The end of a run from the sub-crate at `index` on: the first sub-crate
/// that cannot be patched ends the run with its error and leaves the disk
/// as the sub-crates before it made it; where there is none, the root
/// manifest is written, or its error ends the run.
pub open spec fn children_end(
    targets: Targets,
    name: Seq<char>,
    version: Seq<char>,
    path: Seq<char>,
    disk: Disk,
    index: int,
) -> (PatchStepModel, Disk)
    decreases targets.crates.len() - index,
{
    let before = children_patched(targets, name, version, disk, index);
    if 0 <= index < targets.crates.len() {
        match child_plan(targets, name, version, disk, index) {
            Ok(_) => children_end(targets, name, version, path, disk, index + 1),
            Err(e) => (PatchStepModel::Failed(e), before),
        }
    } else {
        match root_plan(targets, name, version, path, disk) {
            Ok(plan) => (PatchStepModel::Done, before.insert(targets.root, plan.contents)),
            Err(e) => (PatchStepModel::Failed(e), before),
        }
    }
}

/// The end of a patch, as documented: a root manifest that cannot be
/// loaded ends the run before anything is written; otherwise the
/// sub-crates are patched in order, and the root manifest last.
pub open spec fn documented_end(
    targets: Targets,
    name: Seq<char>,
    version: Seq<char>,
    path: Seq<char>,
    disk: Disk,
) -> (PatchStepModel, Disk) {
    match manifest_on(disk, targets.root) {
        Err(e) => (PatchStepModel::Failed(e), disk),
        Ok(_) => children_end(targets, name, version, path, disk, 0),
    }
}

/// A write that was planned for a path goes to that path.
proof fn lemma_plan_path(path: Seq<char>, doc: Manifest)
    ensures
        write_plan(path, doc) matches Ok(plan) ==> plan.path == path,
{
}

/// The write of the root manifest ends the run.
proof fn lemma_root_written(
    targets: Targets,
    name: Seq<char>,
    version: Seq<char>,
    path: Seq<char>,
    before: Disk,
    plan: WritePlan,
    fuel: nat,
)
    requires
        plan.path == targets.root,
        fuel >= 1,
    ensures
        run_from(
            targets,
            name,
            version,
            path,
            PatchStepModel::Write { plan, state: PatchStateModel::RootWriting },
            before,
            fuel,
        ) == (PatchStepModel::Done, before.insert(targets.root, plan.contents)),
{
    let last = PatchStepModel::Write { plan, state: PatchStateModel::RootWriting };
    let after = before.insert(targets.root, plan.contents);
    assert(carried_out(last, before) == (PatchEventModel::Written, after));
    assert(patch_step(
        targets,
        name,
        version,
        path,
        PatchStateModel::RootWriting,
        PatchEventModel::Written,
    ) == PatchStepModel::Done);
    assert(run_from(targets, name, version, path, PatchStepModel::Done, after, (fuel - 1) as nat)
        == (PatchStepModel::Done, after));
}

/// The step that turns to the sub-crate at `index`, carried through to the
/// end of the run.
proof fn lemma_children_run(
    targets: Targets,
    name: Seq<char>,
    version: Seq<char>,
    path: Seq<char>,
    disk: Disk,
    index: int,
)
    requires
        distinct_manifests(targets),
        manifest_on(disk, targets.root) is Ok,
        targets.crates.len() > 0,
        0 <= index <= targets.crates.len(),
    ensures
        run_from(
            targets,
            name,
            version,
            path,
            child_step(
                targets,
                source_overridden(manifest_on(disk, targets.root)->Ok_0, name, path),
                index,
            ),
            children_patched(targets, name, version, disk, index),
            (2 * (targets.crates.len() - index) + 1) as nat,
        ) == children_end(targets, name, version, path, disk, index),
    decreases targets.crates.len() - index,
{
    let n = targets.crates.len() as int;
    let root = source_overridden(manifest_on(disk, targets.root)->Ok_0, name, path);
    let before = children_patched(targets, name, version, disk, index);
    let fuel = (2 * (n - index) + 1) as nat;
    let turn = child_step(targets, root, index);
    if index < n {
        let child = targets.crates[index];
        let requested = PatchStateModel::ChildRequested { root, index };
        assert(turn == PatchStepModel::Read { path: child, state: requested });

        // the manifest of the sub-crate is still as it was
        lemma_children_patched(targets, name, version, disk, index, child);
        let event = carried_out(turn, before).0;
        assert(read_outcome(child, event) == manifest_on(disk, child));

        // it receives the version override and is written, or the run ends
        let next = patch_step(targets, name, version, path, requested, event);
        assert(run_from(targets, name, version, path, turn, before, fuel) == run_from(
            targets,
            name,
            version,
            path,
            next,
            before,
            (fuel - 1) as nat,
        ));
        match child_plan(targets, name, version, disk, index) {
            Err(e) => {
                assert(next == PatchStepModel::Failed(e));
            },
            Ok(plan) => {
                let doc = manifest_on(disk, child)->Ok_0;
                lemma_plan_path(child, version_overridden(doc, name, version)->0);
                let written = PatchStateModel::ChildWriting { root, index };
                assert(next == PatchStepModel::Write { plan, state: written });
                let after = children_patched(targets, name, version, disk, index + 1);
                assert(carried_out(next, before) == (PatchEventModel::Written, after));
                assert(patch_step(
                    targets,
                    name,
                    version,
                    path,
                    written,
                    PatchEventModel::Written,
                ) == child_step(targets, root, index + 1));
                assert(run_from(targets, name, version, path, next, before, (fuel - 1) as nat)
                    == run_from(
                    targets,
                    name,
                    version,
                    path,
                    child_step(targets, root, index + 1),
                    after,
                    (fuel - 2) as nat,
                ));
                lemma_children_run(targets, name, version, path, disk, index + 1);
            },
        }
    } else {
        match root_plan(targets, name, version, path, disk) {
            Err(e) => {
                assert(turn == PatchStepModel::Failed(e));
            },
            Ok(plan) => {
                lemma_plan_path(targets.root, root);
                lemma_root_written(targets, name, version, path, before, plan, fuel);
            },
        }
    }
}

/// A patch does what is documented. A root manifest that cannot be loaded
/// ends the run before anything is written. Otherwise the sub-crates are
/// patched in order, each from the manifest that the disk held at the
/// start; the first that cannot be patched ends the run, and the manifests
/// written before it stay written. The root manifest is written last.
pub proof fn patch_runs_as_documented(
    targets: Targets,
    name: Seq<char>,
    version: Seq<char>,
    path: Seq<char>,
    disk: Disk,
)
    requires
        distinct_manifests(targets),
    ensures
        run(targets, name, version, path, disk) == documented_end(
            targets,
            name,
            version,
            path,
            disk,
        ),
{
    let n = targets.crates.len() as int;
    let first = PatchStepModel::Read { path: targets.root, state: PatchStateModel::RootRequested };
    let event = carried_out(first, disk).0;
    assert(read_outcome(targets.root, event) == manifest_on(disk, targets.root));
    let second = patch_step(targets, name, version, path, PatchStateModel::RootRequested, event);
    assert(run(targets, name, version, path, disk) == run_from(
        targets,
        name,
        version,
        path,
        second,
        disk,
        (2 * n + 1) as nat,
    ));
    match manifest_on(disk, targets.root) {
        Err(e) => {
            assert(second == PatchStepModel::Failed(e));
        },
        Ok(doc) => {
            let redirected = source_overridden(doc, name, path);
            if n == 0 {
                match root_plan(targets, name, version, path, disk) {
                    Err(e) => {
                        assert(second == PatchStepModel::Failed(e));
                    },
                    Ok(plan) => {
                        lemma_plan_path(
                            targets.root,
                            version_overridden(redirected, name, version)->0,
                        );
                        lemma_root_written(targets, name, version, path, disk, plan, 1);
                    },
                }
            } else {
                lemma_children_run(targets, name, version, path, disk, 0);
            }
        },
    }
}

/// Where every manifest of a project can be patched, the patch runs to its
/// end. Afterwards the manifest of each sub-crate holds what it held with
/// the version override applied; the root manifest holds what it held with
/// the source override applied, and with the version override too where the
/// project has no sub-crates; and every other file is as it was.
pub proof fn patch_runs_to_completion(
    targets: Targets,
    name: Seq<char>,
    version: Seq<char>,
    path: Seq<char>,
    disk: Disk,
)
    requires
        patchable(targets, name, version, path, disk),
    ensures
        run(targets, name, version, path, disk) == (
            PatchStepModel::Done,
            patched(targets, name, version, path, disk),
        ),
        patched(targets, name, version, path, disk)[targets.root] == root_plan(
            targets,
            name,
            version,
            path,
            disk,
        )->Ok_0.contents,
        forall|i: int|
            0 <= i < targets.crates.len() ==> patched(targets, name, version, path, disk)[
                #[trigger] targets.crates[i]
            ] == child_plan(targets, name, version, disk, i)->Ok_0.contents,
        forall|file: Seq<char>|
            file != targets.root && !targets.crates.contains(file) ==> #[trigger] unchanged(
                patched(targets, name, version, path, disk),
                disk,
                file,
            ),
{
    let n = targets.crates.len() as int;
    patch_runs_as_documented(targets, name, version, path, disk);
    lemma_all_children_end(targets, name, version, path, disk, 0);
    let end = patched(targets, name, version, path, disk);
    assert forall|i: int| 0 <= i < n implies end[#[trigger] targets.crates[i]] == child_plan(
        targets,
        name,
        version,
        disk,
        i,
    )->Ok_0.contents by {
        lemma_children_patched(targets, name, version, disk, n, targets.crates[i]);
    }
    assert forall|file: Seq<char>|
        file != targets.root && !targets.crates.contains(file) implies #[trigger] unchanged(
        end,
        disk,
        file,
    ) by {
        lemma_children_patched(targets, name, version, disk, n, file);
    }
}

/// Where every sub-crate from `index` on can be patched, the run gets to
/// the root manifest.
proof fn lemma_all_children_end(
    targets: Targets,
    name: Seq<char>,
    version: Seq<char>,
    path: Seq<char>,
    disk: Disk,
    index: int,
)
    requires
        patchable(targets, name, version, path, disk),
        0 <= index <= targets.crates.len(),
    ensures
        children_end(targets, name, version, path, disk, index) == (
            PatchStepModel::Done,
            patched(targets, name, version, path, disk),
        ),
    decreases targets.crates.len() - index,
{
    if index < targets.crates.len() {
        assert(child_plan(targets, name, version, disk, index) is Ok);
        lemma_all_children_end(targets, name, version, path, disk, index + 1);
    }
}

/// A failure on one sub-crate ends the run and rolls nothing back: where the
/// sub-crates before `index` can be patched and the one at `index` cannot,
/// the run ends with the error of that sub-crate; the sub-crates before it
/// hold their patched manifests, and every other file, the root manifest
/// among them, is as it was.
pub proof fn patch_stops_at_first_failure(
    targets: Targets,
    name: Seq<char>,
    version: Seq<char>,
    path: Seq<char>,
    disk: Disk,
    index: int,
)
    requires
        distinct_manifests(targets),
        manifest_on(disk, targets.root) is Ok,
        0 <= index < targets.crates.len(),
        forall|i: int| 0 <= i < index ==> #[trigger] child_plan(targets, name, version, disk, i) is Ok,
        child_plan(targets, name, version, disk, index) is Err,
    ensures
        run(targets, name, version, path, disk) == (
            PatchStepModel::Failed(child_plan(targets, name, version, disk, index)->Err_0),
            children_patched(targets, name, version, disk, index),
        ),
        forall|i: int|
            0 <= i < index ==> children_patched(targets, name, version, disk, index)[
                #[trigger] targets.crates[i]
            ] == child_plan(targets, name, version, disk, i)->Ok_0.contents,
        forall|file: Seq<char>|
            (forall|i: int| 0 <= i < index ==> targets.crates[i] != file) ==> #[trigger] unchanged(
                children_patched(targets, name, version, disk, index),
                disk,
                file,
            ),
{
    patch_runs_as_documented(targets, name, version, path, disk);
    lemma_children_end_at_failure(targets, name, version, path, disk, index, 0);
    let end = children_patched(targets, name, version, disk, index);
    assert forall|i: int| 0 <= i < index implies end[#[trigger] targets.crates[i]] == child_plan(
        targets,
        name,
        version,
        disk,
        i,
    )->Ok_0.contents by {
        lemma_children_patched(targets, name, version, disk, index, targets.crates[i]);
    }
    assert forall|file: Seq<char>|
        (forall|i: int| 0 <= i < index ==> targets.crates[i] != file) implies #[trigger] unchanged(
        end,
        disk,
        file,
    ) by {
        lemma_children_patched(targets, name, version, disk, index, file);
    }
}

/// The run from an earlier sub-crate on ends at the first one that fails.
proof fn lemma_children_end_at_failure(
    targets: Targets,
    name: Seq<char>,
    version: Seq<char>,
    path: Seq<char>,
    disk: Disk,
    failing: int,
    index: int,
)
    requires
        0 <= index <= failing < targets.crates.len(),
        forall|i: int| 0 <= i < failing ==> #[trigger] child_plan(targets, name, version, disk, i) is Ok,
        child_plan(targets, name, version, disk, failing) is Err,
    ensures
        children_end(targets, name, version, path, disk, index) == (
            PatchStepModel::Failed(child_plan(targets, name, version, disk, failing)->Err_0),
            children_patched(targets, name, version, disk, failing),
        ),
    decreases failing - index,
{
    if index < failing {
        assert(child_plan(targets, name, version, disk, index) is Ok);
        lemma_children_end_at_failure(targets, name, version, path, disk, failing, index + 1);
    }
}

/// A manifest without a `dependencies` table fails closed. Where a project
/// has no sub-crates and its manifest has no such table, the run ends with
/// an error of the kind `MissingDependencySection`, and every file is as it
/// was.
pub proof fn missing_dependencies_leave_the_disk_untouched(
    targets: Targets,
    name: Seq<char>,
    version: Seq<char>,
    path: Seq<char>,
    disk: Disk,
    doc: Manifest,
)
    requires
        targets.crates.len() == 0,
        manifest_on(disk, targets.root) == Ok::<Manifest, Failure>(doc),
        lacks_dependencies(doc),
    ensures
        run(targets, name, version, path, disk) == (
            PatchStepModel::Failed(version_failure(targets.root)),
            disk,
        ),
        version_failure(targets.root).kind == ErrorKind::MissingDependencySection,
{
    reveal_strlit("patch");
    reveal_strlit("dependencies");
    assert("patch"@.len() != "dependencies"@.len());
    patch_runs_as_documented(targets, name, version, path, disk);
}

/// The same holds of a sub-crate. Where the manifest of the sub-crate at
/// `index` has no `dependencies` table and the sub-crates before it can be
/// patched, the run ends with an error of the kind
/// `MissingDependencySection`; the manifest of that sub-crate, the root
/// manifest and the manifests of the sub-crates after it are as they were.
pub proof fn missing_dependencies_of_a_sub_crate_end_the_run(
    targets: Targets,
    name: Seq<char>,
    version: Seq<char>,
    path: Seq<char>,
    disk: Disk,
    index: int,
    doc: Manifest,
)
    requires
        distinct_manifests(targets),
        manifest_on(disk, targets.root) is Ok,
        0 <= index < targets.crates.len(),
        forall|i: int| 0 <= i < index ==> #[trigger] child_plan(targets, name, version, disk, i) is Ok,
        manifest_on(disk, targets.crates[index]) == Ok::<Manifest, Failure>(doc),
        lacks_dependencies(doc),
    ensures
        ({
            let (end, after) = run(targets, name, version, path, disk);
            &&& end == PatchStepModel::Failed(version_failure(targets.crates[index]))
            &&& version_failure(targets.crates[index]).kind == ErrorKind::MissingDependencySection
            &&& unchanged(after, disk, targets.root)
            &&& forall|i: int|
                index <= i < targets.crates.len() ==> unchanged(
                    after,
                    disk,
                    #[trigger] targets.crates[i],
                )
        }),
{
    patch_stops_at_first_failure(targets, name, version, path, disk, index);
    let after = children_patched(targets, name, version, disk, index);
    lemma_children_patched(targets, name, version, disk, index, targets.root);
    assert forall|i: int| index <= i < targets.crates.len() implies unchanged(
        after,
        disk,
        #[trigger] targets.crates[i],
    ) by {
        lemma_children_patched(targets, name, version, disk, index, targets.crates[i]);
    }
}

} // verus!
