//! The configuration of a run: where the local crate is, where working
//! copies go, and which manifests of a project are patched.

use vstd::prelude::*;
use crate::patch::LocalOverride;
use crate::patch::Targets;
use crate::patch::texts;
use crate::paths::join;
use crate::paths::path_joined;
use crate::paths::text_of;
use crate::version::LocalVersion;

verus! {

/// The manifest of the crate in a directory.
pub open spec fn manifest_in(dir: Seq<char>) -> Seq<char> {
    path_joined(dir, "Cargo.toml"@)
}

/// The manifests of a project whose working copy is at `checkout`: the
/// manifest in the directory `root` of the working copy, and the manifest in
/// each of the given directories below it.
pub open spec fn project_targets(
    checkout: Seq<char>,
    root: Seq<char>,
    subprojects: Seq<Seq<char>>,
) -> Targets {
    let base = path_joined(checkout, root);
    Targets {
        root: manifest_in(base),
        crates: Seq::new(subprojects.len(), |i: int| manifest_in(path_joined(base, subprojects[i]))),
    }
}

/// One project of a run: its repository, the directory of its root manifest
/// inside the repository, and the directories of its sub-crates below that.
#[derive(Debug)]
pub struct RunProject {
    pub repo: String,
    pub root: String,
    pub subprojects: Vec<String>,
}

/// What a run is started with.
#[derive(Debug)]
pub struct CraterApplication {
    destination: Option<String>,
    cadence: String,
    config: String,
}

/// What a run is started with, as mathematics.
pub ghost struct Settings {
    pub destination: Option<Seq<char>>,
    pub cadence: Seq<char>,
    pub config: Seq<char>,
}

impl View for CraterApplication {
    type V = Settings;

    closed spec fn view(&self) -> Settings {
        Settings {
            destination: text_of(self.destination),
            cadence: self.cadence@,
            config: self.config@,
        }
    }
}

impl CraterApplication {
    /// A run that stages into `destination`, or into the temporary directory
    /// of the system where none is given, for the local crate whose manifest
    /// is at `cadence` and the projects listed in the file at `config`.
    pub fn new(destination: Option<String>, cadence: String, config: String) -> (app:
        CraterApplication)
        ensures
            app@ == (Settings {
                destination: text_of(destination),
                cadence: cadence@,
                config: config@,
            }),
    {
        CraterApplication { destination, cadence, config }
    }

    /// The name of the crate that projects are redirected to.
    pub fn crate_name() -> (name: &'static str)
        ensures
            name@ == "cadence"@,
    {
        "cadence"
    }

    /// The directory for working copies, if one was given.
    pub fn destination(&self) -> (dir: Option<&str>)
        ensures
            match dir {
                Some(d) => self@.destination == Some(d@),
                None => self@.destination is None,
            },
    {
        match &self.destination {
            Some(d) => Some(d.as_str()),
            None => None,
        }
    }

    /// The path of the manifest of the local crate.
    pub fn cadence(&self) -> (path: &str)
        ensures
            path@ == self@.cadence,
    {
        self.cadence.as_str()
    }

    /// The path of the file that lists the projects.
    pub fn config(&self) -> (path: &str)
        ensures
            path@ == self@.config,
    {
        self.config.as_str()
    }

    /// The resolver for the local crate.
    pub fn local_version(&self) -> (local: LocalVersion)
        ensures
            local@ == self@.cadence,
    {
        LocalVersion::new(self.cadence.clone())
    }

    /// The patcher for a project whose working copy is at `checkout`.
    pub fn overrides(checkout: &str, project: &RunProject) -> (patcher: LocalOverride)
        ensures
            patcher@ == project_targets(
                checkout@,
                project.root@,
                texts(project.subprojects@),
            ),
    {
        let base = join(checkout, project.root.as_str());
        let root = join(base.as_str(), "Cargo.toml");
        let mut crates: Vec<String> = Vec::new();
        let mut i: usize = 0;
        while i < project.subprojects.len()
            invariant
                i <= project.subprojects@.len(),
                crates@.len() == i,
                forall|j: int|
                    0 <= j < i ==> (#[trigger] crates@[j])@ == manifest_in(
                        path_joined(base@, project.subprojects@[j]@),
                    ),
            decreases project.subprojects@.len() - i,
        {
            let dir = join(base.as_str(), project.subprojects[i].as_str());
            crates.push(join(dir.as_str(), "Cargo.toml"));
            i += 1;
        }
        let patcher = LocalOverride::new(root, crates);
        proof {
            assert(patcher@.crates =~= project_targets(
                checkout@,
                project.root@,
                texts(project.subprojects@),
            ).crates);
        }
        patcher
    }
}

} // verus!
