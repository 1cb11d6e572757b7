//! The version and the location of the local crate.

use vstd::prelude::*;
use vstd::string::*;
use crate::codec::texts_of;
use crate::document::Table;
use crate::error::CraterError;
use crate::error::ErrorKind;
use crate::error::Failure;
use crate::manifest::Manifest;
use crate::manifest::declared_version;
use crate::manifest::load_cargo_toml;
use crate::manifest::loaded;
use crate::manifest::manifest_outcome;
use crate::manifest::message;
use crate::manifest::package_version;
use crate::manifest::text_outcome;
use crate::paths::parent_of;
use crate::paths::path_parent;
use crate::paths::text_of;

verus! {

/// The message of the error for a manifest that could not be loaded.
pub open spec fn version_unreadable(path: Seq<char>) -> Seq<char> {
    "unable to open "@ + path + " to determine the crate version"@
}

/// The error for a manifest that declares no version.
pub open spec fn version_missing(path: Seq<char>) -> Failure {
    Failure::leaf(ErrorKind::MissingField, "unable to determine the crate version from "@ + path)
}

/// The error for a manifest whose directory cannot be named.
pub open spec fn path_unresolved(path: Seq<char>) -> Failure {
    Failure::leaf(ErrorKind::PathResolution, "unable to determine the crate path from "@ + path)
}

/// The version that the manifest at `path` declares, given what loading it
/// gave. An error of loading is wrapped and keeps its kind; a manifest
/// without a string under `package.version` is an error of its own.
pub open spec fn version_of(path: Seq<char>, loaded: Result<Manifest, Failure>) -> Result<
    Seq<char>,
    Failure,
> {
    match loaded {
        Err(e) => Err(Failure::wrap(e.kind, version_unreadable(path), e)),
        Ok(doc) => match declared_version(doc) {
            Some(version) => Ok(version),
            None => Err(version_missing(path)),
        },
    }
}

/// The directory of the crate whose manifest is at `path`: the canonical
/// form of the manifest's parent directory, where the manifest has a parent
/// and the file system could resolve it.
pub open spec fn crate_path_of(
    path: Seq<char>,
    parent: Option<Seq<char>>,
    canonical: Option<Seq<char>>,
) -> Result<Seq<char>, Failure> {
    match (parent, canonical) {
        (Some(_), Some(dir)) => Ok(dir),
        _ => Err(path_unresolved(path)),
    }
}

/// Determines the version and the location of a local crate from the path
/// of its manifest.
#[derive(Debug)]
pub struct LocalVersion {
    cargo_toml: String,
}

impl View for LocalVersion {
    type V = Seq<char>;

    /// The path of the manifest.
    closed spec fn view(&self) -> Seq<char> {
        self.cargo_toml@
    }
}

impl LocalVersion {
    /// A resolver for the crate whose manifest is at `cargo_toml`.
    pub fn new(cargo_toml: String) -> (local: LocalVersion)
        ensures
            local@ == cargo_toml@,
    {
        LocalVersion { cargo_toml }
    }

    /// The path of the manifest: the file whose contents `version` wants.
    pub fn cargo_toml(&self) -> (path: &str)
        ensures
            path@ == self@,
    {
        self.cargo_toml.as_str()
    }

    /// The directory that holds the manifest, as written: what the caller
    /// resolves and hands to `path`.
    pub fn parent(&self) -> (dir: Option<String>)
        ensures
            text_of(dir) == path_parent(self@),
    {
        parent_of(self.cargo_toml.as_str())
    }

    /// The version of the crate, given the manifest as it was loaded.
    pub fn version_from(&self, loaded: Result<Table, CraterError>) -> (r: Result<
        String,
        CraterError,
    >)
        ensures
            text_outcome(r) == version_of(self@, manifest_outcome(loaded)),
    {
        match loaded {
            Err(e) => {
                let mut msg = message("unable to open ", self.cargo_toml.as_str());
                msg.append(" to determine the crate version");
                Err(CraterError::new_err(e.kind(), msg, e))
            },
            Ok(doc) => match package_version(&doc) {
                Some(version) => Ok(version),
                None => Err(
                    CraterError::new(
                        ErrorKind::MissingField,
                        message(
                            "unable to determine the crate version from ",
                            self.cargo_toml.as_str(),
                        ),
                    ),
                ),
            },
        }
    }

    /// The version of the crate: the string under `package.version`, as it
    /// stands in the manifest.
    ///
    /// `contents` is what reading the manifest gave: its text, or the reason
    /// why it could not be read. The call fails where the file could not be
    /// read, where it is not a TOML document, and where `package` is not a
    /// table or holds no string under `version`.
    pub fn version(&self, contents: Result<String, String>) -> (r: Result<String, CraterError>)
        ensures
            text_outcome(r) == version_of(self@, loaded(self@, texts_of(contents))),
    {
        self.version_from(load_cargo_toml(self.cargo_toml.as_str(), contents))
    }

    /// The location of the crate, given the parent of the manifest path and
    /// what resolving it gave.
    pub fn path_from(&self, parent: Option<String>, canonical: Option<String>) -> (r: Result<
        String,
        CraterError,
    >)
        ensures
            text_outcome(r) == crate_path_of(self@, text_of(parent), text_of(canonical)),
    {
        match (parent, canonical) {
            (Some(_), Some(dir)) => Ok(dir),
            _ => Err(
                CraterError::new(
                    ErrorKind::PathResolution,
                    message(
                        "unable to determine the crate path from ",
                        self.cargo_toml.as_str(),
                    ),
                ),
            ),
        }
    }

    /// The location of the crate: the canonical path of the directory that
    /// holds the manifest.
    ///
    /// `canonical` is what resolving the directory named by `parent` gave:
    /// its absolute path free of links, or `None` where it could not be
    /// resolved or is not text. The call fails there, and where the
    /// manifest path has no parent.
    pub fn path(&self, canonical: Option<String>) -> (r: Result<String, CraterError>)
        ensures
            text_outcome(r) == crate_path_of(self@, path_parent(self@), text_of(canonical)),
    {
        self.path_from(self.parent(), canonical)
    }
}

} // verus!
