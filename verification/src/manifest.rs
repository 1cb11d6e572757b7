//! Reading, changing and writing the manifest of a crate.
//!
//! A manifest is a table. The version of the crate it describes stands under
//! `package.version`; the version it requires of a dependency under
//! `dependencies.<name>`; the place where a dependency is taken from instead
//! of the registry under `patch.crates-io.<name>.path`.

use vstd::prelude::*;
use vstd::string::*;
use crate::codec::parse_document;
use crate::codec::parsed_of;
use crate::codec::render_document;
use crate::codec::texts_of;
use crate::codec::toml_parsed;
use crate::codec::toml_rendered;
use crate::document::Doc;
use crate::document::Item;
use crate::document::Table;
use crate::error::CraterError;
use crate::error::ErrorKind;
use crate::error::Failure;
use crate::paths::join;
use crate::paths::parent_of;
use crate::paths::path_joined;
use crate::paths::path_parent;
use crate::paths::text_of;

verus! {

/// The content of a manifest: what its top-level table maps each key to.
pub type Manifest = Map<Seq<char>, Doc>;

/// The table stored under a key, or the empty table where the key is absent
/// or holds something else.
pub open spec fn table_at(m: Manifest, key: Seq<char>) -> Manifest {
    if m.contains_key(key) && m[key] is Table {
        m[key]->Table_0
    } else {
        Map::empty()
    }
}

/// The string under `package.version`, if the manifest has one.
pub open spec fn declared_version(doc: Manifest) -> Option<Seq<char>> {
    let package = table_at(doc, "package"@);
    if package.contains_key("version"@) && package["version"@] is String {
        Some(package["version"@]->String_0)
    } else {
        None
    }
}

/// The manifest with `patch.crates-io.<name>` replaced by a table that holds
/// `path` alone. Every other entry of `patch.crates-io`, of `patch` and of the
/// manifest stays as it is; a table that is missing on the way is created.
pub open spec fn source_overridden(doc: Manifest, name: Seq<char>, path: Seq<char>) -> Manifest {
    let patch = table_at(doc, "patch"@);
    let registry = table_at(patch, "crates-io"@);
    doc.insert(
        "patch"@,
        Doc::Table(patch.insert("crates-io"@, Doc::Table(registry.insert(name, local_source(path))))),
    )
}

/// The manifest with `dependencies.<name>` set to the version, or `None`
/// where the manifest has no `dependencies` table.
pub open spec fn version_overridden(doc: Manifest, name: Seq<char>, version: Seq<char>) -> Option<
    Manifest,
> {
    if doc.contains_key("dependencies"@) && doc["dependencies"@] is Table {
        Some(
            doc.insert(
                "dependencies"@,
                Doc::Table(doc["dependencies"@]->Table_0.insert(name, Doc::String(version))),
            ),
        )
    } else {
        None
    }
}

/// The entries of `patch.crates-io`: for each redirected crate, where it is
/// taken from.
pub open spec fn registry_patches(doc: Manifest) -> Manifest {
    table_at(table_at(doc, "patch"@), "crates-io"@)
}

/// The entry that redirects a crate to a local path.
pub open spec fn local_source(path: Seq<char>) -> Doc {
    Doc::Table(Map::<Seq<char>, Doc>::empty().insert("path"@, Doc::String(path)))
}

/// The error for a manifest that cannot be read.
pub open spec fn read_failure(path: Seq<char>, reason: Option<Seq<char>>) -> Failure {
    Failure::with_reason(ErrorKind::Read, "unable to read TOML file "@ + path, reason)
}

/// The error for a manifest that is not well-formed TOML.
pub open spec fn parse_failure(path: Seq<char>, reason: Option<Seq<char>>) -> Failure {
    Failure::with_reason(ErrorKind::Parse, "unable to parse TOML file "@ + path, reason)
}

/// The error of a version override on a manifest without a `dependencies`
/// table.
pub open spec fn missing_dependencies() -> Failure {
    Failure::leaf(ErrorKind::MissingDependencySection, "missing or corrupt dependency section"@)
}

/// The error for a document that cannot be turned into text.
pub open spec fn serialize_failure(path: Seq<char>, reason: Seq<char>) -> Failure {
    Failure::with_reason(
        ErrorKind::Serialize,
        "unable to serialize TOML for writing to "@ + path,
        Some(reason),
    )
}

/// The error for a manifest that could not be written.
pub open spec fn write_failure(path: Seq<char>, reason: Option<Seq<char>>) -> Failure {
    Failure::with_reason(ErrorKind::Write, "unable to write to TOML file "@ + path, reason)
}

/// The error for a path without a parent directory.
pub open spec fn parent_failure(path: Seq<char>) -> Failure {
    Failure::leaf(ErrorKind::PathResolution, "could not determine parent of "@ + path)
}

/// The manifest that a parsed document is, or the error for the path.
pub open spec fn manifest_of(path: Seq<char>, parsed: Result<Doc, Seq<char>>) -> Result<
    Manifest,
    Failure,
> {
    match parsed {
        Ok(Doc::Table(m)) => Ok(m),
        Ok(_) => Err(parse_failure(path, None)),
        Err(reason) => Err(parse_failure(path, Some(reason))),
    }
}

/// The manifest that the contents of a file hold, or the error for the path.
/// `contents` is the text of the file, or the reason why it could not be
/// read.
pub open spec fn loaded(path: Seq<char>, contents: Result<Seq<char>, Seq<char>>) -> Result<
    Manifest,
    Failure,
> {
    match contents {
        Ok(text) => manifest_of(path, toml_parsed(text)),
        Err(reason) => Err(read_failure(path, Some(reason))),
    }
}

/// The temporary file beside a manifest: `.cadence-rename` in the directory
/// of the manifest.
pub open spec fn tmp_path_of(path: Seq<char>) -> Result<Seq<char>, Failure> {
    match path_parent(path) {
        Some(dir) => Ok(path_joined(dir, ".cadence-rename"@)),
        None => Err(parent_failure(path)),
    }
}

/// What is to be written where, as mathematics.
pub ghost struct WritePlan {
    pub path: Seq<char>,
    pub tmp_path: Seq<char>,
    pub contents: Seq<char>,
}

/// The write that replaces the manifest at `path` by the given text, or the
/// error for the path. `rendered` is what the serializer made of the
/// document, `tmp` the temporary file beside the manifest.
pub open spec fn write_plan_from(
    path: Seq<char>,
    rendered: Result<Seq<char>, Seq<char>>,
    tmp: Result<Seq<char>, Failure>,
) -> Result<WritePlan, Failure> {
    match rendered {
        Err(reason) => Err(serialize_failure(path, reason)),
        Ok(contents) => match tmp {
            Err(e) => Err(e),
            Ok(tmp_path) => Ok(WritePlan { path, tmp_path, contents }),
        },
    }
}

/// The write that replaces the manifest at `path` by the given document.
pub open spec fn write_plan(path: Seq<char>, doc: Manifest) -> Result<WritePlan, Failure> {
    write_plan_from(path, toml_rendered(Doc::Table(doc)), tmp_path_of(path))
}

/// What a result that carries a manifest holds.
pub open spec fn manifest_outcome(r: Result<Table, CraterError>) -> Result<Manifest, Failure> {
    match r {
        Ok(table) => Ok(table@),
        Err(e) => Err(e@),
    }
}

/// What a result that carries text holds.
pub open spec fn text_outcome(r: Result<String, CraterError>) -> Result<Seq<char>, Failure> {
    match r {
        Ok(text) => Ok(text@),
        Err(e) => Err(e@),
    }
}

/// What a result that carries a write holds.
pub open spec fn write_outcome(r: Result<WriteRequest, CraterError>) -> Result<WritePlan, Failure> {
    match r {
        Ok(request) => Ok(request@),
        Err(e) => Err(e@),
    }
}

/// A message made of a fixed beginning and the path or URL it is about.
pub(crate) fn message(beginning: &str, subject: &str) -> (m: String)
    ensures
        m@ == beginning@ + subject@,
{
    let mut m = String::from_str(beginning);
    m.append(subject);
    m
}

/// An atomic replacement of one file: write `contents` to `tmp_path`, force
/// it to disk, then rename `tmp_path` to `path`.
#[derive(Debug)]
pub struct WriteRequest {
    pub path: String,
    pub tmp_path: String,
    pub contents: String,
}

impl View for WriteRequest {
    type V = WritePlan;

    open spec fn view(&self) -> WritePlan {
        WritePlan { path: self.path@, tmp_path: self.tmp_path@, contents: self.contents@ }
    }
}

/// Makes a manifest of what the parser returned for the file at `path`.
///
/// A document is returned as the manifest it is; a rejection becomes a
/// parse error that names the path and keeps the parser's reason.
pub fn manifest_from(path: &str, parsed: Result<Item, String>) -> (r: Result<Table, CraterError>)
    ensures
        manifest_outcome(r) == manifest_of(path@, parsed_of(parsed)),
{
    match parsed {
        Ok(Item::Table(table)) => Ok(table),
        Ok(_) => Err(
            CraterError::with_reason(
                ErrorKind::Parse,
                message("unable to parse TOML file ", path),
                None,
            ),
        ),
        Err(reason) => Err(
            CraterError::with_reason(
                ErrorKind::Parse,
                message("unable to parse TOML file ", path),
                Some(reason),
            ),
        ),
    }
}

/// Parses the contents of the manifest at `path`.
///
/// `contents` is what reading the file gave: its text, or the reason why it
/// could not be read. A file that could not be read gives a read error, a
/// text that is not a TOML document a parse error; both name the path.
pub fn load_cargo_toml(path: &str, contents: Result<String, String>) -> (r: Result<
    Table,
    CraterError,
>)
    ensures
        manifest_outcome(r) == loaded(path@, texts_of(contents)),
{
    match contents {
        Ok(text) => manifest_from(path, parse_document(text.as_str())),
        Err(reason) => Err(
            CraterError::with_reason(
                ErrorKind::Read,
                message("unable to read TOML file ", path),
                Some(reason),
            ),
        ),
    }
}

/// The version that a manifest declares for its own package.
pub fn package_version(doc: &Table) -> (version: Option<String>)
    ensures
        text_of(version) == declared_version(doc@),
{
    match doc.get("package") {
        Some(Item::Table(package)) => match package.get("version") {
            Some(Item::String(version)) => Some(version.clone()),
            _ => None,
        },
        _ => None,
    }
}

/// Takes the table stored under a key out of a table; where the key is
/// absent or holds something else, the result is empty.
fn take_table(table: &mut Table, key: &str) -> (inner: Table)
    ensures
        inner@ == table_at(old(table)@, key@),
        final(table)@ == old(table)@.remove(key@),
{
    match table.remove(key) {
        Some(Item::Table(inner)) => inner,
        _ => Table::new(),
    }
}

/// Redirects the dependency `name` to the local checkout at `path`.
///
/// Sets `patch.crates-io.<name>` to a table that holds `path = <path>` and
/// nothing else. Other crates under `patch.crates-io`, other registries
/// under `patch` and the rest of the manifest are left as they are.
pub fn override_source(table: &mut Table, name: &str, path: &str)
    ensures
        final(table)@ == source_overridden(old(table)@, name@, path@),
{
    let mut patch = take_table(table, "patch");
    let ghost old_patch = patch@;
    let mut registry = take_table(&mut patch, "crates-io");
    let ghost old_registry = registry@;
    let mut source = Table::new();
    source.insert("path".to_owned(), Item::String(path.to_owned()));
    registry.insert(name.to_owned(), Item::Table(source));
    patch.insert("crates-io".to_owned(), Item::Table(registry));
    proof {
        assert(patch@ =~= old_patch.insert(
            "crates-io"@,
            Doc::Table(old_registry.insert(name@, local_source(path@))),
        ));
    }
    table.insert("patch".to_owned(), Item::Table(patch));
}

/// Requires `version` of the dependency `name`.
///
/// Sets `dependencies.<name>` to the version, whether or not the table had
/// an entry for the crate. A manifest without a `dependencies` table is left
/// as it is and the call fails.
pub fn override_version(table: &mut Table, name: &str, version: &str) -> (r: Result<
    (),
    CraterError,
>)
    ensures
        match version_overridden(old(table)@, name@, version@) {
            Some(doc) => r is Ok && final(table)@ == doc,
            None => {
                &&& final(table)@ == old(table)@
                &&& r matches Err(e) && e@ == missing_dependencies()
            },
        },
{
    let present = match table.get("dependencies") {
        Some(Item::Table(_)) => true,
        _ => false,
    };
    if present {
        let mut dependencies = take_table(table, "dependencies");
        dependencies.insert(name.to_owned(), Item::String(version.to_owned()));
        table.insert("dependencies".to_owned(), Item::Table(dependencies));
        Ok(())
    } else {
        Err(
            CraterError::new(
                ErrorKind::MissingDependencySection,
                "missing or corrupt dependency section".to_owned(),
            ),
        )
    }
}

/// The temporary file that a write to `path` goes through: `.cadence-rename`
/// in the same directory, so that the rename stays on one file system.
///
/// The name does not depend on the manifest: two writes into one directory
/// must not run at the same time.
pub fn tmp_path(path: &str) -> (r: Result<String, CraterError>)
    ensures
        text_outcome(r) == tmp_path_of(path@),
{
    match parent_of(path) {
        Some(dir) => Ok(join(dir.as_str(), ".cadence-rename")),
        None => Err(
            CraterError::new(
                ErrorKind::PathResolution,
                message("could not determine parent of ", path),
            ),
        ),
    }
}

/// Puts together the write of a manifest from what the serializer returned
/// for its document and from the temporary file beside it.
///
/// A refusal of the serializer comes first; then the error of a path
/// without a parent directory.
pub fn write_request(path: &str, rendered: Result<String, String>, tmp: Result<String, CraterError>) -> (r:
    Result<WriteRequest, CraterError>)
    ensures
        write_outcome(r) == write_plan_from(path@, texts_of(rendered), text_outcome(tmp)),
{
    match rendered {
        Err(reason) => Err(
            CraterError::with_reason(
                ErrorKind::Serialize,
                message("unable to serialize TOML for writing to ", path),
                Some(reason),
            ),
        ),
        Ok(contents) => match tmp {
            Err(e) => Err(e),
            Ok(tmp_path) => Ok(WriteRequest { path: path.to_owned(), tmp_path, contents }),
        },
    }
}

/// Prepares the atomic write of a manifest to `path`.
///
/// The document is turned into text; the caller writes the text to the
/// temporary file, forces it to disk and renames it onto `path`, so that no
/// reader ever finds a partly written manifest there.
pub fn write_cargo_toml(path: &str, root: Table) -> (r: Result<WriteRequest, CraterError>)
    ensures
        write_outcome(r) == write_plan(path@, root@),
{
    let rendered = render_document(Item::Table(root));
    write_request(path, rendered, tmp_path(path))
}

/// The error for a write that the caller could not carry out. `reason` is
/// the description of the failure, where there is one.
pub fn write_error(path: &str, reason: Option<String>) -> (e: CraterError)
    ensures
        e@ == write_failure(path@, text_of(reason)),
{
    CraterError::with_reason(ErrorKind::Write, message("unable to write to TOML file ", path), reason)
}

/// The error for a manifest whose contents never arrived.
pub fn read_error(path: &str, reason: Option<String>) -> (e: CraterError)
    ensures
        e@ == read_failure(path@, text_of(reason)),
{
    CraterError::with_reason(ErrorKind::Read, message("unable to read TOML file ", path), reason)
}

/// Overriding the version twice with the same value gives the document that
/// overriding it once gives.
pub proof fn version_override_is_idempotent(doc: Manifest, name: Seq<char>, version: Seq<char>)
    ensures
        version_overridden(doc, name, version) matches Some(once) ==> version_overridden(
            once,
            name,
            version,
        ) == Some(once),
{
    if let Some(once) = version_overridden(doc, name, version) {
        let dependencies = once["dependencies"@]->Table_0;
        assert(dependencies.insert(name, Doc::String(version)) =~= dependencies);
    }
}

/// The version override changes `dependencies.<name>` and nothing else: every
/// other dependency and every other entry of the manifest stays as it is.
pub proof fn version_override_changes_one_entry(
    doc: Manifest,
    name: Seq<char>,
    version: Seq<char>,
    other: Seq<char>,
)
    requires
        version_overridden(doc, name, version) is Some,
    ensures
        ({
            let done = version_overridden(doc, name, version)->0;
            let before = table_at(doc, "dependencies"@);
            let after = table_at(done, "dependencies"@);
            &&& after.contains_key(name) && after[name] == Doc::String(version)
            &&& other != name ==> after.contains_key(other) == before.contains_key(other)
            &&& other != name && before.contains_key(other) ==> after[other] == before[other]
            &&& other != "dependencies"@ ==> done.contains_key(other) == doc.contains_key(other)
            &&& other != "dependencies"@ && doc.contains_key(other) ==> done[other] == doc[other]
        }),
{
}

/// The source override for one crate leaves the entry of every other crate
/// under `patch.crates-io` unchanged and puts the new entry beside it.
pub proof fn source_override_preserves_siblings(
    doc: Manifest,
    name: Seq<char>,
    path: Seq<char>,
    other: Seq<char>,
)
    requires
        other != name,
    ensures
        ({
            let before = registry_patches(doc);
            let after = registry_patches(source_overridden(doc, name, path));
            &&& after.contains_key(name) && after[name] == local_source(path)
            &&& after.contains_key(other) == before.contains_key(other)
            &&& before.contains_key(other) ==> after[other] == before[other]
        }),
{
}

/// The source override leaves every entry of the manifest but `patch`, and
/// every entry of `patch` but `crates-io`, unchanged.
pub proof fn source_override_preserves_the_rest(
    doc: Manifest,
    name: Seq<char>,
    path: Seq<char>,
    key: Seq<char>,
)
    ensures
        ({
            let done = source_overridden(doc, name, path);
            let before = table_at(doc, "patch"@);
            let after = table_at(done, "patch"@);
            &&& key != "patch"@ ==> done.contains_key(key) == doc.contains_key(key)
            &&& key != "patch"@ && doc.contains_key(key) ==> done[key] == doc[key]
            &&& key != "crates-io"@ ==> after.contains_key(key) == before.contains_key(key)
            &&& key != "crates-io"@ && before.contains_key(key) ==> after[key] == before[key]
        }),
{
}

/// Applying the source override twice with the same path gives the document
/// that applying it once gives.
pub proof fn source_override_is_idempotent(doc: Manifest, name: Seq<char>, path: Seq<char>)
    ensures
        source_overridden(source_overridden(doc, name, path), name, path) == source_overridden(
            doc,
            name,
            path,
        ),
{
    let once = source_overridden(doc, name, path);
    let registry = registry_patches(once);
    assert(registry.insert(name, local_source(path)) =~= registry);
    let patch = table_at(once, "patch"@);
    assert(patch.insert("crates-io"@, Doc::Table(registry)) =~= patch);
}

} // verus!
