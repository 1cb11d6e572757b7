use cadence_crater::codec::{parse_document, render_document};
use cadence_crater::document::{Item, Table};
use cadence_crater::error::{CraterError, ErrorKind};
use cadence_crater::manifest::{
    load_cargo_toml, manifest_from, override_source, override_version, package_version,
    read_error, tmp_path, write_cargo_toml, write_error, write_request,
};

fn load(text: &str) -> Table {
    load_cargo_toml("Cargo.toml", Ok(text.to_string())).unwrap()
}

fn render(table: Table) -> String {
    render_document(Item::Table(table)).unwrap()
}

fn string_at<'a>(table: &'a Table, keys: &[&str]) -> Option<&'a str> {
    let (last, front) = keys.split_last().unwrap();
    let mut current = table;
    for key in front {
        current = current.get(key)?.as_table()?;
    }
    current.get(last)?.as_str()
}

#[test]
fn load_parses_the_contents() {
    let doc = load("[package]\nname = \"widget\"\n\n[dependencies]\nserde = \"1\"\n");
    assert_eq!(doc.len(), 2);
    assert_eq!(string_at(&doc, &["package", "name"]), Some("widget"));
    assert_eq!(string_at(&doc, &["dependencies", "serde"]), Some("1"));
}

#[test]
fn load_of_an_unreadable_file_is_a_read_error() {
    let e = load_cargo_toml("a/Cargo.toml", Err("No such file or directory".to_string()))
        .unwrap_err();
    assert_eq!(e.kind(), ErrorKind::Read);
    assert_eq!(e.message(), "unable to read TOML file a/Cargo.toml");
    assert_eq!(
        e.to_string(),
        "unable to read TOML file a/Cargo.toml: No such file or directory"
    );
    let cause = e.source().unwrap();
    assert_eq!(cause.message(), "No such file or directory");
    assert!(cause.source().is_none());
}

#[test]
fn load_of_malformed_text_is_a_parse_error() {
    let e = load_cargo_toml("a/Cargo.toml", Ok("[package\nname = ".to_string())).unwrap_err();
    assert_eq!(e.kind(), ErrorKind::Parse);
    assert_eq!(e.message(), "unable to parse TOML file a/Cargo.toml");
    assert!(e.source().is_some());
    assert!(e.to_string().starts_with("unable to parse TOML file a/Cargo.toml: "));
}

#[test]
fn manifest_from_keeps_the_reason_of_a_rejection() {
    let e = manifest_from("x.toml", Err("expected a value".to_string())).unwrap_err();
    assert_eq!(e.kind(), ErrorKind::Parse);
    assert_eq!(
        e.to_string(),
        "unable to parse TOML file x.toml: expected a value"
    );
}

#[test]
fn manifest_from_refuses_what_is_not_a_table() {
    let e = manifest_from("x.toml", Ok(Item::Integer(1))).unwrap_err();
    assert_eq!(e.kind(), ErrorKind::Parse);
    assert_eq!(e.to_string(), "unable to parse TOML file x.toml");
    assert!(e.source().is_none());
}

#[test]
fn manifest_from_returns_the_table() {
    let doc = parse_document("a = \"b\"\n");
    let table = manifest_from("x.toml", doc).unwrap();
    assert_eq!(string_at(&table, &["a"]), Some("b"));
}

#[test]
fn package_version_is_the_string_under_package_version() {
    let doc = load("[package]\nname = \"widget\"\nversion = \"0.26.0\"\n");
    assert_eq!(package_version(&doc), Some("0.26.0".to_string()));
}

#[test]
fn package_version_is_returned_verbatim() {
    let doc = load("[package]\nversion = \" not a version \"\n");
    assert_eq!(package_version(&doc), Some(" not a version ".to_string()));
    let empty = load("[package]\nversion = \"\"\n");
    assert_eq!(package_version(&empty), Some(String::new()));
}

#[test]
fn package_version_needs_a_package_table() {
    assert_eq!(package_version(&load("")), None);
    assert_eq!(package_version(&load("package = \"widget\"\n")), None);
    assert_eq!(package_version(&load("version = \"1.0\"\n")), None);
}

#[test]
fn package_version_needs_a_string() {
    assert_eq!(package_version(&load("[package]\nname = \"widget\"\n")), None);
    assert_eq!(package_version(&load("[package]\nversion = 1\n")), None);
    assert_eq!(
        package_version(&load("[package.version]\nmajor = \"1\"\n")),
        None
    );
}

#[test]
fn override_version_replaces_an_entry() {
    let mut doc = load("[dependencies]\nwidget = \"1.0\"\nserde = \"1\"\n");
    assert!(override_version(&mut doc, "widget", "2.0-local").is_ok());
    assert_eq!(string_at(&doc, &["dependencies", "widget"]), Some("2.0-local"));
    assert_eq!(string_at(&doc, &["dependencies", "serde"]), Some("1"));
    assert_eq!(
        render(doc),
        "[dependencies]\nserde = \"1\"\nwidget = \"2.0-local\"\n"
    );
}

#[test]
fn override_version_inserts_a_new_entry() {
    let mut doc = load("[package]\nname = \"app\"\n\n[dependencies]\nserde = \"1\"\n");
    assert!(override_version(&mut doc, "widget", "2.0-local").is_ok());
    assert_eq!(string_at(&doc, &["dependencies", "widget"]), Some("2.0-local"));
    assert_eq!(string_at(&doc, &["dependencies", "serde"]), Some("1"));
    assert_eq!(string_at(&doc, &["package", "name"]), Some("app"));
}

#[test]
fn override_version_replaces_a_detailed_requirement() {
    let mut doc = load("[dependencies]\nwidget = { version = \"1.0\", features = [\"x\"] }\n");
    assert!(override_version(&mut doc, "widget", "2.0-local").is_ok());
    assert_eq!(render(doc), "[dependencies]\nwidget = \"2.0-local\"\n");
}

#[test]
fn override_version_twice_is_override_version_once() {
    let text = "[package]\nname = \"app\"\n\n[dependencies]\nwidget = \"1.0\"\nserde = \"1\"\n";
    let mut once = load(text);
    override_version(&mut once, "widget", "2.0-local").unwrap();
    let mut twice = load(text);
    override_version(&mut twice, "widget", "2.0-local").unwrap();
    override_version(&mut twice, "widget", "2.0-local").unwrap();
    assert_eq!(twice.len(), once.len());
    assert_eq!(
        twice.get("dependencies").and_then(|d| d.as_table()).map(|d| d.len()),
        Some(2)
    );
    assert_eq!(render(twice), render(once));
}

#[test]
fn override_version_without_dependencies_fails_and_changes_nothing() {
    let text = "[package]\nname = \"app\"\n";
    let mut doc = load(text);
    let e: CraterError = override_version(&mut doc, "widget", "2.0-local").unwrap_err();
    assert_eq!(e.kind(), ErrorKind::MissingDependencySection);
    assert_eq!(e.to_string(), "missing or corrupt dependency section");
    assert_eq!(render(doc), render(load(text)));
}

#[test]
fn override_version_with_dependencies_of_another_type_fails() {
    let text = "dependencies = \"none\"\n";
    let mut doc = load(text);
    let e = override_version(&mut doc, "widget", "2.0-local").unwrap_err();
    assert_eq!(e.kind(), ErrorKind::MissingDependencySection);
    assert_eq!(render(doc), text);
}

#[test]
fn override_source_creates_the_three_tables() {
    let mut doc = load("[dependencies]\nwidget = \"1.0\"\n");
    override_source(&mut doc, "widget", "/abs/widget");
    assert_eq!(
        string_at(&doc, &["patch", "crates-io", "widget", "path"]),
        Some("/abs/widget")
    );
    assert_eq!(string_at(&doc, &["dependencies", "widget"]), Some("1.0"));
    assert_eq!(
        render(doc),
        "[dependencies]\nwidget = \"1.0\"\n[patch.crates-io.widget]\npath = \"/abs/widget\"\n"
    );
}

#[test]
fn override_source_keeps_other_crates() {
    let mut doc =
        load("[patch.crates-io.other-crate]\npath = \"/abs/other\"\n\n[patch.crates-io.third]\ngit = \"https://example.com/third\"\n");
    override_source(&mut doc, "widget", "/abs/widget");
    assert_eq!(
        string_at(&doc, &["patch", "crates-io", "other-crate", "path"]),
        Some("/abs/other")
    );
    assert_eq!(
        string_at(&doc, &["patch", "crates-io", "third", "git"]),
        Some("https://example.com/third")
    );
    assert_eq!(
        string_at(&doc, &["patch", "crates-io", "widget", "path"]),
        Some("/abs/widget")
    );
    let registry = doc
        .get("patch")
        .and_then(|p| p.as_table())
        .and_then(|p| p.get("crates-io"))
        .and_then(|r| r.as_table())
        .unwrap();
    assert_eq!(registry.len(), 3);
}

#[test]
fn override_source_keeps_other_registries() {
    let mut doc = load("[patch.\"https://example.com/index\".thing]\npath = \"/abs/thing\"\n");
    override_source(&mut doc, "widget", "/abs/widget");
    assert_eq!(
        string_at(&doc, &["patch", "https://example.com/index", "thing", "path"]),
        Some("/abs/thing")
    );
    assert_eq!(
        string_at(&doc, &["patch", "crates-io", "widget", "path"]),
        Some("/abs/widget")
    );
}

#[test]
fn override_source_replaces_the_entry_of_the_crate() {
    let mut doc =
        load("[patch.crates-io.widget]\ngit = \"https://example.com/widget\"\nbranch = \"main\"\n");
    override_source(&mut doc, "widget", "/abs/widget");
    assert_eq!(
        render(doc),
        "[patch.crates-io.widget]\npath = \"/abs/widget\"\n"
    );
}

#[test]
fn override_source_replaces_what_is_not_a_table() {
    let mut doc = load("patch = \"nothing\"\n");
    override_source(&mut doc, "widget", "/abs/widget");
    assert_eq!(
        render(doc),
        "[patch.crates-io.widget]\npath = \"/abs/widget\"\n"
    );
}

#[test]
fn override_source_twice_is_override_source_once() {
    let text = "[patch.crates-io.other-crate]\npath = \"/abs/other\"\n";
    let mut once = load(text);
    override_source(&mut once, "widget", "/abs/widget");
    let mut twice = load(text);
    override_source(&mut twice, "widget", "/abs/widget");
    override_source(&mut twice, "widget", "/abs/widget");
    assert_eq!(render(twice), render(once));
}

#[test]
fn tmp_path_is_a_fixed_name_beside_the_manifest() {
    assert_eq!(
        tmp_path("/work/app/Cargo.toml").unwrap(),
        "/work/app/.cadence-rename"
    );
    assert_eq!(tmp_path("app/Cargo.toml").unwrap(), "app/.cadence-rename");
    assert_eq!(tmp_path("Cargo.toml").unwrap(), ".cadence-rename");
}

#[test]
fn tmp_path_needs_a_parent() {
    let e = tmp_path("/").unwrap_err();
    assert_eq!(e.kind(), ErrorKind::PathResolution);
    assert_eq!(e.to_string(), "could not determine parent of /");
    let e = tmp_path("").unwrap_err();
    assert_eq!(e.kind(), ErrorKind::PathResolution);
    assert_eq!(e.to_string(), "could not determine parent of ");
}

#[test]
fn write_cargo_toml_prepares_the_whole_write() {
    let doc = load("[dependencies]\nwidget = \"1.0\"\n");
    let request = write_cargo_toml("/work/app/Cargo.toml", doc).unwrap();
    assert_eq!(request.path, "/work/app/Cargo.toml");
    assert_eq!(request.tmp_path, "/work/app/.cadence-rename");
    assert_eq!(request.contents, "[dependencies]\nwidget = \"1.0\"\n");
    assert_ne!(request.tmp_path, request.path);
}

#[test]
fn write_cargo_toml_without_a_parent_fails() {
    let e = write_cargo_toml("/", Table::new()).unwrap_err();
    assert_eq!(e.kind(), ErrorKind::PathResolution);
}

#[test]
fn write_request_reports_a_refusal_of_the_serializer() {
    let e = write_request(
        "/work/app/Cargo.toml",
        Err("values must be emitted before tables".to_string()),
        Ok("/work/app/.cadence-rename".to_string()),
    )
    .unwrap_err();
    assert_eq!(e.kind(), ErrorKind::Serialize);
    assert_eq!(
        e.to_string(),
        "unable to serialize TOML for writing to /work/app/Cargo.toml: values must be emitted before tables"
    );
}

#[test]
fn write_request_reports_the_serializer_first() {
    let e = write_request(
        "/",
        Err("refused".to_string()),
        Err(CraterError::new(ErrorKind::PathResolution, "no parent".to_string())),
    )
    .unwrap_err();
    assert_eq!(e.kind(), ErrorKind::Serialize);
}

#[test]
fn write_request_passes_the_parts_on() {
    let request = write_request(
        "a/Cargo.toml",
        Ok("x = 1\n".to_string()),
        Ok("a/.cadence-rename".to_string()),
    )
    .unwrap();
    assert_eq!(request.path, "a/Cargo.toml");
    assert_eq!(request.tmp_path, "a/.cadence-rename");
    assert_eq!(request.contents, "x = 1\n");
}

#[test]
fn write_and_read_errors_name_the_path_and_keep_the_reason() {
    let e = write_error("a/Cargo.toml", Some("disk full".to_string()));
    assert_eq!(e.kind(), ErrorKind::Write);
    assert_eq!(
        e.to_string(),
        "unable to write to TOML file a/Cargo.toml: disk full"
    );
    let e = write_error("a/Cargo.toml", None);
    assert_eq!(e.to_string(), "unable to write to TOML file a/Cargo.toml");
    let e = read_error("a/Cargo.toml", Some("denied".to_string()));
    assert_eq!(e.kind(), ErrorKind::Read);
    assert_eq!(e.to_string(), "unable to read TOML file a/Cargo.toml: denied");
    let e = read_error("a/Cargo.toml", None);
    assert_eq!(e.to_string(), "unable to read TOML file a/Cargo.toml");
}
