use repo_import::errors::ParseError;
use repo_import::extract::assemble_for_manifest;
use repo_import::extract::extract_from_contents;
use repo_import::extract::ManifestSource;
use repo_import::manifest::from_cargo_toml;
use repo_import::manifest::parse_crate_name;
use repo_import::records::UProgram;

const FULL_MANIFEST: &str = "[package]\n\
name = \"demo\"\n\
version = \"0.3.1\"\n\
description = \"a demo unit\"\n";

const BARE_MANIFEST: &str = "[package]\nname = \"bare\"\n";

#[test]
fn parse_name_of_valid_manifest() {
    assert_eq!(parse_crate_name(FULL_MANIFEST), Ok(String::from("demo")));
}

#[test]
fn parse_rejects_invalid_syntax() {
    assert_eq!(
        parse_crate_name("not = toml ["),
        Err(ParseError::InvalidSyntax)
    );
}

#[test]
fn parse_rejects_missing_name() {
    assert_eq!(
        parse_crate_name("[package]\nversion = \"1.0.0\"\n"),
        Err(ParseError::MissingPackageName)
    );
    assert_eq!(
        parse_crate_name("[dependencies]\n"),
        Err(ParseError::MissingPackageName)
    );
}

#[test]
fn program_carries_declared_fields() {
    let program = from_cargo_toml(FULL_MANIFEST, "run-1").unwrap();
    assert_eq!(program.id, "run-1");
    assert_eq!(program.name, "demo");
    assert_eq!(program.version.as_deref(), Some("0.3.1"));
    assert_eq!(program.description.as_deref(), Some("a demo unit"));
    assert_eq!(program.namespace, None);
}

#[test]
fn missing_optional_fields_stay_absent() {
    let program = from_cargo_toml(BARE_MANIFEST, "run-1").unwrap();
    assert_eq!(program.name, "bare");
    assert_eq!(program.version, None);
    assert_eq!(program.description, None);
}

#[test]
fn pair_shares_name_and_run_id() {
    let (program, uprogram) = assemble_for_manifest(FULL_MANIFEST, "run-7", true).unwrap();
    assert_eq!(program.id, "run-7");
    assert_eq!(uprogram.id(), "run-7");
    assert_eq!(uprogram.name(), program.name.as_str());
}

#[test]
fn library_verdict_builds_library_record() {
    let (_, uprogram) = assemble_for_manifest(FULL_MANIFEST, "run-7", true).unwrap();
    match uprogram {
        UProgram::Library(library) => {
            assert_eq!(library.name, "demo");
            assert_eq!(library.usage_count, -1);
            assert_eq!(library.registry, None);
        }
        UProgram::Application(_) => panic!("expected a library record"),
    }
}

#[test]
fn application_verdict_builds_application_record() {
    let (_, uprogram) = assemble_for_manifest(FULL_MANIFEST, "run-7", false).unwrap();
    assert!(!uprogram.is_library());
    assert_eq!(uprogram.name(), "demo");
}

#[test]
fn rejected_manifest_yields_no_pair() {
    assert!(assemble_for_manifest("not = toml [", "run-1", true).is_none());
    assert!(assemble_for_manifest("[dependencies]\n", "run-1", true).is_none());
}

#[test]
fn batch_isolates_invalid_manifest() {
    let inputs = vec![
        ManifestSource {
            content: String::from("name = [ broken"),
            is_library: true,
        },
        ManifestSource {
            content: String::from(BARE_MANIFEST),
            is_library: false,
        },
    ];
    let pairs = extract_from_contents(&inputs, "run-9");
    assert_eq!(pairs.len(), 1);
    assert_eq!(pairs[0].0.name, "bare");
    assert!(!pairs[0].1.is_library());
}

#[test]
fn empty_batch_yields_no_pairs() {
    let inputs: Vec<ManifestSource> = vec![];
    assert!(extract_from_contents(&inputs, "run-0").is_empty());
}

#[test]
fn batch_keeps_input_order() {
    let inputs = vec![
        ManifestSource {
            content: String::from(FULL_MANIFEST),
            is_library: true,
        },
        ManifestSource {
            content: String::from(BARE_MANIFEST),
            is_library: false,
        },
    ];
    let pairs = extract_from_contents(&inputs, "run-2");
    assert_eq!(pairs.len(), 2);
    assert_eq!(pairs[0].0.name, "demo");
    assert!(pairs[0].1.is_library());
    assert_eq!(pairs[1].0.name, "bare");
    assert!(!pairs[1].1.is_library());
}
