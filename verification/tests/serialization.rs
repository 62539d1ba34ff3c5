use repo_import::csvout::render_records;
use repo_import::csvout::table_rows;
use repo_import::records::Library;
use repo_import::records::Program;
use repo_import::strings::i64_to_string;
use repo_import::strings::strip_suffix;

fn sample_program(name: &str) -> Program {
    Program::new(
        String::from("run-1"),
        String::from(name),
        None,
        None,
        Some(String::from("1.0.0")),
        None,
        None,
        None,
    )
}

#[test]
fn one_header_row_plus_one_row_per_record() {
    let records = vec![sample_program("a"), sample_program("b"), sample_program("c")];
    let rows = table_rows(&records);
    assert_eq!(rows.len(), 4);
    let width = rows[0].len();
    for row in &rows {
        assert_eq!(row.len(), width);
    }
}

#[test]
fn empty_record_list_renders_header_only() {
    let records: Vec<Program> = vec![];
    assert_eq!(table_rows(&records).len(), 1);
    let bytes = render_records(&records);
    let text = String::from_utf8(bytes).unwrap();
    assert_eq!(
        text,
        "id,name,description,namespace,version,repo_url,doc_url,origin\n"
    );
}

#[test]
fn header_matches_field_declaration_order() {
    let rows = table_rows(&vec![sample_program("a")]);
    assert_eq!(
        rows[0],
        vec![
            String::from("id"),
            String::from("name"),
            String::from("description"),
            String::from("namespace"),
            String::from("version"),
            String::from("repo_url"),
            String::from("doc_url"),
            String::from("origin"),
        ]
    );
}

#[test]
fn rendered_csv_bytes_are_exact() {
    let bytes = render_records(&vec![sample_program("demo")]);
    let text = String::from_utf8(bytes).unwrap();
    assert_eq!(
        text,
        "id,name,description,namespace,version,repo_url,doc_url,origin\n\
         run-1,demo,null,null,1.0.0,null,null,null\n"
    );
}

#[test]
fn fields_needing_quotes_are_quoted() {
    let bytes = render_records(&vec![sample_program("a,b")]);
    let text = String::from_utf8(bytes).unwrap();
    assert!(text.contains("run-1,\"a,b\",null"));
}

#[test]
fn library_row_renders_sentinel_count() {
    let library = Library::new("run-3", "demo", -1, None);
    let bytes = render_records(&vec![library]);
    let text = String::from_utf8(bytes).unwrap();
    assert_eq!(text, "id,name,usage_count,registry\nrun-3,demo,-1,null\n");
}

#[test]
fn decimal_rendering_is_canonical() {
    assert_eq!(i64_to_string(0), "0");
    assert_eq!(i64_to_string(-1), "-1");
    assert_eq!(i64_to_string(12345), "12345");
    assert_eq!(i64_to_string(i64::MIN), "-9223372036854775808");
    assert_eq!(i64_to_string(i64::MAX), "9223372036854775807");
}

#[test]
fn suffix_stripping() {
    assert_eq!(strip_suffix("repo.git", ".git"), "repo");
    assert_eq!(strip_suffix("repo", ".git"), "repo");
    assert_eq!(strip_suffix("repo.git.git", ".git"), "repo.git");
    assert_eq!(strip_suffix(".git", ".git"), "");
}
