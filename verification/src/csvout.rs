//! Rendering homogeneous record lists to CSV.

use vstd::prelude::*;
use crate::records::Application;
use crate::records::Library;
use crate::records::Program;
use crate::strings::dec_str;
use crate::strings::i64_to_string;

verus! {

/// The canonical text of an optional string field: the string itself, or
/// `null` when absent.
pub open spec fn opt_text(o: Option<Seq<char>>) -> Seq<char> {
    match o {
        Some(s) => s,
        None => "null"@,
    }
}

/// Renders an optional string field in its canonical text form.
pub fn render_opt(o: &Option<String>) -> (r: String)
    ensures
        r@ == opt_text(o.deep_view()),
{
    match o {
        Some(s) => s.clone(),
        None => String::from_str("null"),
    }
}

/// A record type that can enumerate its own fields as text, one column per
/// field name, in declaration order.
pub trait Record {
    /// The field names of the record type, in declaration order.
    spec fn spec_field_names() -> Seq<Seq<char>>;

    /// The rendered fields of this record, in the same order as the names.
    spec fn spec_fields(&self) -> Seq<Seq<char>>;

    /// Every record renders exactly one field per field name.
    proof fn lemma_width(&self)
        ensures
            self.spec_fields().len() == Self::spec_field_names().len(),
    ;

    /// The field names, as text.
    fn field_names() -> (r: Vec<String>)
        ensures
            r.deep_view() == Self::spec_field_names(),
    ;

    /// The rendered fields of this record.
    fn fields(&self) -> (r: Vec<String>)
        ensures
            r.deep_view() == self.spec_fields(),
    ;
}

impl Record for Program {
    open spec fn spec_field_names() -> Seq<Seq<char>> {
        seq![
            "id"@,
            "name"@,
            "description"@,
            "namespace"@,
            "version"@,
            "repo_url"@,
            "doc_url"@,
            "origin"@,
        ]
    }

    open spec fn spec_fields(&self) -> Seq<Seq<char>> {
        seq![
            self.id@,
            self.name@,
            opt_text(self.description.deep_view()),
            opt_text(self.namespace.deep_view()),
            opt_text(self.version.deep_view()),
            opt_text(self.repo_url.deep_view()),
            opt_text(self.doc_url.deep_view()),
            opt_text(self.origin.deep_view()),
        ]
    }

    proof fn lemma_width(&self) {
    }

    fn field_names() -> (r: Vec<String>) {
        let mut r: Vec<String> = Vec::new();
        r.push(String::from_str("id"));
        r.push(String::from_str("name"));
        r.push(String::from_str("description"));
        r.push(String::from_str("namespace"));
        r.push(String::from_str("version"));
        r.push(String::from_str("repo_url"));
        r.push(String::from_str("doc_url"));
        r.push(String::from_str("origin"));
        proof {
            assert(r.deep_view() =~= Self::spec_field_names());
        }
        r
    }

    fn fields(&self) -> (r: Vec<String>) {
        let mut r: Vec<String> = Vec::new();
        r.push(self.id.clone());
        r.push(self.name.clone());
        r.push(render_opt(&self.description));
        r.push(render_opt(&self.namespace));
        r.push(render_opt(&self.version));
        r.push(render_opt(&self.repo_url));
        r.push(render_opt(&self.doc_url));
        r.push(render_opt(&self.origin));
        proof {
            assert(r.deep_view() =~= self.spec_fields());
        }
        r
    }
}

impl Record for Library {
    open spec fn spec_field_names() -> Seq<Seq<char>> {
        seq!["id"@, "name"@, "usage_count"@, "registry"@]
    }

    open spec fn spec_fields(&self) -> Seq<Seq<char>> {
        seq![
            self.id@,
            self.name@,
            dec_str(self.usage_count as int),
            opt_text(self.registry.deep_view()),
        ]
    }

    proof fn lemma_width(&self) {
    }

    fn field_names() -> (r: Vec<String>) {
        let mut r: Vec<String> = Vec::new();
        r.push(String::from_str("id"));
        r.push(String::from_str("name"));
        r.push(String::from_str("usage_count"));
        r.push(String::from_str("registry"));
        proof {
            assert(r.deep_view() =~= Self::spec_field_names());
        }
        r
    }

    fn fields(&self) -> (r: Vec<String>) {
        let mut r: Vec<String> = Vec::new();
        r.push(self.id.clone());
        r.push(self.name.clone());
        r.push(i64_to_string(self.usage_count));
        r.push(render_opt(&self.registry));
        proof {
            assert(r.deep_view() =~= self.spec_fields());
        }
        r
    }
}

impl Record for Application {
    open spec fn spec_field_names() -> Seq<Seq<char>> {
        seq!["id"@, "name"@]
    }

    open spec fn spec_fields(&self) -> Seq<Seq<char>> {
        seq![self.id@, self.name@]
    }

    proof fn lemma_width(&self) {
    }

    fn field_names() -> (r: Vec<String>) {
        let mut r: Vec<String> = Vec::new();
        r.push(String::from_str("id"));
        r.push(String::from_str("name"));
        proof {
            assert(r.deep_view() =~= Self::spec_field_names());
        }
        r
    }

    fn fields(&self) -> (r: Vec<String>) {
        let mut r: Vec<String> = Vec::new();
        r.push(self.id.clone());
        r.push(self.name.clone());
        proof {
            assert(r.deep_view() =~= self.spec_fields());
        }
        r
    }
}

/// The rows written for a record list: one header row of the field names,
/// then one data row per record, each exactly as wide as the header.
pub fn table_rows<T: Record>(records: &Vec<T>) -> (rows: Vec<Vec<String>>)
    ensures
        rows@.len() == 1 + records@.len(),
        rows@[0].deep_view() == T::spec_field_names(),
        forall|i: int|
            0 <= i < records@.len() ==> rows@[i + 1].deep_view() == records@[i].spec_fields(),
        forall|i: int|
            0 <= i < rows@.len() ==> rows@[i].deep_view().len()
                == T::spec_field_names().len(),
{
    let mut rows: Vec<Vec<String>> = Vec::new();
    rows.push(T::field_names());
    let mut i: usize = 0;
    while i < records.len()
        invariant
            i <= records@.len(),
            rows@.len() == 1 + i,
            rows@[0].deep_view() == T::spec_field_names(),
            forall|j: int|
                0 <= j < i ==> rows@[j + 1].deep_view() == records@[j].spec_fields(),
            forall|j: int|
                0 <= j < rows@.len() ==> rows@[j].deep_view().len()
                    == T::spec_field_names().len(),
        decreases records@.len() - i,
    {
        proof {
            records@[i as int].lemma_width();
        }
        let row = records[i].fields();
        rows.push(row);
        i = i + 1;
    }
    rows
}

/// What the tabular writer emits for one record: its fields as one CSV
/// line, quoted as needed; the bytes depend on the fields alone.
pub uninterp spec fn csv_record_line(fields: Seq<Seq<char>>) -> Seq<u8>;

/// Relies on `csv::Writer` over an in-memory buffer: writing one record
/// yields one CSV-encoded line whose bytes depend on the fields alone,
/// and it cannot fail — the buffer's io never errors, and a fresh writer
/// has no earlier record to check a length against.
#[verifier::external_body]
fn encode_record(fields: &Vec<String>) -> (r: Vec<u8>)
    ensures
        r@ == csv_record_line(fields.deep_view()),
{
    let mut writer = csv::Writer::from_writer(Vec::new());
    writer.write_record(fields).expect("an in-memory record write cannot fail");
    writer.into_inner().expect("an in-memory flush cannot fail")
}

/// Renders one record's fields as a single CSV line.
pub fn render_row(fields: &Vec<String>) -> (r: Vec<u8>)
    ensures
        r@ == csv_record_line(fields.deep_view()),
{
    encode_record(fields)
}

/// The bytes of a whole table: each row's CSV line, in order.
pub open spec fn csv_table(rows: Seq<Seq<Seq<char>>>) -> Seq<u8>
    decreases rows.len(),
{
    if rows.len() == 0 {
        Seq::empty()
    } else {
        csv_table(rows.drop_last()) + csv_record_line(rows.last())
    }
}

/// Renders a list of rows as CSV bytes, one line per row in order.
pub fn render_rows(rows: &Vec<Vec<String>>) -> (r: Vec<u8>)
    ensures
        r@ == csv_table(rows.deep_view()),
{
    let mut out: Vec<u8> = Vec::new();
    let mut i: usize = 0;
    while i < rows.len()
        invariant
            i <= rows@.len(),
            out@ == csv_table(rows.deep_view().take(i as int)),
        decreases rows@.len() - i,
    {
        let mut line = encode_record(&rows[i]);
        out.append(&mut line);
        proof {
            assert(rows.deep_view().take(i + 1).drop_last() =~= rows.deep_view().take(
                i as int,
            ));
            assert(rows.deep_view().take(i + 1).last() == rows.deep_view()[i as int]);
        }
        i = i + 1;
    }
    proof {
        assert(rows.deep_view().take(rows@.len() as int) =~= rows.deep_view());
    }
    out
}

/// The rows-as-text image of a record list: header first, then one row per
/// record.
pub open spec fn spec_record_rows<T: Record>(records: Seq<T>) -> Seq<Seq<Seq<char>>> {
    seq![T::spec_field_names()] + records.map(|i: int, r: T| r.spec_fields())
}

/// Writing a batch of records yields exactly one header row plus one data
/// row per record, in order, each data row exactly as wide as the header.
pub proof fn lemma_table_shape<T: Record>(records: Seq<T>)
    ensures
        spec_record_rows(records).len() == 1 + records.len(),
        spec_record_rows(records)[0] == T::spec_field_names(),
        forall|i: int|
            0 <= i < records.len() ==> spec_record_rows(records)[i + 1] == records[i].spec_fields(),
        forall|i: int|
            0 <= i < spec_record_rows(records).len() ==> #[trigger] spec_record_rows(
                records,
            )[i].len() == T::spec_field_names().len(),
{
    assert forall|i: int|
        0 <= i < spec_record_rows(records).len() implies #[trigger] spec_record_rows(
        records,
    )[i].len() == T::spec_field_names().len() by {
        if i > 0 {
            records[i - 1].lemma_width();
        }
    }
}

/// Renders a record list as CSV bytes: the header line of field names,
/// then one line per record in order.
pub fn render_records<T: Record>(records: &Vec<T>) -> (r: Vec<u8>)
    ensures
        r@ == csv_table(spec_record_rows(records@)),
{
    let rows = table_rows(records);
    let rendered = render_rows(&rows);
    proof {
        assert(rows.deep_view() =~= spec_record_rows(records@));
    }
    rendered
}

} // verus!
