//! Conversion of CSV text to JSON, YAML or TOML.
//!
//! The CSV text is parsed by the `csv` crate and the result is written out
//! by `serde_json`, `serde_yaml` or `toml`. In between, every record becomes
//! one row of named fields: the n-th field of a record is named by the n-th
//! header, and what has no counterpart is dropped.

use vstd::prelude::*;
use vstd::string::StringExecFns;
use crate::cli::csv::CsvOpts;
use crate::cli::csv::OutputFormat;
use crate::strings::ascii_chars;
use crate::strings::lemma_ascii_is_utf8;
use crate::strings::opt_text;
use crate::strings::string_from_utf8;

verus! {

/// Why a CSV text was not converted.
#[derive(Clone, Copy, Debug, PartialEq, Eq, Structural)]
pub enum CsvError {
    /// The text is not CSV: a record is malformed, or not all records have
    /// as many fields as the header.
    InvalidCsv,
    /// The rows cannot be written in the format asked for.
    Serialization,
}

/// A CSV text taken apart.
#[derive(Debug, Clone, PartialEq, Eq)]
pub struct CsvTable {
    /// The fields of the first record.
    pub headers: Vec<String>,
    /// The fields of every further record.
    pub records: Vec<Vec<String>>,
}

/// A field of a row: its name and its value.
pub type Field = (String, String);

/// The characters of the fields of one record.
pub open spec fn record_view(record: Vec<String>) -> Seq<Seq<char>> {
    Seq::new(record@.len(), |j: int| record@[j]@)
}

/// The characters of the fields of every record.
pub open spec fn records_view(records: Vec<Vec<String>>) -> Seq<Seq<Seq<char>>> {
    Seq::new(records@.len(), |i: int| record_view(records@[i]))
}

/// Name and value of every field of a row.
pub open spec fn row_view(row: Vec<Field>) -> Seq<(Seq<char>, Seq<char>)> {
    Seq::new(row@.len(), |j: int| (row@[j].0@, row@[j].1@))
}

/// Name and value of every field of every row.
pub open spec fn rows_view(rows: Vec<Vec<Field>>) -> Seq<Seq<(Seq<char>, Seq<char>)>> {
    Seq::new(rows@.len(), |i: int| row_view(rows@[i]))
}

/// Headers and records of a table, if there is one.
pub open spec fn table_view(table: Option<CsvTable>) -> Option<
    (Seq<Seq<char>>, Seq<Seq<Seq<char>>>),
> {
    match table {
        Some(table) => Some((record_view(table.headers), records_view(table.records))),
        None => None,
    }
}

/// Headers and records that the `csv` crate reads from `data` with its
/// default settings, if it reads it without error.
pub uninterp spec fn csv_parsed(data: Seq<u8>) -> Option<(Seq<Seq<char>>, Seq<Seq<Seq<char>>>)>;

/// The pretty-printed JSON array that `serde_json` writes for the rows, each
/// an object of strings.
pub uninterp spec fn json_pretty(rows: Seq<Seq<(Seq<char>, Seq<char>)>>) -> Option<Seq<char>>;

/// The YAML sequence that `serde_yaml` writes for the rows, each a mapping
/// of strings.
pub uninterp spec fn yaml_text(rows: Seq<Seq<(Seq<char>, Seq<char>)>>) -> Option<Seq<char>>;

/// The pretty-printed TOML document that `toml` writes for the table that
/// holds each row under its key.
pub uninterp spec fn toml_pretty(
    keys: Seq<Seq<char>>,
    rows: Seq<Seq<(Seq<char>, Seq<char>)>>,
) -> Option<Seq<char>>;

/// Calls `csv::Reader::from_reader` on the text and collects what
/// `headers` and `records` yield. The outcome is named [`csv_parsed`].
#[verifier::external_body]
fn parse_csv(data: &[u8]) -> (table: Option<CsvTable>)
    ensures
        table_view(table) == csv_parsed(data@),
{
    let mut reader = csv::Reader::from_reader(data);
    let headers = reader.headers().ok()?.iter().map(String::from).collect();
    let records = reader.records().map(|r| r.map(|fields| fields.iter().map(String::from).collect()));
    Some(CsvTable { headers, records: records.collect::<Result<Vec<Vec<String>>, csv::Error>>().ok()? })
}

/// Calls `serde_json::to_string_pretty` on the rows, each made an object
/// of strings. The text is named [`json_pretty`].
#[verifier::external_body]
fn to_json(rows: &Vec<Vec<Field>>) -> (text: Option<String>)
    ensures
        opt_text(text) == json_pretty(rows_view(*rows)),
{
    let objects: Vec<serde_json::Value> = rows.iter().map(
        |row| row.iter().map(|(k, v)| (k.clone(), serde_json::Value::String(v.clone()))).collect(),
    ).map(serde_json::Value::Object).collect();
    serde_json::to_string_pretty(&objects).ok()
}

/// Calls `serde_yaml::to_string` on the rows, each made an object of
/// strings. The text is named [`yaml_text`].
#[verifier::external_body]
fn to_yaml(rows: &Vec<Vec<Field>>) -> (text: Option<String>)
    ensures
        opt_text(text) == yaml_text(rows_view(*rows)),
{
    let objects: Vec<serde_json::Value> = rows.iter().map(
        |row| row.iter().map(|(k, v)| (k.clone(), serde_json::Value::String(v.clone()))).collect(),
    ).map(serde_json::Value::Object).collect();
    serde_yaml::to_string(&objects).ok()
}

/// Calls `toml::to_string_pretty` on the table that holds each row, made an
/// object of strings, under the key of the same position. The text is named
/// [`toml_pretty`].
#[verifier::external_body]
fn to_toml(keys: &Vec<String>, rows: &Vec<Vec<Field>>) -> (text: Option<String>)
    requires
        keys@.len() == rows@.len(),
    ensures
        opt_text(text) == toml_pretty(record_view(*keys), rows_view(*rows)),
{
    let objects = rows.iter().map(
        |row| row.iter().map(|(k, v)| (k.clone(), serde_json::Value::String(v.clone()))).collect(),
    ).map(serde_json::Value::Object);
    let table: serde_json::Map<String, serde_json::Value> = keys.iter().cloned().zip(objects).collect();
    toml::to_string_pretty(&serde_json::Value::Object(table)).ok()
}

/// The row that a record makes under the headers: field by field, as far as
/// both reach.
pub open spec fn row_of(headers: Seq<Seq<char>>, record: Seq<Seq<char>>) -> Seq<
    (Seq<char>, Seq<char>),
> {
    Seq::new(
        if headers.len() <= record.len() {
            headers.len()
        } else {
            record.len()
        },
        |j: int| (headers[j], record[j]),
    )
}

/// The rows that the records make under the headers.
pub open spec fn rows_of(headers: Seq<Seq<char>>, records: Seq<Seq<Seq<char>>>) -> Seq<
    Seq<(Seq<char>, Seq<char>)>,
> {
    Seq::new(records.len(), |i: int| row_of(headers, records[i]))
}

/// The decimal digits of `n`, as ASCII bytes.
pub open spec fn decimal_digits(n: nat) -> Seq<u8>
    decreases n,
{
    if n < 10 {
        seq![(48 + n) as u8]
    } else {
        decimal_digits(n / 10).push((48 + n % 10) as u8)
    }
}

/// The keys under which a TOML document holds `count` rows: their
/// positions, in decimal.
pub open spec fn index_keys(count: nat) -> Seq<Seq<char>> {
    Seq::new(count, |i: int| ascii_chars(decimal_digits(i as nat)))
}

/// What converting a table yields.
pub open spec fn table_outcome(
    headers: Seq<Seq<char>>,
    records: Seq<Seq<Seq<char>>>,
    format: OutputFormat,
) -> Result<Seq<char>, CsvError> {
    let rows = rows_of(headers, records);
    let text = match format {
        OutputFormat::Json => json_pretty(rows),
        OutputFormat::Yaml => yaml_text(rows),
        OutputFormat::Toml => toml_pretty(index_keys(rows.len()), rows),
    };
    match text {
        Some(text) => Ok(text),
        None => Err(CsvError::Serialization),
    }
}

/// What converting a CSV text yields.
pub open spec fn csv_outcome(data: Seq<u8>, format: OutputFormat) -> Result<Seq<char>, CsvError> {
    match csv_parsed(data) {
        Some((headers, records)) => table_outcome(headers, records, format),
        None => Err(CsvError::InvalidCsv),
    }
}

/// Makes a row of a record.
fn zip_row(headers: &Vec<String>, record: &Vec<String>) -> (row: Vec<Field>)
    ensures
        row_view(row) == row_of(record_view(*headers), record_view(*record)),
{
    let mut row: Vec<Field> = Vec::new();
    let mut j: usize = 0;
    while j < headers.len() && j < record.len()
        invariant
            j <= headers@.len(),
            j <= record@.len(),
            row@.len() == j,
            forall|k: int|
                0 <= k < j ==> (#[trigger] row@[k]).0@ == headers@[k]@ && row@[k].1@
                    == record@[k]@,
        decreases headers@.len() - j,
    {
        row.push((headers[j].clone(), record[j].clone()));
        j += 1;
    }
    assert(row_view(row) =~= row_of(record_view(*headers), record_view(*record)));
    row
}

/// Appends the decimal digits of `n`.
fn push_decimal(n: usize, digits: &mut Vec<u8>)
    ensures
        final(digits)@ == old(digits)@ + decimal_digits(n as nat),
    decreases n,
{
    if n < 10 {
        digits.push(48 + n as u8);
        assert(digits@ =~= old(digits)@ + decimal_digits(n as nat));
    } else {
        push_decimal(n / 10, digits);
        digits.push(48 + (n % 10) as u8);
        assert(digits@ =~= old(digits)@ + decimal_digits(n as nat));
    }
}

/// Every decimal digit is an ASCII digit.
proof fn lemma_decimal_digits_are_ascii(n: nat)
    ensures
        forall|i: int| 0 <= i < decimal_digits(n).len() ==> decimal_digits(n)[i] < 128,
    decreases n,
{
    if n >= 10 {
        lemma_decimal_digits_are_ascii(n / 10);
        let head = decimal_digits(n / 10);
        let last = (48 + n % 10) as u8;
        assert(decimal_digits(n) == head.push(last));
        assert forall|i: int| 0 <= i < decimal_digits(n).len() implies decimal_digits(n)[i]
            < 128 by {
            if i < head.len() {
                assert(head.push(last)[i] == head[i]);
            }
        }
    } else {
        assert(decimal_digits(n) =~= seq![(48 + n) as u8]);
    }
}

/// The decimal notation of `n`.
pub fn decimal_string(n: usize) -> (s: String)
    ensures
        s@ == ascii_chars(decimal_digits(n as nat)),
{
    let mut digits: Vec<u8> = Vec::new();
    push_decimal(n, &mut digits);
    proof {
        assert(digits@ =~= decimal_digits(n as nat));
        lemma_decimal_digits_are_ascii(n as nat);
        lemma_ascii_is_utf8(digits@);
    }
    match string_from_utf8(digits) {
        Ok(s) => s,
        Err(_) => String::new(),
    }
}

/// Converts a table to text in the format asked for.
pub fn convert_table(table: &CsvTable, format: OutputFormat) -> (r: Result<String, CsvError>)
    ensures
        match r {
            Ok(text) => table_outcome(
                record_view(table.headers),
                records_view(table.records),
                format,
            ) == Ok::<Seq<char>, CsvError>(text@),
            Err(e) => table_outcome(
                record_view(table.headers),
                records_view(table.records),
                format,
            ) == Err::<Seq<char>, CsvError>(e),
        },
{
    let mut rows: Vec<Vec<Field>> = Vec::new();
    let mut keys: Vec<String> = Vec::new();
    let mut i: usize = 0;
    while i < table.records.len()
        invariant
            i <= table.records@.len(),
            rows@.len() == i,
            keys@.len() == i,
            forall|k: int|
                0 <= k < i ==> row_view(#[trigger] rows@[k]) == row_of(
                    record_view(table.headers),
                    record_view(table.records@[k]),
                ),
            forall|k: int| 0 <= k < i ==> (#[trigger] keys@[k])@ == ascii_chars(decimal_digits(k as nat)),
        decreases table.records@.len() - i,
    {
        rows.push(zip_row(&table.headers, &table.records[i]));
        keys.push(decimal_string(i));
        i += 1;
    }
    proof {
        assert(rows_view(rows) =~= rows_of(
            record_view(table.headers),
            records_view(table.records),
        ));
        assert(record_view(keys) =~= index_keys(rows@.len() as nat));
    }
    let text = match format {
        OutputFormat::Json => to_json(&rows),
        OutputFormat::Yaml => to_yaml(&rows),
        OutputFormat::Toml => to_toml(&keys, &rows),
    };
    match text {
        Some(text) => Ok(text),
        None => Err(CsvError::Serialization),
    }
}

/// Converts CSV text to text in the format asked for.
pub fn process_csv(data: &[u8], format: OutputFormat) -> (r: Result<String, CsvError>)
    ensures
        match r {
            Ok(text) => csv_outcome(data@, format) == Ok::<Seq<char>, CsvError>(text@),
            Err(e) => csv_outcome(data@, format) == Err::<Seq<char>, CsvError>(e),
        },
{
    match parse_csv(data) {
        Some(table) => convert_table(&table, format),
        None => Err(CsvError::InvalidCsv),
    }
}

/// The name of the file that the conversion is written to: the one given,
/// else `output` with the format's name as extension.
pub open spec fn output_name(output: Option<Seq<char>>, format: OutputFormat) -> Seq<char> {
    match output {
        Some(name) => name,
        None => "output."@ + format.name(),
    }
}

impl CsvOpts {
    /// The name of the file that the conversion is written to.
    pub fn output_file(&self) -> (name: String)
        ensures
            name@ == output_name(opt_text(self.output), self.format),
    {
        match &self.output {
            Some(name) => name.clone(),
            None => {
                let mut name = "output.".to_owned();
                name.append(self.format.as_str());
                name
            },
        }
    }
}

} // verus!
