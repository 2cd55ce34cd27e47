//! Options of the `csv` command.

use vstd::prelude::*;
use crate::error::InvalidFormat;
use crate::strings::str_eq;

verus! {

/// The format a CSV file is converted to.
#[derive(Debug, Clone, Copy, PartialEq, Eq, Structural)]
pub enum OutputFormat {
    /// A JSON array of objects.
    Json,
    /// A YAML sequence of mappings.
    Yaml,
    /// A TOML table of tables, keyed by row number.
    Toml,
}

/// What to convert, and how.
#[derive(Debug, Clone, PartialEq, Eq)]
pub struct CsvOpts {
    /// The CSV file.
    pub input: String,
    /// The file to write; by default `output` with the format's name as
    /// extension.
    pub output: Option<String>,
    /// The format to convert to.
    pub format: OutputFormat,
    /// The character that separates fields.
    pub delimiter: char,
    /// Whether the first line names the columns.
    pub header: bool,
}

impl OutputFormat {
    /// The name by which the format is chosen on the command line.
    pub open spec fn name(self) -> Seq<char> {
        match self {
            OutputFormat::Json => "json"@,
            OutputFormat::Yaml => "yaml"@,
            OutputFormat::Toml => "toml"@,
        }
    }

    /// The format's name.
    pub fn as_str(self) -> (name: &'static str)
        ensures
            name@ == self.name(),
    {
        match self {
            OutputFormat::Json => "json",
            OutputFormat::Yaml => "yaml",
            OutputFormat::Toml => "toml",
        }
    }

    /// The format's name, as an owned string.
    pub fn to_string(self) -> (name: String)
        ensures
            name@ == self.name(),
    {
        self.as_str().to_owned()
    }
}

/// The format that a name stands for, if any.
pub open spec fn output_format_named(name: Seq<char>) -> Result<OutputFormat, InvalidFormat> {
    if name == "json"@ {
        Ok(OutputFormat::Json)
    } else if name == "yaml"@ {
        Ok(OutputFormat::Yaml)
    } else if name == "toml"@ {
        Ok(OutputFormat::Toml)
    } else {
        Err(InvalidFormat)
    }
}

/// Reads an output format from its name.
pub fn parse_format(format: &str) -> (r: Result<OutputFormat, InvalidFormat>)
    ensures
        r == output_format_named(format@),
{
    if str_eq(format, "json") {
        Ok(OutputFormat::Json)
    } else if str_eq(format, "yaml") {
        Ok(OutputFormat::Yaml)
    } else if str_eq(format, "toml") {
        Ok(OutputFormat::Toml)
    } else {
        Err(InvalidFormat)
    }
}

/// Every format is read back from its own name.
pub proof fn lemma_output_format_name_parses(format: OutputFormat)
    ensures
        output_format_named(format.name()) == Ok::<OutputFormat, InvalidFormat>(format),
{
    reveal_strlit("json");
    reveal_strlit("yaml");
    reveal_strlit("toml");
    assert("json"@[0] != "yaml"@[0]);
    assert("json"@[0] != "toml"@[0]);
    assert("yaml"@[0] != "toml"@[0]);
}

impl From<OutputFormat> for &'static str {
    fn from(format: OutputFormat) -> (name: Self) {
        match format {
            OutputFormat::Json => "json",
            OutputFormat::Yaml => "yaml",
            OutputFormat::Toml => "toml",
        }
    }
}

impl vstd::std_specs::convert::FromSpecImpl<OutputFormat> for &'static str {
    open spec fn obeys_from_spec() -> bool {
        true
    }

    open spec fn from_spec(format: OutputFormat) -> Self {
        match format {
            OutputFormat::Json => "json",
            OutputFormat::Yaml => "yaml",
            OutputFormat::Toml => "toml",
        }
    }
}

impl std::str::FromStr for OutputFormat {
    type Err = InvalidFormat;

    fn from_str(s: &str) -> (r: Result<Self, Self::Err>)
        ensures
            r == output_format_named(s@),
    {
        parse_format(s)
    }
}

} // verus!
