//! Options of the CSV conversion command.
use vstd::prelude::*;

use crate::cli::{str_eq, CliError};

verus! {

/// Converts a CSV file.
#[derive(Debug, Clone)]
pub struct CsvOpts {
    pub input: String,
    pub output: Option<String>,
    pub format: OutputFormat,
    pub delimiter: char,
    pub header: bool,
}

/// The format a CSV file is converted to.
#[derive(Debug, Clone, Copy, PartialEq, Eq, Structural)]
pub enum OutputFormat {
    Json,
    Yaml,
    Toml,
}

/// The output format a name stands for.
pub open spec fn output_format_spec(s: Seq<char>) -> Result<OutputFormat, CliError> {
    if s == "json"@ {
        Ok(OutputFormat::Json)
    } else if s == "yaml"@ {
        Ok(OutputFormat::Yaml)
    } else if s == "toml"@ {
        Ok(OutputFormat::Toml)
    } else {
        Err(CliError::UnsupportedFormat)
    }
}

impl OutputFormat {
    /// The name the format is written with, which is also the file extension.
    pub fn as_str(&self) -> (r: &'static str)
        ensures
            r@ == match *self {
                OutputFormat::Json => "json"@,
                OutputFormat::Yaml => "yaml"@,
                OutputFormat::Toml => "toml"@,
            },
    {
        match self {
            OutputFormat::Json => "json",
            OutputFormat::Yaml => "yaml",
            OutputFormat::Toml => "toml",
        }
    }

    /// Reads a format from its name.
    pub fn from_name(s: &str) -> (r: Result<OutputFormat, CliError>)
        ensures
            r == output_format_spec(s@),
    {
        if str_eq(s, "json") {
            Ok(OutputFormat::Json)
        } else if str_eq(s, "yaml") {
            Ok(OutputFormat::Yaml)
        } else if str_eq(s, "toml") {
            Ok(OutputFormat::Toml)
        } else {
            Err(CliError::UnsupportedFormat)
        }
    }
}

/// Reads an output format from its name.
pub fn parse_format(format: &str) -> (r: Result<OutputFormat, CliError>)
    ensures
        r == output_format_spec(format@),
{
    OutputFormat::from_name(format)
}

} // verus!
