//! The options of the command-line tool, as plain values, and the checks
//! that its arguments go through.

pub mod base64;
pub mod csv;
pub mod genpass;
pub mod http;
pub mod jwt;
pub mod text;

use vstd::prelude::*;
use vstd::string::StringExecFns;
use crate::cli::base64::Base64SubCommand;
use crate::cli::csv::CsvOpts;
use crate::cli::genpass::GenPassOpts;
use crate::cli::http::HttpSubCommand;
use crate::cli::jwt::JwtSubCommand;
use crate::cli::text::TextSubCommand;
use crate::strings::str_eq;

verus! {

/// One invocation of the tool.
#[derive(Debug, Clone, PartialEq, Eq)]
pub struct Opts {
    /// The command to run.
    pub cmd: SubCommand,
}

/// The commands of the tool.
#[derive(Debug, Clone, PartialEq, Eq)]
pub enum SubCommand {
    /// Show CSV, or convert CSV to other formats.
    Csv(CsvOpts),
    /// Generate a random password.
    GenPass(GenPassOpts),
    /// Base64 encode or decode.
    Base64(Base64SubCommand),
    /// Sign or verify text, or generate a key.
    Text(TextSubCommand),
    /// Sign or verify a JSON web token.
    Jwt(JwtSubCommand),
    /// Serve a directory over HTTP.
    Http(HttpSubCommand),
}

/// What the check of an input argument yields, given whether a file of that
/// name exists: the name itself where it is `-`, which stands for standard
/// input, or names an existing file, and a message otherwise.
pub open spec fn file_check(filename: Seq<char>, exists: bool) -> Result<Seq<char>, Seq<char>> {
    if filename == "-"@ || exists {
        Ok(filename)
    } else {
        Err("文件 '"@ + filename + "' 不存在"@)
    }
}

/// The characters of an outcome that carries strings.
pub open spec fn text_outcome(r: Result<String, String>) -> Result<Seq<char>, Seq<char>> {
    match r {
        Ok(s) => Ok(s@),
        Err(e) => Err(e@),
    }
}

/// Calls `Path::exists` of std. The answer depends on the file system, so
/// nothing is known of it.
#[verifier::external_body]
pub(crate) fn path_exists(path: &str) -> bool {
    std::path::Path::new(path).exists()
}

/// Calls `Path::is_dir` of std. The answer depends on the file system, so
/// nothing is known of it.
#[verifier::external_body]
pub(crate) fn path_is_dir(path: &str) -> bool {
    std::path::Path::new(path).is_dir()
}

/// Decides on an input argument, given whether a file of that name exists.
pub fn check_file(filename: &str, exists: bool) -> (r: Result<String, String>)
    ensures
        text_outcome(r) == file_check(filename@, exists),
{
    if str_eq(filename, "-") || exists {
        Ok(filename.to_owned())
    } else {
        let mut message = "文件 '".to_owned();
        message.append(filename);
        message.append("' 不存在");
        Err(message)
    }
}

/// Checks an input argument: `-` is taken as it is, any other name only if
/// a file of that name exists.
pub fn verify_file(filename: &str) -> (r: Result<String, String>)
    ensures
        filename@ == "-"@ ==> text_outcome(r) == file_check(filename@, true),
        text_outcome(r) == file_check(filename@, true) || text_outcome(r) == file_check(
            filename@,
            false,
        ),
{
    if str_eq(filename, "-") {
        check_file(filename, true)
    } else {
        check_file(filename, path_exists(filename))
    }
}

/// Checks an input argument, as [`verify_file`] does.
pub fn verify_input_file(filename: &str) -> (r: Result<String, String>)
    ensures
        filename@ == "-"@ ==> text_outcome(r) == file_check(filename@, true),
        text_outcome(r) == file_check(filename@, true) || text_outcome(r) == file_check(
            filename@,
            false,
        ),
{
    verify_file(filename)
}

/// What the check of an output directory yields, given what the file system
/// says of the path.
pub open spec fn path_check(path: Seq<char>, exists: bool, is_dir: bool) -> Result<
    Seq<char>,
    Seq<char>,
> {
    if exists && is_dir {
        Ok(path)
    } else {
        Err("Path does not exist or is not a directory"@)
    }
}

/// Decides on an output directory, given what the file system says of it.
pub fn check_path(path: &str, exists: bool, is_dir: bool) -> (r: Result<String, &'static str>)
    ensures
        match r {
            Ok(p) => path_check(path@, exists, is_dir) == Ok::<Seq<char>, Seq<char>>(p@),
            Err(e) => path_check(path@, exists, is_dir) == Err::<Seq<char>, Seq<char>>(e@),
        },
{
    if exists && is_dir {
        Ok(path.to_owned())
    } else {
        Err("Path does not exist or is not a directory")
    }
}

/// Checks an output directory: the path is taken only if it exists and is a
/// directory.
pub fn verify_path(path: &str) -> (r: Result<String, &'static str>)
    ensures
        match r {
            Ok(p) => p@ == path@,
            Err(e) => e@ == "Path does not exist or is not a directory"@,
        },
{
    let exists = path_exists(path);
    let is_dir = exists && path_is_dir(path);
    check_path(path, exists, is_dir)
}

} // verus!
