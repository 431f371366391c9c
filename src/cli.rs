//! The values the command line hands the library, with the parsers that read
//! them and the checks on the paths it names.
use vstd::prelude::*;

pub mod base64;
pub mod csv;
pub mod genpass;
pub mod http;
pub mod jwt;
pub mod text;

pub use self::base64::{Base64DecodeOpts, Base64EncodeOpts, Base64Format, Base64SubCommand};
pub use self::csv::{CsvOpts, OutputFormat};
pub use self::genpass::GenPassOpts;
pub use self::http::{HttpServeOpts, HttpSubCommand};
pub use self::jwt::{ExpObj, JwtSignOpts, JwtSubCommand, JwtVerifyOpts, TimeUnit};
pub use self::text::{
    DecryptOpts, EncryptOpts, TextCryptFormat, TextKeyGenerateOpts, TextSignFormat, TextSignOpts,
    TextSubCommand, TextVerifyOpts,
};

verus! {

/// Why a value given on the command line was not understood.
#[derive(Debug, Clone, Copy, PartialEq, Eq, Structural)]
pub enum CliError {
    /// A base64 flavour other than `standard` and `urlsafe`.
    InvalidFormat,
    /// An output format other than `json`, `yaml` and `toml`.
    UnsupportedFormat,
    /// A time unit other than `M`, `D` and `m`.
    InvalidTimeUnit,
}

/// The whole command line.
#[derive(Debug, Clone)]
pub struct Opts {
    pub cmd: SubCommand,
}

/// The commands.
#[derive(Debug, Clone)]
pub enum SubCommand {
    Csv(CsvOpts),
    GenPass(GenPassOpts),
    Base64(Base64SubCommand),
    Text(TextSubCommand),
    Http(HttpSubCommand),
}

/// Whether two strings hold the same characters.
pub fn str_eq(a: &str, b: &str) -> (r: bool)
    ensures
        r == (a@ == b@),
{
    let n = a.unicode_len();
    let m = b.unicode_len();
    if n != m {
        return false;
    }
    let mut i: usize = 0;
    while i < n
        invariant
            n == a@.len(),
            n == b@.len(),
            i <= n,
            forall|j: int| 0 <= j < i ==> a@[j] == b@[j],
        decreases n - i,
    {
        if a.get_char(i) != b.get_char(i) {
            return false;
        }
        i = i + 1;
    }
    assert(a@ =~= b@);
    true
}

/// Relies on `std::path::Path::exists`: what is on disk now; nothing is promised.
#[verifier::external_body]
fn path_exists(path: &str) -> (r: bool) {
    std::path::Path::new(path).exists()
}

/// Relies on `std::path::Path::is_dir`: what is on disk now; nothing is promised.
#[verifier::external_body]
fn path_is_dir(path: &str) -> (r: bool) {
    std::path::Path::new(path).is_dir()
}

/// Accepts an input designator: `-` (standard input) or a path that exists.
pub fn check_input_file(file_name: &str, exists: bool) -> (r: Result<String, &'static str>)
    ensures
        file_name@ == "-"@ || exists ==> (r matches Ok(s) && s@ == file_name@),
        !(file_name@ == "-"@ || exists) ==> (r matches Err(m) && m@ == "File does not exist"@),
{
    if str_eq(file_name, "-") || exists {
        Ok(String::from_str(file_name))
    } else {
        Err("File does not exist")
    }
}

/// Accepts a directory path: one that exists and is a directory.
pub fn check_dir_path(path: &str, exists: bool, is_dir: bool) -> (r: Result<String, &'static str>)
    ensures
        exists && is_dir ==> (r matches Ok(s) && s@ == path@),
        !(exists && is_dir) ==> (r matches Err(m) && m@
            == "Path does not exist or is not a directory"@),
{
    if exists && is_dir {
        Ok(String::from_str(path))
    } else {
        Err("Path does not exist or is not a directory")
    }
}

/// Accepts `-` or the path of something that exists on disk.
pub fn verify_file(file_name: &str) -> (r: Result<String, &'static str>)
    ensures
        file_name@ == "-"@ ==> (r matches Ok(s) && s@ == file_name@),
        r matches Ok(s) ==> s@ == file_name@,
        r matches Err(m) ==> m@ == "File does not exist"@,
{
    if str_eq(file_name, "-") {
        return check_input_file(file_name, false);
    }
    let exists = path_exists(file_name);
    check_input_file(file_name, exists)
}

/// Accepts the path of a directory that exists on disk.
pub fn verify_path(path: &str) -> (r: Result<String, &'static str>)
    ensures
        r matches Ok(s) ==> s@ == path@,
        r matches Err(m) ==> m@ == "Path does not exist or is not a directory"@,
{
    let exists = path_exists(path);
    let is_dir = exists && path_is_dir(path);
    check_dir_path(path, exists, is_dir)
}

} // verus!
