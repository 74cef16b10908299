//! The commands of the command-line client: the decisions each one takes
//! and the text each one shows, apart from the input and output around them.

pub mod decrypt;
pub mod download;
pub mod encrypt;
pub mod init;
pub mod join;
pub mod list;
pub mod status;
pub mod upload;

pub use decrypt::DecryptCommand;
pub use download::DownloadCommand;
pub use encrypt::EncryptCommand;
pub use init::InitCommand;
pub use join::JoinCommand;
pub use list::ListCommand;
pub use status::StatusCommand;
pub use upload::UploadCommand;

use vstd::prelude::*;
use crate::config::strings_view;

verus! {

/// Why a command refuses to go on.
#[derive(Clone, Debug)]
pub enum CommandError {
    /// An output format that the command does not offer.
    InvalidFormat(String),
    /// A sort column that `list` does not offer.
    InvalidSortColumn(String),
    /// No file in the network has the requested hash.
    FileNotFound(String),
    /// The output path exists and overwriting was not allowed.
    OutputExists(String),
    /// The input path does not exist.
    PathMissing(String),
    /// The input path is not a regular file.
    NotAFile(String),
    /// A file does not have the size it should have.
    SizeMismatch { expected: u64, actual: u64 },
    /// The password is shorter than 8 bytes.
    PasswordTooShort,
    /// The encrypted file has a format version other than 1.
    UnsupportedVersion(u32),
}

/// Refuses an input path that does not exist or is not a regular file.
pub fn check_input_file(path: &str, present: bool, is_file: bool) -> (r: Result<(), CommandError>)
    ensures
        (present && is_file) <==> r is Ok,
        !present ==> (r matches Err(CommandError::PathMissing(p)) && p@ == path@),
        present && !is_file ==> (r matches Err(CommandError::NotAFile(p)) && p@ == path@),
{
    if !present {
        Err(CommandError::PathMissing(String::from_str(path)))
    } else if !is_file {
        Err(CommandError::NotAFile(String::from_str(path)))
    } else {
        Ok(())
    }
}

/// Refuses to write over an existing output unless `force` allows it.
pub fn check_overwrite(path: &str, present: bool, force: bool) -> (r: Result<(), CommandError>)
    ensures
        (!present || force) <==> r is Ok,
        present && !force ==> (r matches Err(CommandError::OutputExists(p)) && p@ == path@),
{
    if present && !force {
        Err(CommandError::OutputExists(String::from_str(path)))
    } else {
        Ok(())
    }
}

/// Refuses a file whose size is not the expected one.
pub fn check_size(expected: u64, actual: u64) -> (r: Result<(), CommandError>)
    ensures
        expected == actual <==> r is Ok,
        expected != actual ==> (r matches Err(CommandError::SizeMismatch { expected: e, actual: a })
            && e == expected && a == actual),
{
    if expected != actual {
        Err(CommandError::SizeMismatch { expected, actual })
    } else {
        Ok(())
    }
}

/// `label` followed by `value`.
pub fn labelled(label: &str, value: &str) -> (r: String)
    ensures
        r@ == label@ + value@,
{
    let mut r = String::from_str(label);
    r.append(value);
    r
}

/// Appends a line to a list of lines.
pub fn push_line(out: &mut Vec<String>, line: String)
    ensures
        strings_view(final(out)@) == strings_view(old(out)@).push(line@),
{
    let ghost before = strings_view(out@);
    out.push(line);
    assert(strings_view(out@) =~= before.push(line@));
}

} // verus!
