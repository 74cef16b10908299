//! `download`: which file to fetch, where to put it and how to check it.

use vstd::prelude::*;
use crate::client::FileInfo;
use crate::commands::{CommandError, check_overwrite, check_size, labelled, push_line};
use crate::config::{opt_view, strings_view};
use crate::display::{binary_size, binary_size_text, path_debug_text, path_debug};
use crate::text::{decimal, decimal_string};
use crate::text::str_eq;

verus! {

/// Options of the `download` command.
#[derive(Clone, Debug)]
pub struct DownloadCommand {
    /// File hash to download.
    pub file_hash: String,
    /// Output file path (defaults to original filename).
    pub output: Option<String>,
    /// Overwrite existing file.
    pub force: bool,
    /// Show progress bar.
    pub progress: bool,
    /// Verify download integrity.
    pub verify: bool,
}

/// Where the download goes: the given output path, else the file's name.
pub open spec fn download_target(output: Option<Seq<char>>, name: Seq<char>) -> Seq<char> {
    match output {
        Some(o) => o,
        None => name,
    }
}

/// The lines shown before the download starts.
pub open spec fn download_intro(file: FileInfo, output: Seq<char>) -> Seq<Seq<char>> {
    seq![
        "Downloading: "@ + file.name@,
        "  Hash: "@ + file.hash@,
        "  Size: "@ + binary_size_text(file.size),
        "  Chunks: "@ + decimal(file.chunks as nat),
        "  Output: "@ + path_debug(output),
    ]
}

/// The lines shown once the file is in place.
pub open spec fn download_done(file: FileInfo, output: Seq<char>) -> Seq<Seq<char>> {
    seq![
        "✓ File downloaded successfully!"@,
        "  Location: "@ + path_debug(output),
        "  Size: "@ + binary_size_text(file.size),
    ]
}

impl DownloadCommand {
    /// The lines shown before the download of `file` to `output` starts.
    pub fn intro_lines(file: &FileInfo, output: &str) -> (r: Vec<String>)
        ensures
            strings_view(r@) == download_intro(*file, output@),
    {
        let mut r: Vec<String> = Vec::new();
        push_line(&mut r, labelled("Downloading: ", file.name.as_str()));
        push_line(&mut r, labelled("  Hash: ", file.hash.as_str()));
        let size = binary_size(file.size);
        push_line(&mut r, labelled("  Size: ", size.as_str()));
        let chunks = decimal_string(file.chunks as u64);
        push_line(&mut r, labelled("  Chunks: ", chunks.as_str()));
        let out = path_debug_text(output);
        push_line(&mut r, labelled("  Output: ", out.as_str()));
        assert(strings_view(r@) =~= download_intro(*file, output@));
        r
    }

    /// The lines shown once `file` is in place at `output`.
    pub fn done_lines(file: &FileInfo, output: &str) -> (r: Vec<String>)
        ensures
            strings_view(r@) == download_done(*file, output@),
    {
        let mut r: Vec<String> = Vec::new();
        push_line(&mut r, String::from_str("✓ File downloaded successfully!"));
        let out = path_debug_text(output);
        push_line(&mut r, labelled("  Location: ", out.as_str()));
        let size = binary_size(file.size);
        push_line(&mut r, labelled("  Size: ", size.as_str()));
        assert(strings_view(r@) =~= download_done(*file, output@));
        r
    }

    /// The position of the first listed file with the requested hash, or an
    /// error naming the hash when none has it.
    pub fn select(&self, files: &Vec<FileInfo>) -> (r: Result<usize, CommandError>)
        ensures
            match r {
                Ok(i) => i < files@.len() && files@[i as int].hash@ == self.file_hash@ && forall|j: int|
                    0 <= j < i ==> (#[trigger] files@[j]).hash@ != self.file_hash@,
                Err(e) => {
                    &&& forall|j: int|
                        0 <= j < files@.len() ==> (#[trigger] files@[j]).hash@ != self.file_hash@
                    &&& e matches CommandError::FileNotFound(h) && h@ == self.file_hash@
                },
            },
    {
        let n = files.len();
        let mut k: usize = 0;
        while k < n
            invariant
                n == files@.len(),
                k <= n,
                forall|j: int| 0 <= j < k ==> (#[trigger] files@[j]).hash@ != self.file_hash@,
            decreases n - k,
        {
            if str_eq(files[k].hash.as_str(), self.file_hash.as_str()) {
                return Ok(k);
            }
            k = k + 1;
        }
        Err(CommandError::FileNotFound(self.file_hash.clone()))
    }

    /// The file to fetch and where it goes, decided before anything is
    /// fetched: the first listed file with the requested hash (an error when
    /// none has it), and the given output path or else that file's name.
    pub fn target(&self, files: &Vec<FileInfo>) -> (r: Result<(usize, String), CommandError>)
        ensures
            match r {
                Ok((i, p)) => {
                    &&& i < files@.len()
                    &&& files@[i as int].hash@ == self.file_hash@
                    &&& forall|j: int| 0 <= j < i ==> (#[trigger] files@[j]).hash@ != self.file_hash@
                    &&& p@ == download_target(opt_view(self.output), files@[i as int].name@)
                },
                Err(e) => {
                    &&& forall|j: int|
                        0 <= j < files@.len() ==> (#[trigger] files@[j]).hash@ != self.file_hash@
                    &&& e matches CommandError::FileNotFound(h) && h@ == self.file_hash@
                },
            },
    {
        let i = match self.select(files) {
            Ok(i) => i,
            Err(e) => return Err(e),
        };
        let out = self.output_path(&files[i]);
        Ok((i, out))
    }

    /// Where the file goes.
    pub fn output_path(&self, file: &FileInfo) -> (r: String)
        ensures
            r@ == download_target(opt_view(self.output), file.name@),
    {
        match &self.output {
            Some(o) => o.clone(),
            None => file.name.clone(),
        }
    }

    /// Refuses to write over an existing file unless forced.
    pub fn check_output(&self, path: &str, present: bool) -> (r: Result<(), CommandError>)
        ensures
            (!present || self.force) <==> r is Ok,
            present && !self.force ==> (r matches Err(CommandError::OutputExists(p)) && p@ == path@),
    {
        check_overwrite(path, present, self.force)
    }

    /// Refuses a downloaded file whose size differs from the listed size.
    pub fn check_downloaded_size(&self, file: &FileInfo, actual: u64) -> (r: Result<(), CommandError>)
        ensures
            file.size == actual <==> r is Ok,
            file.size != actual ==> (r matches Err(CommandError::SizeMismatch { expected: e, actual: a })
                && e == file.size && a == actual),
    {
        check_size(file.size, actual)
    }
}

} // verus!
