//! `upload`: what is checked and reported around sending a file to the node.

use vstd::prelude::*;
use crate::client::{FileInfo, UploadResponse};
use crate::commands::{CommandError, labelled, push_line};
use crate::config::{opt_view, strings_view};
use crate::display::{binary_size, binary_size_text, path_debug_text, path_debug};
use crate::paths::{file_name, join, path_file_name, path_join};
use crate::text::{decimal, decimal_string, str_eq};

verus! {

/// Options of the `upload` command.
#[derive(Clone, Debug)]
pub struct UploadCommand {
    /// File path to upload.
    pub file: String,
    /// Custom file name (defaults to original filename).
    pub name: Option<String>,
    /// Show progress bar.
    pub progress: bool,
    /// Verify upload after completion.
    pub verify: bool,
}

/// The name the upload is shown under: the custom name, else the file name
/// of the path, else `unknown`.
pub open spec fn upload_display_name(name: Option<Seq<char>>, file: Seq<char>) -> Seq<char> {
    match name {
        Some(n) => n,
        None => match file_name(file) {
            Some(f) => f,
            None => "unknown"@,
        },
    }
}

/// Whether some listed file has the given hash.
pub open spec fn hash_listed(files: Seq<FileInfo>, hash: Seq<char>) -> bool {
    exists|i: int| 0 <= i < files.len() && (#[trigger] files[i]).hash@ == hash
}

/// The lines shown before the upload starts.
pub open spec fn upload_intro(display: Seq<char>, size: u64, file: Seq<char>) -> Seq<Seq<char>> {
    seq![
        "Uploading: "@ + display,
        "  Size: "@ + binary_size_text(size),
        "  Path: "@ + path_debug(file),
    ]
}

/// The lines shown once the node has taken the file.
pub open spec fn upload_done(hash: Seq<char>, chunks: usize) -> Seq<Seq<char>> {
    seq![
        "✓ File uploaded successfully!"@,
        "  File hash: "@ + hash,
        "  Chunks: "@ + decimal(chunks as nat),
    ]
}

/// The line that tells whether the upload shows up in the node's listing.
pub open spec fn verify_line(listed: bool) -> Seq<char> {
    if listed {
        "✓ Upload verified successfully"@
    } else {
        "⚠  Warning: Could not verify upload in file list"@
    }
}

/// How to fetch the file again.
pub open spec fn download_hint(hash: Seq<char>) -> Seq<Seq<char>> {
    seq!["\nTo download this file later, use:"@, "  zephyrfs download "@ + hash]
}

/// The report after an upload: the result, the verification when it was
/// asked for (`listed` tells whether the hash showed up in the listing), and
/// the download hint.
pub open spec fn upload_report(hash: Seq<char>, chunks: usize, verify: bool, listed: bool) -> Seq<
    Seq<char>,
> {
    upload_done(hash, chunks) + (if verify {
        seq!["\nVerifying upload..."@, verify_line(listed)]
    } else {
        Seq::empty()
    }) + download_hint(hash)
}

/// When verification is asked for, the report says the upload was verified
/// exactly when its hash is in the listing, and warns otherwise; without
/// verification no such line is shown.
pub proof fn lemma_report_tells_verification(hash: Seq<char>, chunks: usize)
    ensures
        upload_report(hash, chunks, true, true).len() == 7,
        upload_report(hash, chunks, true, true)[4] == "✓ Upload verified successfully"@,
        upload_report(hash, chunks, true, false)[4] == "⚠  Warning: Could not verify upload in file list"@,
        upload_report(hash, chunks, true, true) != upload_report(hash, chunks, true, false),
        upload_report(hash, chunks, false, true) == upload_report(hash, chunks, false, false),
        upload_report(hash, chunks, false, true).len() == 5,
        upload_report(hash, chunks, true, true)[0] == "✓ File uploaded successfully!"@,
{
    reveal_strlit("✓ Upload verified successfully");
    reveal_strlit("⚠  Warning: Could not verify upload in file list");
    let a = upload_report(hash, chunks, true, true);
    let b = upload_report(hash, chunks, true, false);
    assert(a[4][0] != b[4][0]);
}

impl UploadCommand {
    /// Refuses a path that does not exist.  A regular file is uploaded as it
    /// is; a directory is uploaded file by file (see `member_name`).
    pub fn check_input(&self, present: bool) -> (r: Result<(), CommandError>)
        ensures
            present <==> r is Ok,
            !present ==> (r matches Err(CommandError::PathMissing(p)) && p@ == self.file@),
    {
        if present {
            Ok(())
        } else {
            Err(CommandError::PathMissing(self.file.clone()))
        }
    }

    /// The name under which a file at `relative` inside an uploaded directory
    /// is stored: that relative path under the upload's name.
    pub fn member_name(&self, relative: &str) -> (r: String)
        ensures
            r@ == join(upload_display_name(opt_view(self.name), self.file@), relative@),
    {
        let base = self.display_name();
        path_join(base.as_str(), relative)
    }

    /// The name the upload is shown under.
    pub fn display_name(&self) -> (r: String)
        ensures
            r@ == upload_display_name(opt_view(self.name), self.file@),
    {
        match &self.name {
            Some(n) => n.clone(),
            None => match path_file_name(self.file.as_str()) {
                Some(f) => f,
                None => String::from_str("unknown"),
            },
        }
    }

    /// Whether a file with hash `hash` is among `files`.
    pub fn is_listed(files: &Vec<FileInfo>, hash: &str) -> (r: bool)
        ensures
            r == hash_listed(files@, hash@),
    {
        let n = files.len();
        let mut k: usize = 0;
        while k < n
            invariant
                n == files@.len(),
                k <= n,
                forall|i: int| 0 <= i < k ==> (#[trigger] files@[i]).hash@ != hash@,
            decreases n - k,
        {
            if str_eq(files[k].hash.as_str(), hash) {
                return true;
            }
            k = k + 1;
        }
        false
    }

    /// The lines shown before the upload of `size` bytes starts.
    pub fn intro_lines(&self, size: u64) -> (r: Vec<String>)
        ensures
            strings_view(r@) == upload_intro(
                upload_display_name(opt_view(self.name), self.file@),
                size,
                self.file@,
            ),
    {
        let mut r: Vec<String> = Vec::new();
        let name = self.display_name();
        push_line(&mut r, labelled("Uploading: ", name.as_str()));
        let s = binary_size(size);
        push_line(&mut r, labelled("  Size: ", s.as_str()));
        let path = path_debug_text(self.file.as_str());
        push_line(&mut r, labelled("  Path: ", path.as_str()));
        assert(strings_view(r@) =~= upload_intro(
            upload_display_name(opt_view(self.name), self.file@),
            size,
            self.file@,
        ));
        r
    }

    /// The lines shown once the node has taken the file, then those of the
    /// verification when it was asked for (`listed` tells whether the file
    /// showed up in the listing), then the download hint.
    pub fn result_lines(&self, response: &UploadResponse, listed: bool) -> (r: Vec<String>)
        ensures
            strings_view(r@) == upload_done(response.file_hash@, response.chunks_uploaded) + (if self.verify {
                seq!["\nVerifying upload..."@, verify_line(listed)]
            } else {
                Seq::empty()
            }) + download_hint(response.file_hash@),
            strings_view(r@) == upload_report(
                response.file_hash@,
                response.chunks_uploaded,
                self.verify,
                listed,
            ),
    {
        let mut r: Vec<String> = Vec::new();
        push_line(&mut r, String::from_str("✓ File uploaded successfully!"));
        push_line(&mut r, labelled("  File hash: ", response.file_hash.as_str()));
        let chunks = decimal_string(response.chunks_uploaded as u64);
        push_line(&mut r, labelled("  Chunks: ", chunks.as_str()));
        let ghost first = strings_view(r@);
        if self.verify {
            push_line(&mut r, String::from_str("\nVerifying upload..."));
            if listed {
                push_line(&mut r, String::from_str("✓ Upload verified successfully"));
            } else {
                push_line(&mut r, String::from_str("⚠  Warning: Could not verify upload in file list"));
            }
        }
        let ghost second = strings_view(r@);
        push_line(&mut r, String::from_str("\nTo download this file later, use:"));
        push_line(&mut r, labelled("  zephyrfs download ", response.file_hash.as_str()));
        assert(first =~= upload_done(response.file_hash@, response.chunks_uploaded));
        assert(second =~= first + (if self.verify {
            seq!["\nVerifying upload..."@, verify_line(listed)]
        } else {
            Seq::empty()
        }));
        assert(strings_view(r@) =~= second + download_hint(response.file_hash@));
        r
    }
}

} // verus!
