//! `decrypt`: which files are accepted and where the restored file goes.

use vstd::prelude::*;
use crate::commands::{CommandError, check_input_file, check_overwrite, check_size, labelled, push_line};
use crate::commands::encrypt::{encrypt_target, format_version, recorded_name, EncryptedFileFormat};
use crate::config::{opt_view, strings_view};
use crate::display::{binary_size, binary_size_text, path_debug_text, path_debug, utc_seconds, utc_seconds_text};
use crate::text::{decimal, decimal_string};
use crate::paths::{
    file_name, file_stem, join, last_dot, lemma_file_name_of_join, lemma_file_name_plain,
    lemma_name_span_extend, name_span, name_stem, with_extension, with_file_name, path_file_stem,
    path_with_extension, path_with_file_name,
};
use crate::text::str_eq;

verus! {

/// Options of the `decrypt` command.
#[derive(Clone, Debug)]
pub struct DecryptCommand {
    /// Encrypted file to decrypt.
    pub input: String,
    /// Output file path (defaults to original filename).
    pub output: Option<String>,
    /// Password for decryption (will prompt if not provided).
    pub password: Option<String>,
    /// Show progress bar.
    pub progress: bool,
    /// Skip content verification.
    pub skip_verify: bool,
    /// Force overwrite of existing output file.
    pub force: bool,
}

/// The default output of decrypting the file at `input` that records the
/// original name `stored`: that name, unless it is `unknown`; then the input
/// path with its extension stripped (or `.decrypted` set when the input has
/// no file name).
pub open spec fn decrypt_target(input: Seq<char>, stored: Seq<char>) -> Seq<char> {
    if stored != "unknown"@ {
        stored
    } else {
        match file_stem(input) {
            Some(stem) => with_file_name(input, stem),
            None => with_extension(input, "decrypted"@),
        }
    }
}

/// Where the restored file of `cmd` goes: the given output, else the
/// default for the recorded name `stored`.
pub open spec fn decrypt_output(cmd: DecryptCommand, stored: Seq<char>) -> Seq<char> {
    match opt_view(cmd.output) {
        Some(o) => o,
        None => decrypt_target(cmd.input@, stored),
    }
}

/// The lines shown before decryption starts, given how the creation time is
/// shown.
pub open spec fn decrypt_intro(record: EncryptedFileFormat, created: Seq<char>, output: Seq<char>) -> Seq<Seq<char>> {
    seq![
        "Decrypting: "@ + record.filename@,
        "  Original size: "@ + binary_size_text(record.original_size),
        "  Segments: "@ + decimal(record.encrypted_segments@.len()),
        "  Created: "@ + created,
        "  Output: "@ + path_debug(output),
    ]
}

/// The lines shown once the restored file is written.
pub open spec fn decrypt_done(output: Seq<char>, size: u64) -> Seq<Seq<char>> {
    seq![
        "✅ File decrypted successfully!"@,
        "  Restored file: "@ + path_debug(output),
        "  Size: "@ + binary_size_text(size),
        ""@,
        "🔒 Security Notes:"@,
        "  • The original encrypted file is unchanged"@,
        "  • Consider securely deleting the encrypted file if no longer needed"@,
    ]
}

impl DecryptCommand {
    /// The lines shown before `record` is decrypted to `output`, with the
    /// creation time in UTC; `None` when that time is outside chrono's range.
    pub fn intro_lines(record: &EncryptedFileFormat, output: &str) -> (r: Option<Vec<String>>)
        ensures
            match r {
                Some(lines) => exists|created: Seq<char>|
                    utc_seconds_text(record.created_at.secs, record.created_at.nanos) == Some(created)
                        && strings_view(lines@) == #[trigger] decrypt_intro(*record, created, output@),
                None => utc_seconds_text(record.created_at.secs, record.created_at.nanos) is None,
            },
    {
        let created = match utc_seconds(record.created_at.secs, record.created_at.nanos) {
            Some(c) => c,
            None => return None,
        };
        let mut r: Vec<String> = Vec::new();
        push_line(&mut r, labelled("Decrypting: ", record.filename.as_str()));
        let size = binary_size(record.original_size);
        push_line(&mut r, labelled("  Original size: ", size.as_str()));
        let n = decimal_string(record.encrypted_segments.len() as u64);
        push_line(&mut r, labelled("  Segments: ", n.as_str()));
        push_line(&mut r, labelled("  Created: ", created.as_str()));
        let out = path_debug_text(output);
        push_line(&mut r, labelled("  Output: ", out.as_str()));
        assert(strings_view(r@) =~= decrypt_intro(*record, created@, output@));
        Some(r)
    }

    /// The lines shown once `size` bytes are restored to `output`.
    pub fn done_lines(output: &str, size: u64) -> (r: Vec<String>)
        ensures
            strings_view(r@) == decrypt_done(output@, size),
    {
        let mut r: Vec<String> = Vec::new();
        push_line(&mut r, String::from_str("✅ File decrypted successfully!"));
        let out = path_debug_text(output);
        push_line(&mut r, labelled("  Restored file: ", out.as_str()));
        let s = binary_size(size);
        push_line(&mut r, labelled("  Size: ", s.as_str()));
        push_line(&mut r, String::new());
        push_line(&mut r, String::from_str("🔒 Security Notes:"));
        push_line(&mut r, String::from_str("  • The original encrypted file is unchanged"));
        push_line(&mut r, String::from_str("  • Consider securely deleting the encrypted file if no longer needed"));
        proof {
            reveal_strlit("");
            assert(strings_view(r@)[3] == ""@);
            assert(strings_view(r@)[2] == "  Size: "@ + binary_size_text(size));
        }
        assert(strings_view(r@) =~= decrypt_done(output@, size));
        r
    }

    /// Refuses an input that does not exist or is not a regular file.
    pub fn check_input(&self, present: bool, is_file: bool) -> (r: Result<(), CommandError>)
        ensures
            (present && is_file) <==> r is Ok,
            !present ==> (r matches Err(CommandError::PathMissing(p)) && p@ == self.input@),
            present && !is_file ==> (r matches Err(CommandError::NotAFile(p)) && p@ == self.input@),
    {
        check_input_file(self.input.as_str(), present, is_file)
    }

    /// Refuses a format version other than the one this client writes.
    pub fn check_version(version: u32) -> (r: Result<(), CommandError>)
        ensures
            version == format_version() <==> r is Ok,
            version != format_version() ==> (r matches Err(CommandError::UnsupportedVersion(v)) && v == version),
    {
        if version != 1 {
            Err(CommandError::UnsupportedVersion(version))
        } else {
            Ok(())
        }
    }

    /// Where the restored file goes: the given output, else the default.
    pub fn output_path(&self, stored: &str) -> (r: String)
        ensures
            r@ == decrypt_output(*self, stored@),
    {
        match &self.output {
            Some(o) => o.clone(),
            None => {
                if !str_eq(stored, "unknown") {
                    String::from_str(stored)
                } else {
                    let input = self.input.as_str();
                    match path_file_stem(input) {
                        Some(stem) => path_with_file_name(input, stem.as_str()),
                        None => path_with_extension(input, "decrypted"),
                    }
                }
            },
        }
    }

    /// The checks made on a parsed encrypted file before anything is
    /// written, in the order the command makes them: the format version
    /// first, then the output path (`output_present` tells whether something
    /// exists there), which may be overwritten only when forced.  On success,
    /// the output path.
    pub fn preflight(&self, version: u32, stored: &str, output_present: bool) -> (r: Result<
        String,
        CommandError,
    >)
        ensures
            version != format_version() ==> (r matches Err(CommandError::UnsupportedVersion(v))
                && v == version),
            version == format_version() && output_present && !self.force ==> (r matches Err(
                CommandError::OutputExists(p),
            ) && p@ == decrypt_output(*self, stored@)),
            version == format_version() && (!output_present || self.force) ==> (r matches Ok(p)
                && p@ == decrypt_output(*self, stored@)),
    {
        match Self::check_version(version) {
            Ok(()) => {},
            Err(e) => return Err(e),
        }
        let out = self.output_path(stored);
        match self.check_output(out.as_str(), output_present) {
            Ok(()) => Ok(out),
            Err(e) => Err(e),
        }
    }

    /// Refuses to write over an existing file unless forced.
    pub fn check_output(&self, path: &str, present: bool) -> (r: Result<(), CommandError>)
        ensures
            (!present || self.force) <==> r is Ok,
            present && !self.force ==> (r matches Err(CommandError::OutputExists(p)) && p@ == path@),
    {
        check_overwrite(path, present, self.force)
    }

    /// Refuses decrypted data whose length differs from the recorded size.
    pub fn check_decrypted_size(original_size: u64, decrypted_len: usize) -> (r: Result<
        (),
        CommandError,
    >)
        ensures
            original_size == decrypted_len <==> r is Ok,
            original_size != decrypted_len ==> (r matches Err(CommandError::SizeMismatch { expected: e, actual: a })
                && e == original_size && a == decrypted_len),
    {
        check_size(original_size, decrypted_len as u64)
    }
}

/// Decrypting, at its default output, a file that was encrypted to its
/// default output restores the original file name: either the recorded name
/// is used as it is, or (when the recorded name is `unknown`) the `.zfs`
/// that encryption appended is stripped again.
pub proof fn lemma_decrypt_restores_file_name(p: Seq<char>)
    requires
        file_name(p) is Some,
    ensures
        file_name(decrypt_target(encrypt_target(p), recorded_name(p))) == file_name(p),
{
    let n = file_name(p)->Some_0;
    lemma_file_name_plain(p);
    reveal_strlit("unknown");
    reveal_strlit("zfs");
    if n != "unknown"@ {
        assert(join(Seq::<char>::empty(), n) =~= n);
        lemma_file_name_of_join(Seq::<char>::empty(), n);
    } else {
        let sp = name_span(p)->Some_0;
        reveal_with_fuel(last_dot, 9);
        assert(last_dot(n) == -1);
        assert(p.subrange(sp.0, sp.1) == n);
        assert(n.len() == 7);
        let tail = seq!['.'] + "zfs"@;
        let q = encrypt_target(p);
        assert(q =~= p.take(sp.1) + tail);
        lemma_name_span_extend(p, tail);
        assert(file_name(q) == Some(n + tail));
        assert((n + tail).drop_last().drop_last().drop_last() =~= n.push('.'));
        assert(n.push('.').last() == '.');
        assert(last_dot(n + tail) == 7);
        assert(name_stem(n + tail) =~= n);
        assert(file_stem(q) == Some(n));
        lemma_file_name_of_join(crate::paths::parent_of_named(q), n);
    }
}

} // verus!
