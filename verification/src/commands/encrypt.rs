//! `encrypt`: where the encrypted file goes, which password is acceptable,
//! and the record that is written.

use vstd::prelude::*;
use crate::client::Timestamp;
use crate::commands::{CommandError, check_input_file, check_overwrite, labelled, push_line};
use crate::config::{opt_view, strings_view};
use crate::display::{binary_size, binary_size_text, path_debug_text, path_debug};
use crate::paths::{
    extension, file_name, last_dot, lemma_file_name_plain, lemma_last_dot_facts, lemma_name_span_extend,
    name_span, with_extension, path_extension, path_file_name, path_with_extension,
};
use crate::text::{byte_len, byte_len_exceeds, decimal, decimal_string};

verus! {

/// Options of the `encrypt` command.
#[derive(Clone, Debug)]
pub struct EncryptCommand {
    /// File to encrypt.
    pub input: String,
    /// Output file path (defaults to input.zfs).
    pub output: Option<String>,
    /// Password for encryption (will prompt if not provided).
    pub password: Option<String>,
    /// Show progress bar.
    pub progress: bool,
    /// Verification hash algorithm (blake3, sha256, both).
    pub hash: String,
    /// Chunk size in MB for large files.
    pub chunk_size: u32,
}

/// One encrypted segment of a file.
#[derive(Clone, Debug)]
pub struct EncryptedSegment {
    pub segment_index: u64,
    pub ciphertext: Vec<u8>,
    pub nonce: [u8; 12],
    pub aad: Vec<u8>,
    pub key_path: Vec<u32>,
}

/// The encrypted file as it is stored.
#[derive(Clone, Debug)]
pub struct EncryptedFileFormat {
    pub version: u32,
    pub filename: String,
    pub original_size: u64,
    pub chunk_size_mb: u32,
    pub content_id: String,
    pub hash_algorithm: String,
    pub encrypted_segments: Vec<EncryptedSegment>,
    pub created_at: Timestamp,
}

/// The parameters of the encryption scheme.  Encryption and decryption take
/// them from the same place, so a file is always decrypted with the
/// parameters it was encrypted with.
#[derive(PartialEq, Eq, Structural, Clone, Copy, Debug)]
pub struct CryptoSettings {
    /// scrypt cost, as log2 of N.
    pub scrypt_log_n: u8,
    pub scrypt_r: u32,
    pub scrypt_p: u32,
    pub scrypt_output_len: usize,
    pub aes_key_len: usize,
    pub aes_nonce_len: usize,
    pub aes_tag_len: usize,
}

/// The format version this client writes and reads.
pub open spec fn format_version() -> u32 {
    1
}

/// The default output of encrypting `input`: `.zfs` appended to its
/// extension, or `.zfs` as its extension when it has none.
pub open spec fn encrypt_target(input: Seq<char>) -> Seq<char> {
    match extension(input) {
        Some(e) => if e.len() == 0 {
            with_extension(input, "zfs"@)
        } else {
            with_extension(input, e + ".zfs"@)
        },
        None => with_extension(input, "zfs"@),
    }
}

/// The name recorded for the original file: its file name, else `unknown`.
pub open spec fn recorded_name(input: Seq<char>) -> Seq<char> {
    match file_name(input) {
        Some(n) => n,
        None => "unknown"@,
    }
}

/// Where the encrypted file of `cmd` goes: the given output, else the
/// default.
pub open spec fn encrypt_output(cmd: EncryptCommand) -> Seq<char> {
    match opt_view(cmd.output) {
        Some(o) => o,
        None => encrypt_target(cmd.input@),
    }
}

/// Whether the password is long enough: at least 8 bytes.
pub open spec fn password_ok(password: Seq<char>) -> bool {
    byte_len(password) >= 8
}

/// The scheme used for both encryption and decryption: scrypt with
/// log N = 17, r = 8, p = 1 and 64 bytes of output; AES with a 32-byte key,
/// a 12-byte nonce and a 16-byte tag; BLAKE3 for content hashes.
pub fn crypto_settings() -> (r: CryptoSettings)
    ensures
        r == (CryptoSettings {
            scrypt_log_n: 17,
            scrypt_r: 8,
            scrypt_p: 1,
            scrypt_output_len: 64,
            aes_key_len: 32,
            aes_nonce_len: 12,
            aes_tag_len: 16,
        }),
{
    CryptoSettings {
        scrypt_log_n: 17,
        scrypt_r: 8,
        scrypt_p: 1,
        scrypt_output_len: 64,
        aes_key_len: 32,
        aes_nonce_len: 12,
        aes_tag_len: 16,
    }
}

/// The lines shown before encryption starts.
pub open spec fn encrypt_intro(name: Seq<char>, size: u64, output: Seq<char>) -> Seq<Seq<char>> {
    seq![
        "Encrypting: "@ + name,
        "  Size: "@ + binary_size_text(size),
        "  Output: "@ + path_debug(output),
    ]
}

/// The lines shown once the encrypted file is written.
pub open spec fn encrypt_done(output: Seq<char>, content_id: Seq<char>, segments: nat) -> Seq<Seq<char>> {
    seq![
        "✅ File encrypted successfully!"@,
        "  Encrypted file: "@ + path_debug(output),
        "  Content ID: "@ + content_id,
        "  Segments: "@ + decimal(segments),
        ""@,
        "🔒 Security Notes:"@,
        "  • Keep your password safe - it cannot be recovered"@,
        "  • The encrypted file contains no plaintext metadata"@,
        "  • Use 'zephyrfs decrypt' to restore the original file"@,
    ]
}

impl EncryptCommand {
    /// The lines shown once `record` is written to `output`.
    pub fn done_lines(record: &EncryptedFileFormat, output: &str) -> (r: Vec<String>)
        ensures
            strings_view(r@) == encrypt_done(output@, record.content_id@, record.encrypted_segments@.len()),
    {
        let mut r: Vec<String> = Vec::new();
        push_line(&mut r, String::from_str("✅ File encrypted successfully!"));
        let out = path_debug_text(output);
        push_line(&mut r, labelled("  Encrypted file: ", out.as_str()));
        push_line(&mut r, labelled("  Content ID: ", record.content_id.as_str()));
        let n = decimal_string(record.encrypted_segments.len() as u64);
        push_line(&mut r, labelled("  Segments: ", n.as_str()));
        push_line(&mut r, String::new());
        push_line(&mut r, String::from_str("🔒 Security Notes:"));
        push_line(&mut r, String::from_str("  • Keep your password safe - it cannot be recovered"));
        push_line(&mut r, String::from_str("  • The encrypted file contains no plaintext metadata"));
        push_line(&mut r, String::from_str("  • Use 'zephyrfs decrypt' to restore the original file"));
        proof {
            reveal_strlit("");
            assert(strings_view(r@)[4] == ""@);
            assert(strings_view(r@)[3] == "  Segments: "@ + decimal(record.encrypted_segments@.len()));
        }
        assert(strings_view(r@) =~= encrypt_done(output@, record.content_id@, record.encrypted_segments@.len()));
        r
    }

    /// The lines shown before the file of `size` bytes shown as `name` is
    /// encrypted to `output`.
    pub fn intro_lines(name: &str, size: u64, output: &str) -> (r: Vec<String>)
        ensures
            strings_view(r@) == encrypt_intro(name@, size, output@),
    {
        let mut r: Vec<String> = Vec::new();
        push_line(&mut r, labelled("Encrypting: ", name));
        let s = binary_size(size);
        push_line(&mut r, labelled("  Size: ", s.as_str()));
        let out = path_debug_text(output);
        push_line(&mut r, labelled("  Output: ", out.as_str()));
        assert(strings_view(r@) =~= encrypt_intro(name@, size, output@));
        r
    }

    /// Refuses an input that does not exist or is not a regular file.
    pub fn check_input(&self, present: bool, is_file: bool) -> (r: Result<(), CommandError>)
        ensures
            (present && is_file) <==> r is Ok,
            !present ==> (r matches Err(CommandError::PathMissing(p)) && p@ == self.input@),
            present && !is_file ==> (r matches Err(CommandError::NotAFile(p)) && p@ == self.input@),
    {
        check_input_file(self.input.as_str(), present, is_file)
    }

    /// The name recorded for the original file.
    pub fn display_name(&self) -> (r: String)
        ensures
            r@ == recorded_name(self.input@),
    {
        match path_file_name(self.input.as_str()) {
            Some(n) => n,
            None => String::from_str("unknown"),
        }
    }

    /// Where the encrypted file goes: the given output, else the default.
    pub fn output_path(&self) -> (r: String)
        ensures
            r@ == encrypt_output(*self),
    {
        match &self.output {
            Some(o) => o.clone(),
            None => {
                let input = self.input.as_str();
                match path_extension(input) {
                    Some(e) => {
                        if e.as_str().unicode_len() == 0 {
                            path_with_extension(input, "zfs")
                        } else {
                            let mut ext = e.clone();
                            ext.append(".zfs");
                            path_with_extension(input, ext.as_str())
                        }
                    },
                    None => path_with_extension(input, "zfs"),
                }
            },
        }
    }

    /// Refuses to write over an existing file.
    pub fn check_output(&self, path: &str, present: bool) -> (r: Result<(), CommandError>)
        ensures
            !present <==> r is Ok,
            present ==> (r matches Err(CommandError::OutputExists(p)) && p@ == path@),
    {
        check_overwrite(path, present, false)
    }

    /// The checks made before anything is read or written, in the order the
    /// command makes them: the input must exist, then be a regular file, and
    /// then nothing may exist at the output path (`output_present`).  On
    /// success, the output path.
    pub fn preflight(&self, input_present: bool, input_is_file: bool, output_present: bool) -> (r:
        Result<String, CommandError>)
        ensures
            !input_present ==> (r matches Err(CommandError::PathMissing(p)) && p@ == self.input@),
            input_present && !input_is_file ==> (r matches Err(CommandError::NotAFile(p)) && p@
                == self.input@),
            input_present && input_is_file && output_present ==> (r matches Err(
                CommandError::OutputExists(p),
            ) && p@ == encrypt_output(*self)),
            input_present && input_is_file && !output_present ==> (r matches Ok(p) && p@
                == encrypt_output(*self)),
    {
        match self.check_input(input_present, input_is_file) {
            Ok(()) => {},
            Err(e) => return Err(e),
        }
        let out = self.output_path();
        match self.check_output(out.as_str(), output_present) {
            Ok(()) => Ok(out),
            Err(e) => Err(e),
        }
    }

    /// Refuses a password shorter than 8 bytes.
    pub fn check_password(password: &str) -> (r: Result<(), CommandError>)
        ensures
            password_ok(password@) <==> r is Ok,
            !password_ok(password@) ==> r matches Err(CommandError::PasswordTooShort),
    {
        if byte_len_exceeds(password, 7) {
            Ok(())
        } else {
            Err(CommandError::PasswordTooShort)
        }
    }

    /// The record written for an encrypted file.
    pub fn file_format(
        &self,
        filename: String,
        original_size: u64,
        content_id: String,
        encrypted_segments: Vec<EncryptedSegment>,
        created_at: Timestamp,
    ) -> (r: EncryptedFileFormat)
        ensures
            r.version == format_version(),
            r.filename == filename,
            r.original_size == original_size,
            r.chunk_size_mb == self.chunk_size,
            r.content_id == content_id,
            r.hash_algorithm@ == self.hash@,
            r.encrypted_segments == encrypted_segments,
            r.created_at == created_at,
    {
        EncryptedFileFormat {
            version: 1,
            filename,
            original_size,
            chunk_size_mb: self.chunk_size,
            content_id,
            hash_algorithm: self.hash.clone(),
            encrypted_segments,
            created_at,
        }
    }
}

/// Encrypting to the default output keeps the whole file name and appends
/// `.zfs` to it, whatever the extension: `report.docx` becomes
/// `report.docx.zfs`, `README` becomes `README.zfs`.  A name that ends in
/// `.` (an empty extension) gets `zfs` after that dot: `a.` becomes `a.zfs`.
pub proof fn lemma_encrypt_target_appends_zfs(p: Seq<char>)
    requires
        file_name(p) is Some,
    ensures
        file_name(encrypt_target(p)) == Some(
            if file_name(p)->Some_0.last() == '.' {
                file_name(p)->Some_0 + "zfs"@
            } else {
                file_name(p)->Some_0 + ".zfs"@
            },
        ),
{
    let n = file_name(p)->Some_0;
    let sp = name_span(p)->Some_0;
    lemma_file_name_plain(p);
    lemma_last_dot_facts(n);
    reveal_strlit("zfs");
    reveal_strlit(".zfs");
    let d = last_dot(n);
    assert(n.len() == sp.1 - sp.0);
    assert forall|k: int| 0 <= k < n.len() implies n[k] == p[sp.0 + k] by {}
    if n.last() == '.' {
        assert(d == n.len() - 1);
        assert(n.len() >= 2) by {
            if n.len() == 1 {
                assert(n =~= seq!['.']);
            }
        }
        assert(extension(p) == Some(Seq::<char>::empty())) by {
            assert(n.skip(d + 1) =~= Seq::<char>::empty());
        }
        let tail = "zfs"@;
        assert(encrypt_target(p) == with_extension(p, "zfs"@));
        assert(encrypt_target(p) =~= p.take(sp.1) + tail) by {
            assert(p[sp.1 - 1] == '.');
            assert(p.take(sp.0 + d) + seq!['.'] =~= p.take(sp.1));
        }
        lemma_name_span_extend(p, tail);
        assert(p.subrange(sp.0, sp.1) =~= n);
    } else {
        let tail = ".zfs"@;
        if d > 0 {
            let e = n.skip(d + 1);
            assert(e.len() > 0);
            assert(extension(p) == Some(e));
            assert(encrypt_target(p) == with_extension(p, e + ".zfs"@));
            assert(p.take(sp.0 + d) + seq!['.'] + e =~= p.take(sp.1));
            assert(encrypt_target(p) =~= p.take(sp.1) + tail);
        } else {
            assert(extension(p) is None);
            assert(encrypt_target(p) == with_extension(p, "zfs"@));
            assert(encrypt_target(p) =~= p.take(sp.1) + tail);
        }
        assert forall|k: int| 0 <= k < tail.len() implies tail[k] != '/' by {}
        lemma_name_span_extend(p, tail);
        assert(p.subrange(sp.0, sp.1) =~= n);
    }
}

} // verus!
