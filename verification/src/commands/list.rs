//! `list`: filter, sort and lay out the files that the node reports.

use vstd::prelude::*;
use crate::client::{FileInfo, Timestamp};
use crate::commands::CommandError;
use crate::text::{
    chars_le, contains_seq, contains_str, decimal, decimal_string, lemma_chars_le_total,
    lemma_chars_le_transitive, str_eq, str_le, pad_right, pad_left, repeat_char, byte_len,
    take_bytes, is_byte_boundary, byte_len_exceeds, take_bytes_string, pad_right_string,
    pad_left_string, repeat_string,
};
use crate::config::{opt_view, strings_view};
use crate::display::{
    binary_size, binary_size_text, fixed_minute_text, fixed_offset_minute, local_offset_secs,
    rfc3339_text, utc_rfc3339,
};

verus! {

/// Options of the `list` command.
#[derive(Clone, Debug)]
pub struct ListCommand {
    /// Show detailed information.
    pub long: bool,
    /// Sort by column (name, size, date, chunks).
    pub sort: String,
    /// Reverse sort order.
    pub reverse: bool,
    /// Filter by name pattern.
    pub filter: Option<String>,
    /// Output format (table, json, csv).
    pub format: String,
}

/// A column that the listing can be sorted by.
#[derive(PartialEq, Eq, Structural, Clone, Copy, Debug)]
pub enum SortColumn {
    Name,
    Size,
    Date,
    Chunks,
}

/// A layout of the listing.
#[derive(PartialEq, Eq, Structural, Clone, Copy, Debug)]
pub enum ListFormat {
    Table,
    Json,
    Csv,
}

/// The sort column named by `s`, if it is one of the four.
pub open spec fn sort_column_of(s: Seq<char>) -> Option<SortColumn> {
    if s == "name"@ {
        Some(SortColumn::Name)
    } else if s == "size"@ {
        Some(SortColumn::Size)
    } else if s == "date"@ {
        Some(SortColumn::Date)
    } else if s == "chunks"@ {
        Some(SortColumn::Chunks)
    } else {
        None
    }
}

/// The layout named by `s`, if it is one of the three.
pub open spec fn list_format_of(s: Seq<char>) -> Option<ListFormat> {
    if s == "table"@ {
        Some(ListFormat::Table)
    } else if s == "json"@ {
        Some(ListFormat::Json)
    } else if s == "csv"@ {
        Some(ListFormat::Csv)
    } else {
        None
    }
}

/// Chronological order of timestamps.
pub open spec fn ts_le(a: Timestamp, b: Timestamp) -> bool {
    a.secs < b.secs || (a.secs == b.secs && a.nanos <= b.nanos)
}

/// `a` sorts no later than `b` by the column `col`.
pub open spec fn file_le(col: SortColumn, a: FileInfo, b: FileInfo) -> bool {
    match col {
        SortColumn::Name => chars_le(a.name@, b.name@),
        SortColumn::Size => a.size <= b.size,
        SortColumn::Date => ts_le(a.uploaded_at, b.uploaded_at),
        SortColumn::Chunks => a.chunks <= b.chunks,
    }
}

/// Whether a file's name contains the pattern (any file, without a pattern).
pub open spec fn name_matches(f: FileInfo, pattern: Option<Seq<char>>) -> bool {
    match pattern {
        Some(p) => contains_seq(f.name@, p),
        None => true,
    }
}

/// The files whose names contain the pattern, in their original order.
pub open spec fn keep_matching(s: Seq<FileInfo>, pattern: Option<Seq<char>>) -> Seq<FileInfo>
    decreases s.len(),
{
    if s.len() == 0 {
        Seq::empty()
    } else if name_matches(s.last(), pattern) {
        keep_matching(s.drop_last(), pattern).push(s.last())
    } else {
        keep_matching(s.drop_last(), pattern)
    }
}

/// `perm` places the elements of `input` in `output`: `output[i]` is
/// `input[perm[i]]`, and each position of `input` is used once.
pub open spec fn is_placement(input: Seq<FileInfo>, output: Seq<FileInfo>, perm: Seq<int>) -> bool {
    &&& perm.len() == output.len() == input.len()
    &&& forall|i: int| 0 <= i < perm.len() ==> 0 <= #[trigger] perm[i] < input.len()
    &&& forall|i: int, j: int| 0 <= i < j < perm.len() ==> perm[i] != perm[j]
    &&& forall|i: int| 0 <= i < perm.len() ==> #[trigger] output[i] == input[perm[i]]
}

/// `output` is `input` sorted by `col`, with files that compare equal kept
/// in their original order (what the stable `sort_by` produces).
pub open spec fn is_stable_sort(col: SortColumn, input: Seq<FileInfo>, output: Seq<FileInfo>) -> bool {
    exists|perm: Seq<int>|
        {
            &&& #[trigger] is_placement(input, output, perm)
            &&& forall|i: int, j: int|
                0 <= i < j < output.len() ==> file_le(col, #[trigger] output[i], #[trigger] output[j])
            &&& forall|i: int, j: int|
                0 <= i < j < output.len() && file_le(col, output[j], output[i]) ==> perm[i] < perm[j]
        }
}

/// Every pair of files is ordered one way or the other.
pub proof fn lemma_file_le_total(col: SortColumn, a: FileInfo, b: FileInfo)
    ensures
        file_le(col, a, b) || file_le(col, b, a),
{
    if col == SortColumn::Name {
        lemma_chars_le_total(a.name@, b.name@);
    }
}

/// The order on files is transitive.
pub proof fn lemma_file_le_transitive(col: SortColumn, a: FileInfo, b: FileInfo, c: FileInfo)
    requires
        file_le(col, a, b),
        file_le(col, b, c),
    ensures
        file_le(col, a, c),
{
    if col == SortColumn::Name {
        lemma_chars_le_transitive(a.name@, b.name@, c.name@);
    }
}

/// Upload instants are compared as instants: by the second first, and by
/// the nanoseconds within the second only between uploads of the same
/// second.
pub proof fn lemma_date_order_is_chronological(a: FileInfo, b: FileInfo)
    ensures
        file_le(SortColumn::Date, a, b) <==> (a.uploaded_at.secs < b.uploaded_at.secs || (
        a.uploaded_at.secs == b.uploaded_at.secs && a.uploaded_at.nanos <= b.uploaded_at.nanos)),
{
}

/// Sizes and chunk counts are compared as numbers, smallest first.
pub proof fn lemma_size_and_chunk_order(a: FileInfo, b: FileInfo)
    ensures
        file_le(SortColumn::Size, a, b) <==> a.size <= b.size,
        file_le(SortColumn::Chunks, a, b) <==> a.chunks <= b.chunks,
{
}

/// A listing sorted by date never shows a later upload before an earlier
/// one: the oldest upload comes first.
pub proof fn lemma_date_sort_oldest_first(input: Seq<FileInfo>, output: Seq<FileInfo>)
    requires
        is_stable_sort(SortColumn::Date, input, output),
    ensures
        forall|i: int, j: int|
            0 <= i < j < output.len() ==> !(#[trigger] output[j].uploaded_at.secs
                < #[trigger] output[i].uploaded_at.secs || (output[j].uploaded_at.secs
                == output[i].uploaded_at.secs && output[j].uploaded_at.nanos
                < output[i].uploaded_at.nanos)),
{
    let perm = choose|perm: Seq<int>|
        {
            &&& #[trigger] is_placement(input, output, perm)
            &&& forall|i: int, j: int|
                0 <= i < j < output.len() ==> file_le(
                    SortColumn::Date,
                    #[trigger] output[i],
                    #[trigger] output[j],
                )
            &&& forall|i: int, j: int|
                0 <= i < j < output.len() && file_le(SortColumn::Date, output[j], output[i])
                    ==> perm[i] < perm[j]
        };
    assert forall|i: int, j: int| 0 <= i < j < output.len() implies !(
    #[trigger] output[j].uploaded_at.secs < #[trigger] output[i].uploaded_at.secs || (
    output[j].uploaded_at.secs == output[i].uploaded_at.secs && output[j].uploaded_at.nanos
        < output[i].uploaded_at.nanos)) by {
        assert(file_le(SortColumn::Date, output[i], output[j]));
    }
}

fn file_le_exec(col: SortColumn, a: &FileInfo, b: &FileInfo) -> (r: bool)
    ensures
        r == file_le(col, *a, *b),
{
    match col {
        SortColumn::Name => str_le(a.name.as_str(), b.name.as_str()),
        SortColumn::Size => a.size <= b.size,
        SortColumn::Date => a.uploaded_at.secs < b.uploaded_at.secs || (a.uploaded_at.secs
            == b.uploaded_at.secs && a.uploaded_at.nanos <= b.uploaded_at.nanos),
        SortColumn::Chunks => a.chunks <= b.chunks,
    }
}

/// Sorts `files` by `col`, keeping files that compare equal in their
/// original order.
pub fn stable_sort(files: Vec<FileInfo>, col: SortColumn) -> (r: Vec<FileInfo>)
    ensures
        is_stable_sort(col, files@, r@),
{
    let ghost orig = files@;
    let n = files.len();
    let mut rest = files;
    let mut out: Vec<FileInfo> = Vec::new();
    let ghost mut perm: Seq<int> = Seq::empty();
    while rest.len() > 0
        invariant
            n == orig.len(),
            rest@ == orig.take(rest.len() as int),
            out.len() + rest.len() == n,
            perm.len() == out.len(),
            forall|k: int| 0 <= k < perm.len() ==> rest.len() <= #[trigger] perm[k] < n,
            forall|a: int, b: int| 0 <= a < b < perm.len() ==> perm[a] != perm[b],
            forall|k: int| 0 <= k < perm.len() ==> #[trigger] out@[k] == orig[perm[k]],
            forall|a: int, b: int|
                0 <= a < b < out.len() ==> file_le(col, #[trigger] out@[a], #[trigger] out@[b]),
            forall|a: int, b: int|
                0 <= a < b < out.len() && file_le(col, out@[b], out@[a]) ==> perm[a] < perm[b],
        decreases rest.len(),
    {
        let ghost idx: int = rest.len() - 1;
        let x = rest.pop().unwrap();
        assert(x == orig[idx]);
        assert(rest@ =~= orig.take(rest.len() as int));
        let mut p: usize = 0;
        while p < out.len() && !file_le_exec(col, &x, &out[p])
            invariant
                p <= out.len(),
                forall|k: int| 0 <= k < p ==> !file_le(col, x, #[trigger] out@[k]),
            decreases out.len() - p,
        {
            p = p + 1;
        }
        let ghost old_out = out@;
        let ghost old_perm = perm;
        out.insert(p, x);
        proof {
            perm = old_perm.insert(p as int, idx);
            assert forall|a: int, b: int|
                0 <= a < b < out.len() implies file_le(col, #[trigger] out@[a], #[trigger] out@[b]) by {
                if a < p && b == p {
                    lemma_file_le_total(col, old_out[a], x);
                } else if a == p && b > p + 1 {
                    lemma_file_le_transitive(col, x, old_out[p as int], old_out[b - 1]);
                } else if a < p && b > p {
                } else {
                }
            }
            assert forall|a: int, b: int|
                0 <= a < b < out.len() && file_le(col, out@[b], out@[a]) implies perm[a] < perm[b] by {
                if a < p && b == p {
                    assert(!file_le(col, x, old_out[a]));
                }
            }
            assert forall|a: int, b: int| 0 <= a < b < perm.len() implies perm[a] != perm[b] by {
                if a < p && b > p {
                    assert(old_perm[a] != old_perm[b - 1]);
                }
            }
        }
    }
    proof {
        assert(is_placement(orig, out@, perm));
    }
    out
}

/// The files of `files` whose names contain `pattern`, in their order.
pub fn filter_by_name(files: Vec<FileInfo>, pattern: &Option<String>) -> (r: Vec<FileInfo>)
    ensures
        r@ == keep_matching(files@, opt_view(*pattern)),
{
    let ghost orig = files@;
    let ghost pat = opt_view(*pattern);
    let n = files.len();
    let mut rest = files;
    let mut out: Vec<FileInfo> = Vec::new();
    let mut k: usize = 0;
    assert(orig.skip(0) =~= orig);
    assert(orig.take(0) =~= Seq::<FileInfo>::empty());
    while k < n
        invariant
            n == orig.len(),
            k <= n,
            pat == opt_view(*pattern),
            rest@ == orig.skip(k as int),
            out@ == keep_matching(orig.take(k as int), pat),
        decreases n - k,
    {
        let x = rest.remove(0);
        assert(x == orig[k as int]);
        assert(rest@ =~= orig.skip(k + 1));
        assert(orig.take(k + 1).drop_last() =~= orig.take(k as int));
        assert(orig.take(k + 1).last() == x);
        let keep = match pattern {
            Some(p) => contains_str(x.name.as_str(), p.as_str()),
            None => true,
        };
        if keep {
            out.push(x);
        }
        k = k + 1;
    }
    assert(orig.take(n as int) =~= orig);
    out
}

/// `files` in reverse order.
pub fn reverse_files(files: Vec<FileInfo>) -> (r: Vec<FileInfo>)
    ensures
        r@ == files@.reverse(),
{
    let ghost orig = files@;
    let mut rest = files;
    let mut out: Vec<FileInfo> = Vec::new();
    while rest.len() > 0
        invariant
            rest@ == orig.take(rest.len() as int),
            out.len() + rest.len() == orig.len(),
            forall|k: int| 0 <= k < out.len() ==> #[trigger] out@[k] == orig[orig.len() - 1 - k],
        decreases rest.len(),
    {
        let x = rest.pop().unwrap();
        assert(rest@ =~= orig.take(rest.len() as int));
        out.push(x);
    }
    assert(out@ =~= orig.reverse());
    out
}

/// What `list` shows.
pub enum Listing {
    /// No file passes the filter: "No files found in the network."
    NoFiles,
    /// The arranged files, in the given layout.
    Show(ListFormat, Vec<FileInfo>),
}

/// The sum of the sizes of the files.
pub open spec fn sum_sizes(s: Seq<FileInfo>) -> nat
    decreases s.len(),
{
    if s.len() == 0 { 0 } else { sum_sizes(s.drop_last()) + (s.last().size as nat) }
}

/// Sum of the sizes of `files`, or `None` where it does not fit in a `u64`.
pub fn total_size(files: &Vec<FileInfo>) -> (r: Option<u64>)
    ensures
        match r {
            Some(t) => t == sum_sizes(files@),
            None => sum_sizes(files@) > u64::MAX,
        },
{
    let n = files.len();
    let mut total: u64 = 0;
    let mut k: usize = 0;
    assert(files@.take(0) =~= Seq::<FileInfo>::empty());
    while k < n
        invariant
            n == files@.len(),
            k <= n,
            total == sum_sizes(files@.take(k as int)),
        decreases n - k,
    {
        assert(files@.take(k + 1).drop_last() =~= files@.take(k as int));
        let size = files[k].size;
        if total > u64::MAX - size {
            proof {
                lemma_sum_sizes_prefix(files@, k + 1);
            }
            return None;
        }
        total = total + size;
        k = k + 1;
    }
    assert(files@.take(n as int) =~= files@);
    Some(total)
}

proof fn lemma_sum_sizes_prefix(s: Seq<FileInfo>, k: int)
    requires
        0 <= k <= s.len(),
    ensures
        sum_sizes(s.take(k)) <= sum_sizes(s),
    decreases s.len(),
{
    if k < s.len() {
        assert(s.drop_last().take(k) =~= s.take(k));
        lemma_sum_sizes_prefix(s.drop_last(), k);
    } else {
        assert(s.take(k) =~= s);
    }
}

impl ListCommand {
    /// The column to sort by, or an error naming the unknown column.
    pub fn sort_column(&self) -> (r: Result<SortColumn, CommandError>)
        ensures
            match r {
                Ok(c) => sort_column_of(self.sort@) == Some(c),
                Err(e) => {
                    &&& sort_column_of(self.sort@) is None
                    &&& e matches CommandError::InvalidSortColumn(s) && s@ == self.sort@
                },
            },
    {
        let s = self.sort.as_str();
        if str_eq(s, "name") {
            Ok(SortColumn::Name)
        } else if str_eq(s, "size") {
            Ok(SortColumn::Size)
        } else if str_eq(s, "date") {
            Ok(SortColumn::Date)
        } else if str_eq(s, "chunks") {
            Ok(SortColumn::Chunks)
        } else {
            Err(CommandError::InvalidSortColumn(self.sort.clone()))
        }
    }

    /// The layout to print in, or an error naming the unknown format.
    pub fn output_format(&self) -> (r: Result<ListFormat, CommandError>)
        ensures
            match r {
                Ok(f) => list_format_of(self.format@) == Some(f),
                Err(e) => {
                    &&& list_format_of(self.format@) is None
                    &&& e matches CommandError::InvalidFormat(s) && s@ == self.format@
                },
            },
    {
        let s = self.format.as_str();
        if str_eq(s, "table") {
            Ok(ListFormat::Table)
        } else if str_eq(s, "json") {
            Ok(ListFormat::Json)
        } else if str_eq(s, "csv") {
            Ok(ListFormat::Csv)
        } else {
            Err(CommandError::InvalidFormat(self.format.clone()))
        }
    }

    /// The files to show: those whose names contain the filter, sorted by
    /// the chosen column (stably), in reverse when asked; an error when the
    /// sort column is unknown.
    pub fn arrange(&self, files: Vec<FileInfo>) -> (r: Result<Vec<FileInfo>, CommandError>)
        ensures
            match r {
                Ok(v) => exists|col: SortColumn, sorted: Seq<FileInfo>|
                    {
                        &&& sort_column_of(self.sort@) == Some(col)
                        &&& #[trigger] is_stable_sort(
                            col,
                            keep_matching(files@, opt_view(self.filter)),
                            sorted,
                        )
                        &&& v@ == if self.reverse { sorted.reverse() } else { sorted }
                    },
                Err(e) => {
                    &&& sort_column_of(self.sort@) is None
                    &&& e matches CommandError::InvalidSortColumn(s) && s@ == self.sort@
                },
            },
    {
        let kept = filter_by_name(files, &self.filter);
        let col = match self.sort_column() {
            Ok(c) => c,
            Err(e) => return Err(e),
        };
        let sorted = stable_sort(kept, col);
        if self.reverse {
            Ok(reverse_files(sorted))
        } else {
            Ok(sorted)
        }
    }

    /// What `list` shows for the files the node reports, deciding in the
    /// order the command does: an unknown sort column is refused first; when
    /// no file passes the filter, "no files" is shown whatever the format;
    /// otherwise an unknown format is refused, and a known one shows the
    /// arranged files.
    pub fn listing(&self, files: Vec<FileInfo>) -> (r: Result<Listing, CommandError>)
        ensures
            sort_column_of(self.sort@) is None ==> (r matches Err(CommandError::InvalidSortColumn(s))
                && s@ == self.sort@),
            sort_column_of(self.sort@) is Some ==> exists|sorted: Seq<FileInfo>|
                {
                    &&& #[trigger] is_stable_sort(
                        sort_column_of(self.sort@)->Some_0,
                        keep_matching(files@, opt_view(self.filter)),
                        sorted,
                    )
                    &&& sorted.len() == 0 ==> (r matches Ok(Listing::NoFiles))
                    &&& sorted.len() > 0 ==> match list_format_of(self.format@) {
                        Some(f) => (r matches Ok(Listing::Show(g, v)) && g == f && v@ == if self.reverse {
                            sorted.reverse()
                        } else {
                            sorted
                        }),
                        None => (r matches Err(CommandError::InvalidFormat(s)) && s@ == self.format@),
                    }
                },
    {
        let ghost reported = files@;
        let shown = match self.arrange(files) {
            Ok(v) => v,
            Err(e) => return Err(e),
        };
        let ghost (col, sorted) = choose|col: SortColumn, sorted: Seq<FileInfo>|
            {
                &&& sort_column_of(self.sort@) == Some(col)
                &&& #[trigger] is_stable_sort(
                    col,
                    keep_matching(reported, opt_view(self.filter)),
                    sorted,
                )
                &&& shown@ == if self.reverse { sorted.reverse() } else { sorted }
            };
        assert(is_stable_sort(col, keep_matching(reported, opt_view(self.filter)), sorted));
        assert(shown@.len() == sorted.len());
        assert(col == sort_column_of(self.sort@)->Some_0);
        if shown.len() == 0 {
            return Ok(Listing::NoFiles);
        }
        match self.output_format() {
            Ok(f) => Ok(Listing::Show(f, shown)),
            Err(e) => Err(e),
        }
    }

    /// The closing lines: how many files there are and their total size.
    pub fn summary_lines(files: &Vec<FileInfo>) -> (r: Vec<String>)
        requires
            sum_sizes(files@) <= u64::MAX,
        ensures
            strings_view(r@) == seq![
                "\nTotal files: "@ + decimal(files@.len()),
                "Total size: "@ + binary_size_text(sum_sizes(files@) as u64),
            ],
    {
        let total = match total_size(files) {
            Some(t) => t,
            None => 0,
        };
        let mut first = String::from_str("\nTotal files: ");
        let count = decimal_string(files.len() as u64);
        first.append(count.as_str());
        let mut second = String::from_str("Total size: ");
        let size = binary_size(total);
        second.append(size.as_str());
        let mut r: Vec<String> = Vec::new();
        r.push(first);
        r.push(second);
        assert(strings_view(r@) =~= seq![
            "\nTotal files: "@ + decimal(files@.len()),
            "Total size: "@ + binary_size_text(sum_sizes(files@) as u64),
        ]);
        r
    }
}

/// `s` cut to its first `n` bytes when it is longer than that.
pub open spec fn clip_bytes(s: Seq<char>, n: int) -> Seq<char> {
    if byte_len(s) > n { take_bytes(s, n) } else { s }
}

/// Cutting `s` to `n` bytes does not split a character.
pub open spec fn clip_ok(s: Seq<char>, n: int) -> bool {
    byte_len(s) > n ==> is_byte_boundary(s, n)
}

/// A name as the short table shows it: names longer than 40 bytes are cut
/// to 37 bytes followed by `...`.
pub open spec fn short_name(name: Seq<char>) -> Seq<char> {
    if byte_len(name) > 40 { take_bytes(name, 37) + "..."@ } else { name }
}

/// Header of the short table.
pub open spec fn short_header() -> Seq<char> {
    pad_right("NAME"@, 40) + " "@ + pad_left("SIZE"@, 10) + " "@ + "HASH"@
}

/// Header of the long table.
pub open spec fn long_header() -> Seq<char> {
    pad_right("HASH"@, 12) + " "@ + pad_left("SIZE"@, 10) + " "@ + pad_left("CHUNKS"@, 8) + " "@
        + pad_left("REPLICAS"@, 8) + " "@ + pad_right("UPLOADED"@, 20) + " "@ + "NAME"@
}

/// A row of the short table.
pub open spec fn short_row(f: FileInfo) -> Seq<char> {
    pad_right(short_name(f.name@), 40) + " "@ + pad_left(binary_size_text(f.size), 10) + " "@
        + clip_bytes(f.hash@, 8)
}

/// A row of the long table, with the upload time as shown in local time.
pub open spec fn long_row(f: FileInfo, time: Seq<char>) -> Seq<char> {
    pad_right(clip_bytes(f.hash@, 12), 12) + " "@ + pad_left(binary_size_text(f.size), 10) + " "@
        + pad_left(decimal(f.chunks as nat), 8) + " "@ + pad_left(decimal(f.replicas as nat), 8)
        + " "@ + pad_right(time, 20) + " "@ + f.name@
}

/// The lines of the table of `files` (long or short), given the local upload
/// time of each file.
pub open spec fn table_view(long: bool, files: Seq<FileInfo>, times: Seq<Seq<char>>) -> Seq<Seq<char>> {
    if long {
        seq![long_header(), repeat_char('-', 80)] + Seq::new(
            files.len(),
            |i: int| long_row(files[i], times[i]),
        )
    } else {
        seq![short_header(), repeat_char('-', 60)] + Seq::new(files.len(), |i: int| short_row(files[i]))
    }
}

/// The table can be laid out without cutting a character in two.
pub open spec fn table_cuts_ok(long: bool, files: Seq<FileInfo>) -> bool {
    forall|i: int| 0 <= i < files.len() ==> #[trigger] row_cuts_ok(long, files[i])
}

/// The row of `f` can be laid out without cutting a character in two.
pub open spec fn row_cuts_ok(long: bool, f: FileInfo) -> bool {
    if long {
        clip_ok(f.hash@, 12)
    } else {
        clip_ok(f.hash@, 8) && (byte_len(f.name@) > 40 ==> is_byte_boundary(f.name@, 37))
    }
}

/// A rendered text, or empty when there is none.
pub open spec fn shown_or_empty(t: Option<Seq<char>>) -> Seq<char> {
    match t {
        Some(t) => t,
        None => Seq::empty(),
    }
}

/// `t` is the upload time of `f` as chrono renders it (`%Y-%m-%d %H:%M`) at
/// some offset from UTC that chrono accepts, or empty when it renders none.
pub open spec fn local_minute_shown(f: FileInfo, t: Seq<char>) -> bool {
    exists|offset: i32|
        -86400 < offset < 86400 && shown_or_empty(
            #[trigger] fixed_minute_text(f.uploaded_at.secs, f.uploaded_at.nanos, offset),
        ) == t
}

/// A row of the CSV listing.
pub open spec fn csv_row(f: FileInfo, time: Seq<char>) -> Seq<char> {
    f.name@ + ","@ + decimal(f.size as nat) + ","@ + f.hash@ + ","@ + decimal(f.chunks as nat) + ","@
        + decimal(f.replicas as nat) + ","@ + time
}

/// The lines of the CSV listing, given the RFC 3339 upload time of each file.
pub open spec fn csv_view(files: Seq<FileInfo>, times: Seq<Seq<char>>) -> Seq<Seq<char>> {
    seq!["name,size,hash,chunks,replicas,uploaded_at"@] + Seq::new(
        files.len(),
        |i: int| csv_row(files[i], times[i]),
    )
}

fn clip_bytes_string(s: &str, n: usize) -> (r: String)
    requires
        clip_ok(s@, n as int),
    ensures
        r@ == clip_bytes(s@, n as int),
{
    if byte_len_exceeds(s, n) {
        take_bytes_string(s, n).0
    } else {
        String::from_str(s)
    }
}

fn clip_ok_exec(s: &str, n: usize) -> (r: bool)
    ensures
        r == clip_ok(s@, n as int),
{
    if byte_len_exceeds(s, n) {
        take_bytes_string(s, n).1
    } else {
        true
    }
}

fn append_field(line: &mut String, field: &str)
    ensures
        final(line)@ == old(line)@ + " "@ + field@,
{
    line.append(" ");
    line.append(field);
}

fn short_row_string(f: &FileInfo) -> (r: String)
    requires
        clip_ok(f.hash@, 8),
        byte_len(f.name@) > 40 ==> is_byte_boundary(f.name@, 37),
    ensures
        r@ == short_row(*f),
{
    let name = if byte_len_exceeds(f.name.as_str(), 40) {
        let mut cut = take_bytes_string(f.name.as_str(), 37).0;
        cut.append("...");
        cut
    } else {
        f.name.clone()
    };
    let mut line = pad_right_string(name.as_str(), 40);
    let size = binary_size(f.size);
    let size_col = pad_left_string(size.as_str(), 10);
    append_field(&mut line, size_col.as_str());
    let hash = clip_bytes_string(f.hash.as_str(), 8);
    append_field(&mut line, hash.as_str());
    line
}

fn long_row_string(f: &FileInfo, time: &str) -> (r: String)
    requires
        clip_ok(f.hash@, 12),
    ensures
        r@ == long_row(*f, time@),
{
    let hash = clip_bytes_string(f.hash.as_str(), 12);
    let mut line = pad_right_string(hash.as_str(), 12);
    let size = binary_size(f.size);
    let size_col = pad_left_string(size.as_str(), 10);
    append_field(&mut line, size_col.as_str());
    let chunks = decimal_string(f.chunks as u64);
    let chunks_col = pad_left_string(chunks.as_str(), 8);
    append_field(&mut line, chunks_col.as_str());
    let replicas = decimal_string(f.replicas as u64);
    let replicas_col = pad_left_string(replicas.as_str(), 8);
    append_field(&mut line, replicas_col.as_str());
    let time_col = pad_right_string(time, 20);
    append_field(&mut line, time_col.as_str());
    append_field(&mut line, f.name.as_str());
    line
}

fn csv_row_string(f: &FileInfo, time: &str) -> (r: String)
    ensures
        r@ == csv_row(*f, time@),
{
    let mut line = f.name.clone();
    line.append(",");
    let size = decimal_string(f.size);
    line.append(size.as_str());
    line.append(",");
    line.append(f.hash.as_str());
    line.append(",");
    let chunks = decimal_string(f.chunks as u64);
    line.append(chunks.as_str());
    line.append(",");
    let replicas = decimal_string(f.replicas as u64);
    line.append(replicas.as_str());
    line.append(",");
    line.append(time);
    line
}

impl ListCommand {
    /// Whether the table of `files` can be laid out: cutting hashes and long
    /// names to their shown width must not split a character, where slicing
    /// the string would panic.
    pub fn table_printable(&self, files: &Vec<FileInfo>) -> (r: bool)
        ensures
            r == table_cuts_ok(self.long, files@),
    {
        let n = files.len();
        let mut k: usize = 0;
        while k < n
            invariant
                n == files@.len(),
                k <= n,
                forall|i: int| 0 <= i < k ==> #[trigger] row_cuts_ok(self.long, files@[i]),
            decreases n - k,
        {
            let f = &files[k];
            let ok = if self.long {
                clip_ok_exec(f.hash.as_str(), 12)
            } else {
                clip_ok_exec(f.hash.as_str(), 8) && (!byte_len_exceeds(f.name.as_str(), 40)
                    || take_bytes_string(f.name.as_str(), 37).1)
            };
            if !ok {
                assert(!row_cuts_ok(self.long, files@[k as int]));
                return false;
            }
            k = k + 1;
        }
        true
    }

    /// The lines of the table of `files`, given the local upload time of each
    /// file (used by the long table only).
    pub fn table_lines_with_times(&self, files: &Vec<FileInfo>, times: &Vec<String>) -> (r: Vec<
        String,
    >)
        requires
            times.len() == files.len(),
            table_cuts_ok(self.long, files@),
        ensures
            strings_view(r@) == table_view(self.long, files@, strings_view(times@)),
    {
        let mut r: Vec<String> = Vec::new();
        if self.long {
            let mut header = pad_right_string("HASH", 12);
            let c1 = pad_left_string("SIZE", 10);
            append_field(&mut header, c1.as_str());
            let c2 = pad_left_string("CHUNKS", 8);
            append_field(&mut header, c2.as_str());
            let c3 = pad_left_string("REPLICAS", 8);
            append_field(&mut header, c3.as_str());
            let c4 = pad_right_string("UPLOADED", 20);
            append_field(&mut header, c4.as_str());
            append_field(&mut header, "NAME");
            r.push(header);
            proof {
                reveal_strlit("-");
            }
            r.push(repeat_string("-", 80));
        } else {
            let mut header = pad_right_string("NAME", 40);
            let c1 = pad_left_string("SIZE", 10);
            append_field(&mut header, c1.as_str());
            append_field(&mut header, "HASH");
            r.push(header);
            proof {
                reveal_strlit("-");
            }
            r.push(repeat_string("-", 60));
        }
        let ghost tv = strings_view(times@);
        let n = files.len();
        let mut k: usize = 0;
        while k < n
            invariant
                n == files@.len(),
                n == times@.len(),
                tv == strings_view(times@),
                k <= n,
                table_cuts_ok(self.long, files@),
                r@.len() == k + 2,
                strings_view(r@) == table_view(self.long, files@, tv).take(k + 2),
            decreases n - k,
        {
            assert(row_cuts_ok(self.long, files@[k as int]));
            let line = if self.long {
                assert(clip_ok(files@[k as int].hash@, 12));
                long_row_string(&files[k], times[k].as_str())
            } else {
                assert(clip_ok(files@[k as int].hash@, 8));
                short_row_string(&files[k])
            };
            let ghost before = strings_view(r@);
            r.push(line);
            k = k + 1;
            assert(strings_view(r@) =~= before.push(line@));
            assert(strings_view(r@) =~= table_view(self.long, files@, tv).take(k + 2));
        }
        assert(table_view(self.long, files@, tv).take(n + 2) =~= table_view(self.long, files@, tv));
        r
    }

    /// The lines of the table of `files`.  The long table shows each upload
    /// time in the machine's local time zone: as chrono renders it at some
    /// offset from UTC (the one of the machine's zone at that instant, which
    /// depends on the machine and is not stated), or empty when chrono cannot
    /// render it.
    pub fn table_lines(&self, files: &Vec<FileInfo>) -> (r: Vec<String>)
        requires
            table_cuts_ok(self.long, files@),
        ensures
            exists|times: Seq<Seq<char>>|
                {
                    &&& times.len() == files@.len()
                    &&& self.long ==> forall|i: int|
                        0 <= i < files@.len() ==> #[trigger] local_minute_shown(files@[i], times[i])
                    &&& strings_view(r@) == #[trigger] table_view(self.long, files@, times)
                },
    {
        let mut times: Vec<String> = Vec::new();
        let n = files.len();
        let mut k: usize = 0;
        while k < n
            invariant
                n == files@.len(),
                k <= n,
                times.len() == k,
                self.long ==> forall|i: int|
                    0 <= i < k ==> #[trigger] local_minute_shown(files@[i], times@[i]@),
            decreases n - k,
        {
            let t = if self.long {
                let at = files[k].uploaded_at;
                let offset = match local_offset_secs(at.secs, at.nanos) {
                    Some(o) => o,
                    None => 0,
                };
                let t = match fixed_offset_minute(at.secs, at.nanos, offset) {
                    Some(t) => t,
                    None => String::new(),
                };
                proof {
                    reveal_strlit("");
                    assert(shown_or_empty(fixed_minute_text(at.secs, at.nanos, offset)) == t@);
                    assert(local_minute_shown(files@[k as int], t@));
                }
                t
            } else {
                String::new()
            };
            times.push(t);
            k = k + 1;
        }
        let r = self.table_lines_with_times(files, &times);
        let ghost tv = strings_view(times@);
        assert(tv.len() == files@.len());
        assert(self.long ==> forall|i: int|
            0 <= i < files@.len() ==> #[trigger] local_minute_shown(files@[i], tv[i]));
        r
    }

    /// The lines of the CSV listing of `files`, given the RFC 3339 upload
    /// time of each file.
    pub fn csv_lines_with_times(files: &Vec<FileInfo>, times: &Vec<String>) -> (r: Vec<String>)
        requires
            times.len() == files.len(),
        ensures
            strings_view(r@) == csv_view(files@, strings_view(times@)),
    {
        let mut r: Vec<String> = Vec::new();
        r.push(String::from_str("name,size,hash,chunks,replicas,uploaded_at"));
        let ghost tv = strings_view(times@);
        let n = files.len();
        let mut k: usize = 0;
        while k < n
            invariant
                n == files@.len(),
                n == times@.len(),
                tv == strings_view(times@),
                k <= n,
                r@.len() == k + 1,
                strings_view(r@) == csv_view(files@, tv).take(k + 1),
            decreases n - k,
        {
            let line = csv_row_string(&files[k], times[k].as_str());
            let ghost before = strings_view(r@);
            r.push(line);
            k = k + 1;
            assert(strings_view(r@) =~= before.push(line@));
            assert(strings_view(r@) =~= csv_view(files@, tv).take(k + 1));
        }
        assert(csv_view(files@, tv).take(n + 1) =~= csv_view(files@, tv));
        r
    }

    /// The lines of the CSV listing of `files`, with upload times in RFC
    /// 3339; `None` when some upload time is outside chrono's range.
    pub fn csv_lines(files: &Vec<FileInfo>) -> (r: Option<Vec<String>>)
        ensures
            match r {
                Some(lines) => exists|times: Seq<Seq<char>>|
                    {
                        &&& times.len() == files@.len()
                        &&& forall|i: int|
                            0 <= i < files@.len() ==> rfc3339_text(
                                #[trigger] files@[i].uploaded_at.secs,
                                files@[i].uploaded_at.nanos,
                            ) == Some(times[i])
                        &&& strings_view(lines@) == #[trigger] csv_view(files@, times)
                    },
                None => exists|i: int|
                    0 <= i < files@.len() && rfc3339_text(
                        #[trigger] files@[i].uploaded_at.secs,
                        files@[i].uploaded_at.nanos,
                    ) is None,
            },
    {
        let mut times: Vec<String> = Vec::new();
        let n = files.len();
        let mut k: usize = 0;
        while k < n
            invariant
                n == files@.len(),
                k <= n,
                times.len() == k,
                forall|i: int|
                    0 <= i < k ==> rfc3339_text(
                        #[trigger] files@[i].uploaded_at.secs,
                        files@[i].uploaded_at.nanos,
                    ) == Some(times@[i]@),
            decreases n - k,
        {
            match utc_rfc3339(files[k].uploaded_at.secs, files[k].uploaded_at.nanos) {
                Some(t) => times.push(t),
                None => return None,
            }
            k = k + 1;
        }
        let lines = Self::csv_lines_with_times(files, &times);
        let ghost tv = strings_view(times@);
        assert(forall|i: int| 0 <= i < files@.len() ==> tv[i] == times@[i]@);
        Some(lines)
    }
}

} // verus!
