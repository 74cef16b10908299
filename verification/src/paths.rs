//! File-system paths held as strings, with the Unix semantics of
//! `std::path::Path`: the file name, its stem and extension, joining, and
//! replacing the extension or the file name of a path.

use vstd::prelude::*;

verus! {

/// Whether the path starts at the root directory.
pub open spec fn has_root(p: Seq<char>) -> bool {
    p.len() > 0 && p[0] == '/'
}

/// Whether a relative path begins with a `.` component, which the component
/// walk keeps apart from the rest of the path.
pub open spec fn starts_with_cur_dir(p: Seq<char>) -> bool {
    !has_root(p) && p.len() >= 1 && p[0] == '.' && (p.len() == 1 || p[1] == '/')
}

/// Where the body of the path (its components after the root or the leading
/// `.`) begins.
pub open spec fn body_start(p: Seq<char>) -> int {
    if has_root(p) || starts_with_cur_dir(p) { 1 } else { 0 }
}

/// The index just after the last `/` in `p[lo..end]`, or `lo` if there is none.
pub open spec fn seg_start(p: Seq<char>, lo: int, end: int) -> int
    decreases end - lo,
{
    if end <= lo {
        lo
    } else if p[end - 1] == '/' {
        end
    } else {
        seg_start(p, lo, end - 1)
    }
}

/// Where the walk from the back of `p[lo..end]` continues after a component
/// that starts at `st` has been taken off (together with the `/` before it).
pub open spec fn before_segment(lo: int, st: int) -> int {
    if st > lo { st - 1 } else { st }
}

/// The span of the last component of `p[lo..end]` that is neither empty nor
/// `.`, walking from the back as `Components::next_back` does.
pub open spec fn last_component(p: Seq<char>, lo: int, end: int) -> Option<(int, int)>
    decreases end - lo,
{
    if end <= lo {
        None
    } else {
        let st = seg_start(p, lo, end);
        if st == end {
            last_component(p, lo, end - 1)
        } else if end - st == 1 && p[st] == '.' {
            if before_segment(lo, st) < end {
                last_component(p, lo, before_segment(lo, st))
            } else {
                None
            }
        } else {
            Some((st, end))
        }
    }
}

/// The end of `p[lo..end]` once trailing separators and `.` components are
/// dropped, as `Components::as_path` trims a path.
pub open spec fn trimmed_end(p: Seq<char>, lo: int, end: int) -> int
    decreases end - lo,
{
    if end <= lo {
        end
    } else {
        let st = seg_start(p, lo, end);
        if st == end {
            trimmed_end(p, lo, end - 1)
        } else if end - st == 1 && p[st] == '.' {
            if before_segment(lo, st) < end {
                trimmed_end(p, lo, before_segment(lo, st))
            } else {
                end
            }
        } else {
            end
        }
    }
}

/// The span of the last normal component of the path, if its last component
/// is a normal one.
pub open spec fn name_span(p: Seq<char>) -> Option<(int, int)> {
    match last_component(p, body_start(p), p.len() as int) {
        Some(sp) => if p.subrange(sp.0, sp.1) == seq!['.', '.'] { None } else { Some(sp) },
        None => None,
    }
}

/// `Path::file_name`: the last component of the path, if it is a normal one.
pub open spec fn file_name(p: Seq<char>) -> Option<Seq<char>> {
    match name_span(p) {
        Some(sp) => Some(p.subrange(sp.0, sp.1)),
        None => None,
    }
}

/// Index of the last `.` in `s`, or -1 if there is none.
pub open spec fn last_dot(s: Seq<char>) -> int
    decreases s.len(),
{
    if s.len() == 0 {
        -1
    } else if s.last() == '.' {
        s.len() - 1
    } else {
        last_dot(s.drop_last())
    }
}

/// The stem of a file name: the name without its extension.
pub open spec fn name_stem(name: Seq<char>) -> Seq<char> {
    if last_dot(name) > 0 { name.take(last_dot(name)) } else { name }
}

/// The extension of a file name: what follows its last `.`, unless that `.`
/// is its first character.
pub open spec fn name_extension(name: Seq<char>) -> Option<Seq<char>> {
    if last_dot(name) > 0 { Some(name.skip(last_dot(name) + 1)) } else { None }
}

/// `Path::file_stem`.
pub open spec fn file_stem(p: Seq<char>) -> Option<Seq<char>> {
    match file_name(p) {
        Some(n) => Some(name_stem(n)),
        None => None,
    }
}

/// `Path::extension`.
pub open spec fn extension(p: Seq<char>) -> Option<Seq<char>> {
    match file_name(p) {
        Some(n) => name_extension(n),
        None => None,
    }
}

/// `Path::join` (and `PathBuf::push`) with a path `q`: an absolute `q`
/// replaces `p`, otherwise `q` is appended after a separator when `p` does
/// not already end with one.
pub open spec fn join(p: Seq<char>, q: Seq<char>) -> Seq<char> {
    if has_root(q) {
        q
    } else if p.len() > 0 && p.last() != '/' {
        p + seq!['/'] + q
    } else {
        p + q
    }
}

/// `PathBuf::set_extension`: the path with the extension of its file name
/// replaced by `ext` (removed when `ext` is empty); unchanged when the path
/// has no file name.
pub open spec fn with_extension(p: Seq<char>, ext: Seq<char>) -> Seq<char> {
    match name_span(p) {
        Some(sp) => {
            let name = p.subrange(sp.0, sp.1);
            let stem_end = if last_dot(name) > 0 { sp.0 + last_dot(name) } else { sp.1 };
            if ext.len() == 0 {
                p.take(stem_end)
            } else {
                p.take(stem_end) + seq!['.'] + ext
            }
        },
        None => p,
    }
}

/// `Path::parent` of a path whose last component is a normal one: the path
/// before that component, with trailing separators and `.` components
/// trimmed.
pub open spec fn parent_of_named(p: Seq<char>) -> Seq<char> {
    let lo = body_start(p);
    let sp = name_span(p)->0;
    p.take(trimmed_end(p, lo, before_segment(lo, sp.0)))
}

/// `PathBuf::set_file_name`: the file name replaced by `name`, or `name`
/// appended when the path has none.
pub open spec fn with_file_name(p: Seq<char>, name: Seq<char>) -> Seq<char> {
    if name_span(p) is Some {
        join(parent_of_named(p), name)
    } else {
        join(p, name)
    }
}

/// A non-empty file name without separators that is neither `.` nor `..`.
pub open spec fn plain_name(n: Seq<char>) -> bool {
    &&& n.len() > 0
    &&& forall|k: int| 0 <= k < n.len() ==> n[k] != '/'
    &&& n != seq!['.']
    &&& n != seq!['.', '.']
}

proof fn lemma_seg_start_facts(p: Seq<char>, lo: int, end: int)
    requires
        0 <= lo <= end <= p.len(),
    ensures
        lo <= seg_start(p, lo, end) <= end,
        seg_start(p, lo, end) == lo || p[seg_start(p, lo, end) - 1] == '/',
        forall|k: int| seg_start(p, lo, end) <= k < end ==> p[k] != '/',
    decreases end - lo,
{
    if end > lo && p[end - 1] != '/' {
        lemma_seg_start_facts(p, lo, end - 1);
    }
}

proof fn lemma_seg_start_skip(p: Seq<char>, lo: int, a: int, end: int)
    requires
        0 <= lo <= a <= end <= p.len(),
        forall|k: int| a <= k < end ==> p[k] != '/',
    ensures
        seg_start(p, lo, end) == seg_start(p, lo, a),
    decreases end - a,
{
    if end > a {
        lemma_seg_start_skip(p, lo, a, end - 1);
    }
}

proof fn lemma_last_component_facts(p: Seq<char>, lo: int, end: int)
    requires
        0 <= lo <= end <= p.len(),
    ensures
        match last_component(p, lo, end) {
            Some(sp) => {
                &&& lo <= sp.0 < sp.1 <= end
                &&& sp.0 == lo || p[sp.0 - 1] == '/'
                &&& forall|k: int| sp.0 <= k < sp.1 ==> p[k] != '/'
                &&& !(sp.1 - sp.0 == 1 && p[sp.0] == '.')
            },
            None => true,
        },
    decreases end - lo,
{
    if end > lo {
        let st = seg_start(p, lo, end);
        lemma_seg_start_facts(p, lo, end);
        if st == end {
            lemma_last_component_facts(p, lo, end - 1);
        } else if end - st == 1 && p[st] == '.' {
            if before_segment(lo, st) < end {
                lemma_last_component_facts(p, lo, before_segment(lo, st));
            }
        }
    }
}

/// The file name of a path, when it has one, is a plain name.
pub proof fn lemma_file_name_plain(p: Seq<char>)
    requires
        file_name(p) is Some,
    ensures
        plain_name(file_name(p)->Some_0),
        0 <= name_span(p)->Some_0.0 < name_span(p)->Some_0.1 <= p.len(),
{
    let lo = body_start(p);
    lemma_last_component_facts(p, lo, p.len() as int);
    let sp = name_span(p)->Some_0;
    let n = p.subrange(sp.0, sp.1);
    assert forall|k: int| 0 <= k < n.len() implies n[k] != '/' by {
        assert(n[k] == p[sp.0 + k]);
    }
    if n == seq!['.'] {
        assert(n[0] == p[sp.0]);
    }
}

/// A plain name joined to any path is the file name of the result.
pub proof fn lemma_file_name_of_join(x: Seq<char>, n: Seq<char>)
    requires
        plain_name(n),
    ensures
        file_name(join(x, n)) == Some(n),
{
    let z = join(x, n);
    let y = z.take(z.len() - n.len());
    assert(!has_root(n));
    if x.len() > 0 && x.last() != '/' {
        assert(z =~= (x + seq!['/']) + n);
        assert(y =~= x + seq!['/']);
    } else {
        assert(z =~= x + n);
        assert(y =~= x);
    }
    assert(z.subrange(y.len() as int, z.len() as int) =~= n);
    assert(forall|k: int| 0 <= k < n.len() ==> z[y.len() + k] == n[k]);
    let lo = body_start(z);
    if y.len() == 0 {
        assert(z =~= n);
        if starts_with_cur_dir(z) {
            if n.len() == 1 {
                assert(n =~= seq!['.']);
            }
        }
        assert(lo == 0);
    } else {
        assert(y.last() == '/' || x.len() == 0);
        assert(z[y.len() - 1] == '/');
    }
    assert(lo <= y.len());
    lemma_seg_start_skip(z, lo, y.len() as int, z.len() as int);
    assert(seg_start(z, lo, y.len() as int) == y.len());
    if z.len() - y.len() == 1 && z[y.len() as int] == '.' {
        assert(n =~= seq!['.']);
    }
    assert(last_component(z, lo, z.len() as int) == Some((y.len() as int, z.len() as int)));
}

/// The last `.` of `s`, when there is one, is a `.` of `s`, and no later
/// character is one.
pub proof fn lemma_last_dot_facts(s: Seq<char>)
    ensures
        -1 <= last_dot(s) < s.len(),
        last_dot(s) >= 0 ==> s[last_dot(s)] == '.',
        forall|k: int| last_dot(s) < k < s.len() ==> s[k] != '.',
    decreases s.len(),
{
    if s.len() > 0 && s.last() != '.' {
        lemma_last_dot_facts(s.drop_last());
        assert forall|k: int| last_dot(s) < k < s.len() implies s[k] != '.' by {
            if k < s.len() - 1 {
                assert(s[k] == s.drop_last()[k]);
            }
        }
    }
}

/// Appending separator-free text to the end of a path's file name extends
/// its file name by that text.
pub proof fn lemma_name_span_extend(p: Seq<char>, tail: Seq<char>)
    requires
        name_span(p) is Some,
        name_span(p)->Some_0.1 - name_span(p)->Some_0.0 + tail.len() >= 3,
        tail.len() > 0,
        forall|k: int| 0 <= k < tail.len() ==> tail[k] != '/',
    ensures
        ({
            let sp = name_span(p)->Some_0;
            let q = p.take(sp.1) + tail;
            &&& name_span(q) == Some((sp.0, q.len() as int))
            &&& file_name(q) == Some(p.subrange(sp.0, sp.1) + tail)
        }),
{
    let sp = name_span(p)->Some_0;
    let lo = body_start(p);
    lemma_last_component_facts(p, lo, p.len() as int);
    let q = p.take(sp.1) + tail;
    assert(q[0] == p[0]);
    if sp.1 >= 2 {
        assert(q[1] == p[1]);
    } else {
        assert(p[0] != '.');
    }
    assert(body_start(q) == lo);
    assert forall|k: int| sp.0 <= k < q.len() implies q[k] != '/' by {
        if k < sp.1 {
            assert(q[k] == p[k]);
        } else {
            assert(q[k] == tail[k - sp.1]);
        }
    }
    lemma_seg_start_skip(q, lo, sp.0, q.len() as int);
    if sp.0 > lo {
        assert(q[sp.0 - 1] == p[sp.0 - 1]);
    }
    assert(seg_start(q, lo, sp.0) == sp.0);
    assert(last_component(q, lo, q.len() as int) == Some((sp.0, q.len() as int)));
    assert(q.subrange(sp.0, q.len() as int) =~= p.subrange(sp.0, sp.1) + tail);
    if q.subrange(sp.0, q.len() as int) == seq!['.', '.'] {
        assert(q.subrange(sp.0, q.len() as int).len() == 2);
    }
}

// ---------------------------------------------------------------------------

fn char_at(s: &str, i: usize) -> (c: char)
    requires
        i < s@.len(),
    ensures
        c == s@[i as int],
{
    s.get_char(i)
}

fn seg_start_exec(p: &str, lo: usize, end: usize) -> (r: usize)
    requires
        lo <= end <= p@.len(),
    ensures
        r == seg_start(p@, lo as int, end as int),
        lo <= r <= end,
{
    let mut e = end;
    while e > lo
        invariant
            lo <= e <= end <= p@.len(),
            seg_start(p@, lo as int, e as int) == seg_start(p@, lo as int, end as int),
            forall|k: int| e <= k < end ==> p@[k] != '/',
        decreases e,
    {
        if char_at(p, e - 1) == '/' {
            return e;
        }
        e = e - 1;
    }
    e
}

proof fn lemma_seg_start_bounds(p: Seq<char>, lo: int, end: int)
    requires
        lo <= end,
    ensures
        lo <= seg_start(p, lo, end) <= end,
    decreases end - lo,
{
    if end > lo && p[end - 1] != '/' {
        lemma_seg_start_bounds(p, lo, end - 1);
    }
}

fn is_dot_segment(p: &str, st: usize, end: usize) -> (r: bool)
    requires
        st <= end <= p@.len(),
    ensures
        r == (end - st == 1 && p@[st as int] == '.'),
{
    end - st == 1 && char_at(p, st) == '.'
}

fn last_component_exec(p: &str, lo: usize, end: usize) -> (r: Option<(usize, usize)>)
    requires
        lo <= end <= p@.len(),
    ensures
        match r {
            Some(sp) => last_component(p@, lo as int, end as int) == Some((sp.0 as int, sp.1 as int))
                && lo <= sp.0 < sp.1 <= end,
            None => last_component(p@, lo as int, end as int) is None,
        },
{
    let mut e = end;
    while e > lo
        invariant
            lo <= e <= end <= p@.len(),
            last_component(p@, lo as int, e as int) == last_component(p@, lo as int, end as int),
        decreases e,
    {
        let st = seg_start_exec(p, lo, e);
        if st == e {
            e = e - 1;
        } else if is_dot_segment(p, st, e) {
            let next = if st > lo { st - 1 } else { st };
            e = next;
        } else {
            return Some((st, e));
        }
    }
    None
}

fn trimmed_end_exec(p: &str, lo: usize, end: usize) -> (r: usize)
    requires
        lo <= end <= p@.len(),
    ensures
        r == trimmed_end(p@, lo as int, end as int),
        r <= end,
{
    let mut e = end;
    while e > lo
        invariant
            lo <= e <= end <= p@.len(),
            trimmed_end(p@, lo as int, e as int) == trimmed_end(p@, lo as int, end as int),
        decreases e,
    {
        let st = seg_start_exec(p, lo, e);
        if st == e {
            e = e - 1;
        } else if is_dot_segment(p, st, e) {
            let next = if st > lo { st - 1 } else { st };
            e = next;
        } else {
            return e;
        }
    }
    e
}

fn body_start_exec(p: &str) -> (r: usize)
    ensures
        r == body_start(p@),
        r <= p@.len(),
{
    let n = p.unicode_len();
    if n == 0 {
        return 0;
    }
    let c0 = char_at(p, 0);
    if c0 == '/' {
        1
    } else if c0 == '.' && (n == 1 || char_at(p, 1) == '/') {
        1
    } else {
        0
    }
}

fn name_span_exec(p: &str) -> (r: Option<(usize, usize)>)
    ensures
        match r {
            Some(sp) => name_span(p@) == Some((sp.0 as int, sp.1 as int)) && body_start(p@) <= sp.0
                < sp.1 <= p@.len(),
            None => name_span(p@) is None,
        },
{
    let lo = body_start_exec(p);
    let n = p.unicode_len();
    match last_component_exec(p, lo, n) {
        Some(sp) => {
            let seg = p.substring_char(sp.0, sp.1);
            proof {
                reveal_strlit("..");
            }
            if crate::text::str_eq(seg, "..") {
                assert(seg@ =~= seq!['.', '.']);
                None
            } else {
                assert(seq!['.', '.'] =~= ".."@);
                Some(sp)
            }
        },
        None => None,
    }
}

fn last_dot_exec(s: &str) -> (r: Option<usize>)
    ensures
        match r {
            Some(i) => last_dot(s@) == i as int && i < s@.len(),
            None => last_dot(s@) == -1,
        },
{
    let mut e = s.unicode_len();
    assert(s@.take(e as int) =~= s@);
    while e > 0
        invariant
            e <= s@.len(),
            last_dot(s@.take(e as int)) == last_dot(s@),
        decreases e,
    {
        assert(s@.take(e as int).drop_last() =~= s@.take(e - 1));
        if char_at(s, e - 1) == '.' {
            return Some(e - 1);
        }
        e = e - 1;
    }
    None
}

/// The file name of `path`, as `Path::file_name` gives it.
pub fn path_file_name(path: &str) -> (r: Option<String>)
    ensures
        match r {
            Some(n) => file_name(path@) == Some(n@),
            None => file_name(path@) is None,
        },
{
    match name_span_exec(path) {
        Some(sp) => Some(String::from_str(path.substring_char(sp.0, sp.1))),
        None => None,
    }
}

/// The stem of the file name of `path`, as `Path::file_stem` gives it.
pub fn path_file_stem(path: &str) -> (r: Option<String>)
    ensures
        match r {
            Some(n) => file_stem(path@) == Some(n@),
            None => file_stem(path@) is None,
        },
{
    match path_file_name(path) {
        Some(name) => {
            match last_dot_exec(name.as_str()) {
                Some(d) => {
                    if d > 0 {
                        Some(String::from_str(name.as_str().substring_char(0, d)))
                    } else {
                        Some(name)
                    }
                },
                None => Some(name),
            }
        },
        None => None,
    }
}

/// The extension of `path`, as `Path::extension` gives it.
pub fn path_extension(path: &str) -> (r: Option<String>)
    ensures
        match r {
            Some(e) => extension(path@) == Some(e@),
            None => extension(path@) is None,
        },
{
    match path_file_name(path) {
        Some(name) => {
            let len = name.as_str().unicode_len();
            match last_dot_exec(name.as_str()) {
                Some(d) => {
                    if d > 0 {
                        Some(String::from_str(name.as_str().substring_char(d + 1, len)))
                    } else {
                        None
                    }
                },
                None => None,
            }
        },
        None => None,
    }
}

/// `base` joined with `part`, as `Path::join` builds it.
pub fn path_join(base: &str, part: &str) -> (r: String)
    ensures
        r@ == join(base@, part@),
{
    let n = base.unicode_len();
    let m = part.unicode_len();
    if m > 0 && char_at(part, 0) == '/' {
        return String::from_str(part);
    }
    if n > 0 && char_at(base, n - 1) != '/' {
        let mut r = String::from_str(base);
        proof {
            reveal_strlit("/");
        }
        r.append("/");
        r.append(part);
        r
    } else {
        let mut r = String::from_str(base);
        r.append(part);
        r
    }
}

/// `path` with the extension of its file name replaced by `ext`, as
/// `PathBuf::set_extension` leaves it.
pub fn path_with_extension(path: &str, ext: &str) -> (r: String)
    ensures
        r@ == with_extension(path@, ext@),
{
    match name_span_exec(path) {
        Some(sp) => {
            let name = path.substring_char(sp.0, sp.1);
            let stem_end = match last_dot_exec(name) {
                Some(d) => if d > 0 { sp.0 + d } else { sp.1 },
                None => sp.1,
            };
            let mut r = String::from_str(path.substring_char(0, stem_end));
            if ext.unicode_len() > 0 {
                proof {
                    reveal_strlit(".");
                }
                r.append(".");
                r.append(ext);
            }
            r
        },
        None => String::from_str(path),
    }
}

/// `path` with its file name replaced by `name`, as
/// `PathBuf::set_file_name` leaves it.
pub fn path_with_file_name(path: &str, name: &str) -> (r: String)
    ensures
        r@ == with_file_name(path@, name@),
{
    match name_span_exec(path) {
        Some(sp) => {
            let lo = body_start_exec(path);
            let before = if sp.0 > lo { sp.0 - 1 } else { sp.0 };
            let end = trimmed_end_exec(path, lo, before);
            let parent = path.substring_char(0, end);
            path_join(parent, name)
        },
        None => path_join(path, name),
    }
}

} // verus!
