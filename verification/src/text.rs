//! Text building blocks: decimal rendering of integers, padding to a column
//! width, substring search and lexicographic comparison of strings.

use vstd::prelude::*;

verus! {

/// The ASCII character of a decimal digit.
pub open spec fn digit_char(d: nat) -> char {
    if d == 0 { '0' }
    else if d == 1 { '1' }
    else if d == 2 { '2' }
    else if d == 3 { '3' }
    else if d == 4 { '4' }
    else if d == 5 { '5' }
    else if d == 6 { '6' }
    else if d == 7 { '7' }
    else if d == 8 { '8' }
    else { '9' }
}

/// The decimal representation of `n`, without leading zeros.
pub open spec fn decimal(n: nat) -> Seq<char>
    decreases n,
{
    if n < 10 {
        seq![digit_char(n)]
    } else {
        decimal(n / 10) + seq![digit_char(n % 10)]
    }
}

fn digit_str(d: u64) -> (r: &'static str)
    requires
        d < 10,
    ensures
        r@ == seq![digit_char(d as nat)],
{
    let digits = "0123456789";
    proof {
        reveal_strlit("0123456789");
    }
    digits.substring_char(d as usize, (d + 1) as usize)
}

/// Renders `n` in decimal, as `format!("{}", n)` does.
pub fn decimal_string(n: u64) -> (r: String)
    ensures
        r@ == decimal(n as nat),
    decreases n,
{
    if n < 10 {
        String::from_str(digit_str(n))
    } else {
        let mut s = decimal_string(n / 10);
        s.append(digit_str(n % 10));
        s
    }
}

} // verus!

verus! {

/// `n` space characters.
pub open spec fn spaces(n: nat) -> Seq<char> {
    Seq::new(n, |i: int| ' ')
}

/// `s` padded with spaces on the right to at least `width` characters, as
/// `format!("{:<width$}", s)` lays it out.
pub open spec fn pad_right(s: Seq<char>, width: nat) -> Seq<char> {
    if s.len() >= width { s } else { s + spaces((width - s.len()) as nat) }
}

/// `s` padded with spaces on the left to at least `width` characters, as
/// `format!("{:>width$}", s)` lays it out.
pub open spec fn pad_left(s: Seq<char>, width: nat) -> Seq<char> {
    if s.len() >= width { s } else { spaces((width - s.len()) as nat) + s }
}

/// `c` repeated `n` times.
pub open spec fn repeat_char(c: char, n: nat) -> Seq<char> {
    Seq::new(n, |i: int| c)
}

/// Whether `needle` occurs as a contiguous run of characters inside `hay`.
pub open spec fn contains_seq(hay: Seq<char>, needle: Seq<char>) -> bool {
    exists|i: int|
        0 <= i && i + needle.len() <= hay.len() && #[trigger] hay.subrange(i, i + needle.len())
            == needle
}

/// Lexicographic order on character sequences: `a` sorts no later than `b`.
/// This is the order of Rust's `str` comparison, since UTF-8 keeps the order
/// of code points byte for byte.
pub open spec fn chars_le(a: Seq<char>, b: Seq<char>) -> bool
    decreases a.len(),
{
    if a.len() == 0 {
        true
    } else if b.len() == 0 {
        false
    } else if (a[0] as u32) != (b[0] as u32) {
        (a[0] as u32) < (b[0] as u32)
    } else {
        chars_le(a.drop_first(), b.drop_first())
    }
}

/// The number of bytes that UTF-8 takes for `c`.
pub open spec fn utf8_width(c: char) -> nat {
    if (c as u32) < 0x80 {
        1
    } else if (c as u32) < 0x800 {
        2
    } else if (c as u32) < 0x10000 {
        3
    } else {
        4
    }
}

/// The number of bytes that UTF-8 takes for the whole of `s`.
pub open spec fn byte_len(s: Seq<char>) -> nat
    decreases s.len(),
{
    if s.len() == 0 { 0 } else { utf8_width(s[0]) + byte_len(s.drop_first()) }
}

/// The longest prefix of `s` whose UTF-8 encoding fits in `n` bytes.
pub open spec fn take_bytes(s: Seq<char>, n: int) -> Seq<char>
    decreases s.len(),
{
    if s.len() == 0 || n < utf8_width(s[0]) {
        Seq::empty()
    } else {
        seq![s[0]] + take_bytes(s.drop_first(), n - utf8_width(s[0]))
    }
}

/// Whether byte offset `n` of the UTF-8 encoding of `s` falls between two
/// characters, so that slicing `&s[..n]` does not panic.
pub open spec fn is_byte_boundary(s: Seq<char>, n: int) -> bool {
    0 <= n && byte_len(take_bytes(s, n)) == n
}

/// `byte_len` adds up over concatenation.
pub proof fn lemma_byte_len_concat(a: Seq<char>, b: Seq<char>)
    ensures
        byte_len(a + b) == byte_len(a) + byte_len(b),
    decreases a.len(),
{
    if a.len() > 0 {
        assert((a + b).drop_first() =~= a.drop_first() + b);
        lemma_byte_len_concat(a.drop_first(), b);
    }
}

proof fn lemma_byte_len_push(s: Seq<char>, i: int)
    requires
        0 <= i < s.len(),
    ensures
        byte_len(s.take(i + 1)) == byte_len(s.take(i)) + utf8_width(s[i]),
{
    assert(s.take(i + 1) =~= s.take(i) + seq![s[i]]);
    lemma_byte_len_concat(s.take(i), seq![s[i]]);
    assert(seq![s[i]].drop_first() =~= Seq::<char>::empty());
    assert(byte_len(seq![s[i]]) == utf8_width(s[i]) + byte_len(Seq::<char>::empty()));
}

proof fn lemma_take_bytes_step(s: Seq<char>, n: int, i: int)
    requires
        0 <= i < s.len(),
        byte_len(s.take(i)) + utf8_width(s[i]) <= n,
        take_bytes(s, n) == s.take(i) + take_bytes(s.skip(i), n - byte_len(s.take(i))),
    ensures
        take_bytes(s, n) == s.take(i + 1) + take_bytes(s.skip(i + 1), n - byte_len(s.take(i + 1))),
{
    lemma_byte_len_push(s, i);
    let t = s.skip(i);
    assert(t[0] == s[i]);
    assert(t.drop_first() =~= s.skip(i + 1));
    assert(s.take(i) + (seq![s[i]] + take_bytes(s.skip(i + 1), n - byte_len(s.take(i + 1))))
        =~= s.take(i + 1) + take_bytes(s.skip(i + 1), n - byte_len(s.take(i + 1))));
}

/// Whether the UTF-8 encoding of `s` is longer than `n` bytes, as
/// `s.len() > n` decides it.
pub fn byte_len_exceeds(s: &str, n: usize) -> (r: bool)
    ensures
        r == (byte_len(s@) > n),
{
    let len = s.unicode_len();
    let mut i: usize = 0;
    let mut acc: usize = 0;
    while i < len
        invariant
            len == s@.len(),
            i <= len,
            acc == byte_len(s@.take(i as int)),
            acc <= n,
        decreases len - i,
    {
        let c = s.get_char(i);
        let w: usize = char_width(c);
        proof {
            lemma_byte_len_push(s@, i as int);
        }
        if w > n - acc {
            proof {
                assert(s@ =~= s@.take(i + 1) + s@.skip(i + 1));
                lemma_byte_len_concat(s@.take(i + 1), s@.skip(i + 1));
            }
            return true;
        }
        acc = acc + w;
        i = i + 1;
    }
    assert(s@.take(len as int) =~= s@);
    false
}

/// The number of UTF-8 bytes of `c`.
pub fn char_width(c: char) -> (r: usize)
    ensures
        r == utf8_width(c),
{
    let v = c as u32;
    if v < 0x80 {
        1
    } else if v < 0x800 {
        2
    } else if v < 0x10000 {
        3
    } else {
        4
    }
}

/// The longest prefix of `s` that fits in `n` bytes of UTF-8, together with
/// whether it takes exactly `n` bytes.
pub fn take_bytes_string(s: &str, n: usize) -> (r: (String, bool))
    ensures
        r.0@ == take_bytes(s@, n as int),
        r.1 == is_byte_boundary(s@, n as int),
{
    let len = s.unicode_len();
    let mut i: usize = 0;
    let mut acc: usize = 0;
    proof {
        assert(s@.take(0) =~= Seq::<char>::empty());
        assert(s@.skip(0) =~= s@);
    }
    while i < len
        invariant_except_break
            len == s@.len(),
            i <= len,
            acc == byte_len(s@.take(i as int)),
            acc <= n,
            take_bytes(s@, n as int) == s@.take(i as int) + take_bytes(s@.skip(i as int), n - acc),
        ensures
            len == s@.len(),
            i <= len,
            acc == byte_len(s@.take(i as int)),
            acc <= n,
            take_bytes(s@, n as int) == s@.take(i as int),
        decreases len - i,
    {
        let c = s.get_char(i);
        let w: usize = char_width(c);
        if w > n - acc {
            proof {
                assert(s@.skip(i as int)[0] == c);
                assert(take_bytes(s@.skip(i as int), n - acc) =~= Seq::<char>::empty());
                assert(s@.take(i as int) + Seq::<char>::empty() =~= s@.take(i as int));
            }
            break;
        }
        proof {
            lemma_take_bytes_step(s@, n as int, i as int);
            lemma_byte_len_push(s@, i as int);
        }
        acc = acc + w;
        i = i + 1;
        proof {
            if i == len {
                assert(s@.skip(i as int) =~= Seq::<char>::empty());
                assert(s@.take(i as int) + Seq::<char>::empty() =~= s@.take(i as int));
            }
        }
    }
    let prefix = s.substring_char(0, i);
    (String::from_str(prefix), acc == n)
}

/// Whether two strings hold the same characters.
pub fn str_eq(a: &str, b: &str) -> (r: bool)
    ensures
        r == (a@ == b@),
{
    let n = a.unicode_len();
    if n != b.unicode_len() {
        return false;
    }
    let mut i: usize = 0;
    while i < n
        invariant
            n == a@.len(),
            n == b@.len(),
            i <= n,
            forall|j: int| 0 <= j < i ==> a@[j] == b@[j],
        decreases n - i,
    {
        if a.get_char(i) != b.get_char(i) {
            return false;
        }
        i = i + 1;
    }
    assert(a@ =~= b@);
    true
}

/// `n` spaces.
pub fn space_string(n: usize) -> (r: String)
    ensures
        r@ == spaces(n as nat),
{
    proof {
        reveal_strlit(" ");
    }
    repeat_string(" ", n)
}

/// The one-character string `unit` repeated `n` times.
pub fn repeat_string(unit: &str, n: usize) -> (r: String)
    requires
        unit@.len() == 1,
    ensures
        r@ == repeat_char(unit@[0], n as nat),
{
    let mut r = String::new();
    let mut i: usize = 0;
    while i < n
        invariant
            unit@.len() == 1,
            i <= n,
            r@ == repeat_char(unit@[0], i as nat),
        decreases n - i,
    {
        r.append(unit);
        i = i + 1;
        assert(r@ =~= repeat_char(unit@[0], i as nat));
    }
    r
}

/// `s` padded on the right with spaces to `width` characters.
pub fn pad_right_string(s: &str, width: usize) -> (r: String)
    ensures
        r@ == pad_right(s@, width as nat),
{
    let n = s.unicode_len();
    if n >= width {
        String::from_str(s)
    } else {
        let mut r = String::from_str(s);
        let pad = space_string(width - n);
        r.append(pad.as_str());
        r
    }
}

/// `s` padded on the left with spaces to `width` characters.
pub fn pad_left_string(s: &str, width: usize) -> (r: String)
    ensures
        r@ == pad_left(s@, width as nat),
{
    let n = s.unicode_len();
    if n >= width {
        String::from_str(s)
    } else {
        let mut r = space_string(width - n);
        r.append(s);
        r
    }
}

/// Whether `needle` occurs in `hay`, as `str::contains` with a string pattern
/// decides it.
pub fn contains_str(hay: &str, needle: &str) -> (r: bool)
    ensures
        r == contains_seq(hay@, needle@),
{
    let n = hay.unicode_len();
    let m = needle.unicode_len();
    if m > n {
        assert(!contains_seq(hay@, needle@));
        return false;
    }
    let mut i: usize = 0;
    while i <= n - m
        invariant
            n == hay@.len(),
            m == needle@.len(),
            m <= n,
            i <= n - m + 1,
            forall|k: int| 0 <= k < i ==> #[trigger] hay@.subrange(k, k + m) != needle@,
        decreases n - m + 1 - i,
    {
        let mut j: usize = 0;
        let mut same = true;
        while j < m
            invariant
                n == hay@.len(),
                m == needle@.len(),
                i + m <= n,
                j <= m,
                same == (forall|t: int| 0 <= t < j ==> hay@[i + t] == needle@[t]),
            decreases m - j,
        {
            if hay.get_char(i + j) != needle.get_char(j) {
                same = false;
            }
            j = j + 1;
        }
        if same {
            assert(hay@.subrange(i as int, i + m) =~= needle@);
            return true;
        }
        assert(hay@.subrange(i as int, i + m)[0] == hay@[i as int] || m == 0);
        assert(hay@.subrange(i as int, i + m) != needle@) by {
            let t = choose|t: int| 0 <= t < m && hay@[i + t] != needle@[t];
            assert(hay@.subrange(i as int, i + m)[t] == hay@[i + t]);
        }
        i = i + 1;
    }
    assert(!contains_seq(hay@, needle@)) by {
        if contains_seq(hay@, needle@) {
            let k = choose|k: int|
                0 <= k && k + m <= n && #[trigger] hay@.subrange(k, k + m) == needle@;
            assert(hay@.subrange(k, k + m) != needle@);
        }
    }
    false
}

/// Whether `a` sorts no later than `b` in lexicographic order.
pub fn str_le(a: &str, b: &str) -> (r: bool)
    ensures
        r == chars_le(a@, b@),
{
    let n = a.unicode_len();
    let m = b.unicode_len();
    let mut i: usize = 0;
    assert(a@.skip(0) =~= a@);
    assert(b@.skip(0) =~= b@);
    while i < n && i < m
        invariant
            n == a@.len(),
            m == b@.len(),
            i <= n,
            i <= m,
            chars_le(a@, b@) == chars_le(a@.skip(i as int), b@.skip(i as int)),
        decreases n - i,
    {
        let x = a.get_char(i);
        let y = b.get_char(i);
        if (x as u32) != (y as u32) {
            return (x as u32) < (y as u32);
        }
        assert(a@.skip(i as int).drop_first() =~= a@.skip(i + 1));
        assert(b@.skip(i as int).drop_first() =~= b@.skip(i + 1));
        i = i + 1;
    }
    i == n
}

/// `chars_le` relates any two sequences one way or the other.
pub proof fn lemma_chars_le_total(a: Seq<char>, b: Seq<char>)
    ensures
        chars_le(a, b) || chars_le(b, a),
    decreases a.len(),
{
    if a.len() > 0 && b.len() > 0 && (a[0] as u32) == (b[0] as u32) {
        lemma_chars_le_total(a.drop_first(), b.drop_first());
    }
}

/// `chars_le` is transitive.
pub proof fn lemma_chars_le_transitive(a: Seq<char>, b: Seq<char>, c: Seq<char>)
    requires
        chars_le(a, b),
        chars_le(b, c),
    ensures
        chars_le(a, c),
    decreases a.len(),
{
    if a.len() > 0 && b.len() > 0 && c.len() > 0 && (a[0] as u32) == (b[0] as u32) && (b[0] as u32) == (c[0] as u32) {
        lemma_chars_le_transitive(a.drop_first(), b.drop_first(), c.drop_first());
    }
}

} // verus!
