//! Text utilities over document content: the content fingerprint used by
//! the parse cache, line geometry for cursor handling, trailing-dot
//! detection for member-access completion, first-line extraction for type
//! error messages, and decimal rendering of counts.

use vstd::prelude::*;
use vstd::string::*;

verus! {

/// Offset basis of the 64-bit FNV-1a fingerprint.
pub const FNV_OFFSET_BASIS: u64 = 0xcbf29ce484222325;

/// Multiplier of the 64-bit FNV-1a fingerprint.
pub const FNV_PRIME: u64 = 0x100000001b3;

/// One FNV-1a step: xor the byte in, multiply by the prime, wrapping.
pub open spec fn spec_fnv_step(h: u64, b: u8) -> u64 {
    vstd::wrapping::u64_specs::wrapping_mul(h ^ (b as u64), FNV_PRIME)
}

/// FNV-1a folded over `bytes`, starting from state `h`.
pub open spec fn spec_fnv_from(h: u64, bytes: Seq<u8>) -> u64
    decreases bytes.len(),
{
    if bytes.len() <= 0 {
        h
    } else {
        spec_fnv_from(spec_fnv_step(h, bytes[0]), bytes.drop_first())
    }
}

/// The fingerprint of a byte string: 64-bit FNV-1a.
pub open spec fn spec_fingerprint_bytes(bytes: Seq<u8>) -> u64 {
    spec_fnv_from(FNV_OFFSET_BASIS, bytes)
}

/// The fingerprint of a document text: FNV-1a over its UTF-8 bytes.
/// A fast, non-cryptographic content hash; collisions are an accepted
/// risk of the cache design.
pub open spec fn spec_fingerprint(text: Seq<char>) -> u64 {
    spec_fingerprint_bytes(vstd::utf8::encode_utf8(text))
}

/// Computes the FNV-1a fingerprint of a document text.
pub fn fingerprint(text: &str) -> (r: u64)
    ensures
        r == spec_fingerprint(text@),
{
    let bytes = text.as_bytes();
    let ghost all = bytes@;
    let mut h: u64 = FNV_OFFSET_BASIS;
    let mut i: usize = 0;
    proof {
        assert(all.subrange(0, all.len() as int) =~= all);
    }
    while i < bytes.len()
        invariant
            0 <= i <= all.len(),
            bytes@ == all,
            spec_fingerprint_bytes(all) == spec_fnv_from(h, all.subrange(i as int, all.len() as int)),
        decreases all.len() - i,
    {
        let b = *vstd::slice::slice_index_get(bytes, i);
        proof {
            let rest = all.subrange(i as int, all.len() as int);
            assert(rest[0] == all[i as int]);
            assert(rest.drop_first() =~= all.subrange(i as int + 1, all.len() as int));
        }
        h = (h ^ (b as u64)).wrapping_mul(FNV_PRIME);
        i = i + 1;
    }
    proof {
        assert(all.subrange(all.len() as int, all.len() as int) =~= Seq::<u8>::empty());
    }
    h
}

/// Byte value of a line feed.
pub const NL: u8 = 10;

/// Byte value of a carriage return.
pub const CR: u8 = 13;

/// Byte value of a full stop.
pub const DOT: u8 = 46;

/// The index of the first line feed at or after `i`, or the length when
/// there is none.
pub open spec fn spec_find_nl(s: Seq<u8>, i: int) -> int
    decreases s.len() - i,
{
    if i < 0 {
        0
    } else if i >= s.len() {
        s.len() as int
    } else if s[i] == NL {
        i
    } else {
        spec_find_nl(s, i + 1)
    }
}

proof fn lemma_find_nl_bounds(s: Seq<u8>, i: int)
    requires
        0 <= i <= s.len(),
    ensures
        i <= spec_find_nl(s, i) <= s.len(),
        spec_find_nl(s, i) < s.len() ==> s[spec_find_nl(s, i)] == NL,
    decreases s.len() - i,
{
    if i < s.len() && s[i] != NL {
        lemma_find_nl_bounds(s, i + 1);
    }
}

/// Finds the first line feed at or after `from`.
fn find_nl(bytes: &[u8], from: usize) -> (r: usize)
    requires
        from <= bytes@.len(),
    ensures
        r == spec_find_nl(bytes@, from as int),
        from <= r <= bytes@.len(),
        r < bytes@.len() ==> bytes@[r as int] == NL,
{
    let mut i = from;
    while i < bytes.len()
        invariant
            from <= i <= bytes@.len(),
            spec_find_nl(bytes@, from as int) == spec_find_nl(bytes@, i as int),
        decreases bytes@.len() - i,
    {
        let b = *vstd::slice::slice_index_get(bytes, i);
        if b == NL {
            return i;
        }
        i = i + 1;
    }
    i
}

/// The byte offset at which line `k` (0-based) starts: one past the
/// `k`-th line feed. A value beyond the length means no such line.
pub open spec fn spec_line_start(s: Seq<u8>, k: int) -> int
    decreases k,
{
    if k <= 0 {
        0
    } else {
        let p = spec_line_start(s, k - 1);
        if p > s.len() {
            p
        } else {
            spec_find_nl(s, p) + 1
        }
    }
}

/// Whether the text has a line `k` in the sense of line splitting that
/// drops a final empty fragment.
pub open spec fn spec_line_exists(s: Seq<u8>, k: int) -> bool {
    spec_line_start(s, k) < s.len()
}

/// The end (exclusive) of line `k`'s content: the next line feed, with a
/// carriage return directly before it stripped.
pub open spec fn spec_line_content_end(s: Seq<u8>, k: int) -> int {
    let start = spec_line_start(s, k);
    let e = spec_find_nl(s, start);
    if e < s.len() && e > start && s[e - 1] == CR {
        e - 1
    } else {
        e
    }
}

proof fn lemma_line_start_bounds(s: Seq<u8>, k: int)
    requires
        k >= 0,
    ensures
        0 <= spec_line_start(s, k) <= s.len() + 1,
    decreases k,
{
    if k > 0 {
        lemma_line_start_bounds(s, k - 1);
        if spec_line_start(s, k - 1) <= s.len() {
            lemma_find_nl_bounds(s, spec_line_start(s, k - 1));
        }
    }
}

proof fn lemma_line_start_monotone(s: Seq<u8>, j: int, k: int)
    requires
        0 <= j <= k,
    ensures
        spec_line_start(s, j) <= spec_line_start(s, k),
    decreases k - j,
{
    if j < k {
        lemma_line_start_monotone(s, j, k - 1);
        lemma_line_start_bounds(s, k - 1);
        let p = spec_line_start(s, k - 1);
        if p <= s.len() {
            lemma_find_nl_bounds(s, p);
        }
    }
}

/// Locates line `k` of the text: `Some((start, end))` of its content
/// bytes (carriage return before the line feed stripped), or `None` when
/// the text has no such line.
pub fn line_bounds(bytes: &[u8], k: usize) -> (r: Option<(usize, usize)>)
    ensures
        match r {
            Some((start, end)) => {
                &&& spec_line_exists(bytes@, k as int)
                &&& start == spec_line_start(bytes@, k as int)
                &&& end == spec_line_content_end(bytes@, k as int)
                &&& start <= end <= bytes@.len()
            },
            None => !spec_line_exists(bytes@, k as int),
        },
{
    let mut start: usize = 0;
    let mut j: usize = 0;
    while j < k
        invariant
            0 <= j <= k,
            start == spec_line_start(bytes@, j as int),
            start <= bytes@.len(),
        decreases k - j,
    {
        let e = find_nl(bytes, start);
        if e == bytes.len() {
            proof {
                assert(spec_line_start(bytes@, j as int + 1) == spec_find_nl(bytes@, start as int) + 1);
                lemma_line_start_monotone(bytes@, j as int + 1, k as int);
                assert(spec_line_start(bytes@, k as int) > bytes@.len());
                assert(!spec_line_exists(bytes@, k as int));
            }
            return None;
        }
        start = e + 1;
        j = j + 1;
    }
    if start >= bytes.len() {
        proof {
            assert(!spec_line_exists(bytes@, k as int));
        }
        return None;
    }
    let e = find_nl(bytes, start);
    let end = if e < bytes.len() && e > start {
        let last = *vstd::slice::slice_index_get(bytes, e - 1);
        if last == CR {
            e - 1
        } else {
            e
        }
    } else {
        e
    };
    Some((start, end))
}

/// ASCII whitespace, as trailing-whitespace trimming sees it.
pub open spec fn spec_is_ws(b: u8) -> bool {
    b == 32 || (9 <= b <= 13)
}

/// `s` with its trailing ASCII whitespace removed.
pub open spec fn spec_trim_end(s: Seq<u8>) -> Seq<u8>
    decreases s.len(),
{
    if s.len() > 0 && spec_is_ws(s.last()) {
        spec_trim_end(s.drop_last())
    } else {
        s
    }
}

/// Whether `s`, trimmed of trailing whitespace, ends with a full stop.
pub open spec fn spec_ends_with_dot(s: Seq<u8>) -> bool {
    let t = spec_trim_end(s);
    t.len() > 0 && t.last() == DOT
}

fn is_ws_byte(b: u8) -> (r: bool)
    ensures
        r == spec_is_ws(b),
{
    b == 32 || (9 <= b && b <= 13)
}

/// Whether the bytes in `[start, end)`, trimmed of trailing whitespace,
/// end with a full stop.
pub fn range_ends_with_dot(bytes: &[u8], start: usize, end: usize) -> (r: bool)
    requires
        start <= end <= bytes@.len(),
    ensures
        r == spec_ends_with_dot(bytes@.subrange(start as int, end as int)),
{
    let ghost whole = bytes@.subrange(start as int, end as int);
    let mut j = end;
    while j > start && is_ws_byte(*vstd::slice::slice_index_get(bytes, j - 1))
        invariant
            start <= j <= end <= bytes@.len(),
            spec_trim_end(whole) == spec_trim_end(bytes@.subrange(start as int, j as int)),
        decreases j,
    {
        proof {
            let cur = bytes@.subrange(start as int, j as int);
            assert(cur.last() == bytes@[j - 1]);
            assert(cur.drop_last() =~= bytes@.subrange(start as int, j as int - 1));
        }
        j = j - 1;
    }
    proof {
        let cur = bytes@.subrange(start as int, j as int);
        assert(spec_trim_end(cur) == cur);
    }
    if j > start {
        let b = *vstd::slice::slice_index_get(bytes, j - 1);
        proof {
            let cur = bytes@.subrange(start as int, j as int);
            assert(cur.last() == bytes@[j - 1]);
        }
        b == DOT
    } else {
        false
    }
}

/// Whether the cursor at 0-based `line`, `col` stands in member-access
/// position: the cursor line's prefix of `col` bytes (the whole line when
/// `col` runs past it), trimmed of trailing whitespace, ends with `.`.
/// `None` when the text has no such line.
pub open spec fn spec_member_access(s: Seq<u8>, line: int, col: int) -> bool {
    let start = spec_line_start(s, line);
    let end = spec_line_content_end(s, line);
    let cut = if col <= end - start {
        start + col
    } else {
        end
    };
    spec_ends_with_dot(s.subrange(start, cut))
}

/// Decides member-access position for the cursor; `None` when the text
/// has no line `line`.
pub fn member_access_at(text: &str, line: usize, col: usize) -> (r: Option<bool>)
    ensures
        match r {
            Some(b) => {
                &&& spec_line_exists(text.spec_bytes(), line as int)
                &&& b == spec_member_access(text.spec_bytes(), line as int, col as int)
            },
            None => !spec_line_exists(text.spec_bytes(), line as int),
        },
{
    let bytes = text.as_bytes();
    match line_bounds(bytes, line) {
        None => None,
        Some((start, end)) => {
            let cut = if col <= end - start {
                start + col
            } else {
                end
            };
            Some(range_ends_with_dot(bytes, start, cut))
        },
    }
}

/// The index of the first `'\n'` at or after `i` in a character string,
/// or the length when there is none.
pub open spec fn spec_find_nl_char(s: Seq<char>, i: int) -> int
    decreases s.len() - i,
{
    if i < 0 {
        0
    } else if i >= s.len() {
        s.len() as int
    } else if s[i] == '\n' {
        i
    } else {
        spec_find_nl_char(s, i + 1)
    }
}

/// The first line of a message: everything before the first `'\n'`, with
/// a carriage return directly before that `'\n'` stripped.
pub open spec fn spec_first_line(s: Seq<char>) -> Seq<char> {
    let e = spec_find_nl_char(s, 0);
    if e < s.len() && e > 0 && s[e - 1] == '\r' {
        s.take(e - 1)
    } else {
        s.take(e)
    }
}

proof fn lemma_find_nl_char_bounds(s: Seq<char>, i: int)
    requires
        0 <= i <= s.len(),
    ensures
        i <= spec_find_nl_char(s, i) <= s.len(),
    decreases s.len() - i,
{
    if i < s.len() && s[i] != '\n' {
        lemma_find_nl_char_bounds(s, i + 1);
    }
}

/// Extracts the first line of a message, as a type error diagnostic
/// shows it: multi-line detail is deliberately suppressed.
pub fn first_line(msg: &str) -> (r: String)
    ensures
        r@ == spec_first_line(msg@),
{
    let n = msg.unicode_len();
    let mut i: usize = 0;
    while i < n && msg.get_char(i) != '\n'
        invariant
            0 <= i <= n == msg@.len(),
            spec_find_nl_char(msg@, 0) == spec_find_nl_char(msg@, i as int),
        decreases n - i,
    {
        i = i + 1;
    }
    proof {
        lemma_find_nl_char_bounds(msg@, i as int);
    }
    let cut = if i < n && i > 0 && msg.get_char(i - 1) == '\r' {
        i - 1
    } else {
        i
    };
    let part = msg.substring_char(0, cut);
    proof {
        assert(part@ =~= spec_first_line(msg@));
    }
    part.to_owned()
}

/// The decimal digit character for `d`.
pub open spec fn spec_digit_char(d: int) -> char {
    if d == 0 {
        '0'
    } else if d == 1 {
        '1'
    } else if d == 2 {
        '2'
    } else if d == 3 {
        '3'
    } else if d == 4 {
        '4'
    } else if d == 5 {
        '5'
    } else if d == 6 {
        '6'
    } else if d == 7 {
        '7'
    } else if d == 8 {
        '8'
    } else {
        '9'
    }
}

/// The decimal rendering of a nonnegative number.
pub open spec fn spec_dec_digits(n: int) -> Seq<char>
    decreases n,
{
    if n < 10 {
        seq![spec_digit_char(n)]
    } else {
        spec_dec_digits(n / 10) + seq![spec_digit_char(n % 10)]
    }
}

fn append_digit(s: &mut String, d: u64)
    requires
        d < 10,
    ensures
        final(s)@ == old(s)@ + seq![spec_digit_char(d as int)],
{
    if d == 0 {
        proof { reveal_strlit("0"); }
        s.append("0");
        proof { assert(s@ =~= old(s)@ + seq![spec_digit_char(d as int)]); }
    } else if d == 1 {
        proof { reveal_strlit("1"); }
        s.append("1");
        proof { assert(s@ =~= old(s)@ + seq![spec_digit_char(d as int)]); }
    } else if d == 2 {
        proof { reveal_strlit("2"); }
        s.append("2");
        proof { assert(s@ =~= old(s)@ + seq![spec_digit_char(d as int)]); }
    } else if d == 3 {
        proof { reveal_strlit("3"); }
        s.append("3");
        proof { assert(s@ =~= old(s)@ + seq![spec_digit_char(d as int)]); }
    } else if d == 4 {
        proof { reveal_strlit("4"); }
        s.append("4");
        proof { assert(s@ =~= old(s)@ + seq![spec_digit_char(d as int)]); }
    } else if d == 5 {
        proof { reveal_strlit("5"); }
        s.append("5");
        proof { assert(s@ =~= old(s)@ + seq![spec_digit_char(d as int)]); }
    } else if d == 6 {
        proof { reveal_strlit("6"); }
        s.append("6");
        proof { assert(s@ =~= old(s)@ + seq![spec_digit_char(d as int)]); }
    } else if d == 7 {
        proof { reveal_strlit("7"); }
        s.append("7");
        proof { assert(s@ =~= old(s)@ + seq![spec_digit_char(d as int)]); }
    } else if d == 8 {
        proof { reveal_strlit("8"); }
        s.append("8");
        proof { assert(s@ =~= old(s)@ + seq![spec_digit_char(d as int)]); }
    } else {
        proof { reveal_strlit("9"); }
        s.append("9");
        proof { assert(s@ =~= old(s)@ + seq![spec_digit_char(d as int)]); }
    }
}

/// Appends the decimal rendering of `n`.
pub fn append_dec_u64(s: &mut String, n: u64)
    ensures
        final(s)@ == old(s)@ + spec_dec_digits(n as int),
    decreases n,
{
    if n < 10 {
        append_digit(s, n);
    } else {
        append_dec_u64(s, n / 10);
        append_digit(s, n % 10);
        proof {
            assert(s@ =~= old(s)@ + spec_dec_digits(n as int));
        }
    }
}

} // verus!
