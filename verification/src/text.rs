//! Character-sequence primitives shared by the parsers and builders of the
//! library: whitespace trimming, substring search, splitting, replacing,
//! ASCII case folding and decimal conversion.  Every operation is specified
//! over `Seq<char>`, the view of `str`, `String` and `Vec<char>`.
use vstd::prelude::*;

verus! {

// ---------------------------------------------------------------------------
// Characters
// ---------------------------------------------------------------------------

/// The Unicode `White_Space` property, as `char::is_whitespace` documents it.
pub open spec fn is_ws(c: char) -> bool {
    let u = c as u32;
    u == 9 || u == 10 || u == 11 || u == 12 || u == 13 || u == 32 || u == 0x85 || u == 0xA0
        || u == 0x1680 || (0x2000 <= u && u <= 0x200A) || u == 0x2028 || u == 0x2029
        || u == 0x202F || u == 0x205F || u == 0x3000
}

pub fn is_whitespace(c: char) -> (b: bool)
    ensures
        b == is_ws(c),
{
    let u = c as u32;
    u == 9 || u == 10 || u == 11 || u == 12 || u == 13 || u == 32 || u == 0x85 || u == 0xA0
        || u == 0x1680 || (0x2000 <= u && u <= 0x200A) || u == 0x2028 || u == 0x2029
        || u == 0x202F || u == 0x205F || u == 0x3000
}

pub open spec fn is_digit(c: char) -> bool {
    '0' <= c && c <= '9'
}

/// `char::to_ascii_lowercase`.
pub open spec fn ascii_lower(c: char) -> char {
    if 'A' <= c && c <= 'Z' {
        ((c as u32) + 32) as char
    } else {
        c
    }
}

pub fn to_ascii_lower(c: char) -> (r: char)
    ensures
        r == ascii_lower(c),
{
    if 'A' <= c && c <= 'Z' {
        let u = (c as u8) + 32;
        u as char
    } else {
        c
    }
}

/// `str::to_ascii_lowercase` on a whole sequence.
pub open spec fn lower_seq(s: Seq<char>) -> Seq<char> {
    s.map_values(|c: char| ascii_lower(c))
}

pub fn lower_chars(s: &Vec<char>) -> (r: Vec<char>)
    ensures
        r@ == lower_seq(s@),
{
    let mut r: Vec<char> = Vec::new();
    let mut i: usize = 0;
    while i < s.len()
        invariant
            i <= s.len(),
            r@ =~= lower_seq(s@).take(i as int),
        decreases s.len() - i,
    {
        let c = to_ascii_lower(s[i]);
        r.push(c);
        i += 1;
    }
    assert(r@ =~= lower_seq(s@));
    r
}

// ---------------------------------------------------------------------------
// Conversions between `str`/`String` and `Vec<char>`
// ---------------------------------------------------------------------------

/// The characters of a string slice, in order.
pub fn chars_of(s: &str) -> (out: Vec<char>)
    ensures
        out@ == s@,
{
    let mut out: Vec<char> = Vec::new();
    for c in it: s.chars()
        invariant
            out@ == it.seq().take(it.index() as int),
    {
        out.push(c);
    }
    out
}

/// Builds a `String` holding exactly the given characters (`Iterator::collect`).
#[verifier::external_body]
pub(crate) fn string_from_chars(chars: &[char]) -> (s: String)
    ensures
        s@ == chars@,
{
    chars.iter().collect()
}

/// Appends the characters of `s` to `out`.
pub fn push_str(out: &mut Vec<char>, s: &str)
    ensures
        final(out)@ == old(out)@ + s@,
{
    let ghost start = out@;
    for c in it: s.chars()
        invariant
            out@ == start + it.seq().take(it.index() as int),
    {
        out.push(c);
        proof {
            assert(it.seq().take(it.index() + 1) =~= it.seq().take(it.index() as int).push(c));
        }
    }
}

/// Appends a character sequence to `out`.
pub fn push_chars(out: &mut Vec<char>, s: &Vec<char>)
    ensures
        final(out)@ == old(out)@ + s@,
{
    let ghost start = out@;
    let mut i: usize = 0;
    while i < s.len()
        invariant
            i <= s.len(),
            out@ =~= start + s@.take(i as int),
        decreases s.len() - i,
    {
        out.push(s[i]);
        i += 1;
    }
    assert(s@.take(s.len() as int) =~= s@);
}

/// Copies `s[from..to]`.
pub fn slice_chars(s: &Vec<char>, from: usize, to: usize) -> (r: Vec<char>)
    requires
        from <= to <= s.len(),
    ensures
        r@ == s@.subrange(from as int, to as int),
{
    let mut r: Vec<char> = Vec::new();
    let mut i: usize = from;
    while i < to
        invariant
            from <= i <= to <= s.len(),
            r@ =~= s@.subrange(from as int, i as int),
        decreases to - i,
    {
        r.push(s[i]);
        i += 1;
    }
    r
}

/// Equality of two character sequences.
pub fn chars_eq(a: &Vec<char>, b: &Vec<char>) -> (r: bool)
    ensures
        r == (a@ == b@),
{
    if a.len() != b.len() {
        return false;
    }
    let mut i: usize = 0;
    while i < a.len()
        invariant
            i <= a.len() == b.len(),
            forall|j: int| 0 <= j < i ==> a@[j] == b@[j],
        decreases a.len() - i,
    {
        if a[i] != b[i] {
            return false;
        }
        i += 1;
    }
    assert(a@ =~= b@);
    true
}

/// Equality of a character sequence and a string slice.
pub fn chars_eq_str(a: &Vec<char>, b: &str) -> (r: bool)
    ensures
        r == (a@ == b@),
{
    let bc = chars_of(b);
    chars_eq(a, &bc)
}

/// Equality of two string slices.
pub fn str_eq(a: &str, b: &str) -> (r: bool)
    ensures
        r == (a@ == b@),
{
    let ac = chars_of(a);
    chars_eq_str(&ac, b)
}

// ---------------------------------------------------------------------------
// Trimming
// ---------------------------------------------------------------------------

/// `str::trim_start`.
pub open spec fn trim_start(s: Seq<char>) -> Seq<char>
    decreases s.len(),
{
    if s.len() > 0 && is_ws(s[0]) {
        trim_start(s.drop_first())
    } else {
        s
    }
}

/// `str::trim_end`.
pub open spec fn trim_end(s: Seq<char>) -> Seq<char>
    decreases s.len(),
{
    if s.len() > 0 && is_ws(s.last()) {
        trim_end(s.drop_last())
    } else {
        s
    }
}

/// `str::trim`.
pub open spec fn trim(s: Seq<char>) -> Seq<char> {
    trim_end(trim_start(s))
}

proof fn lemma_trim_start_skip(s: Seq<char>, i: int)
    requires
        0 <= i <= s.len(),
        forall|k: int| 0 <= k < i ==> is_ws(#[trigger] s[k]),
    ensures
        trim_start(s) == trim_start(s.skip(i)),
    decreases i,
{
    if i > 0 {
        assert(s.drop_first().skip(i - 1) =~= s.skip(i));
        assert forall|k: int| 0 <= k < i - 1 implies is_ws(#[trigger] s.drop_first()[k]) by {
            assert(s.drop_first()[k] == s[k + 1]);
        }
        lemma_trim_start_skip(s.drop_first(), i - 1);
    } else {
        assert(s.skip(0) =~= s);
    }
}

proof fn lemma_trim_end_take(s: Seq<char>, j: int)
    requires
        0 <= j <= s.len(),
        forall|k: int| j <= k < s.len() ==> is_ws(#[trigger] s[k]),
    ensures
        trim_end(s) == trim_end(s.take(j)),
    decreases s.len() - j,
{
    if j < s.len() {
        assert(s.drop_last().take(j) =~= s.take(j));
        assert forall|k: int| j <= k < s.len() - 1 implies is_ws(#[trigger] s.drop_last()[k]) by {
            assert(s.drop_last()[k] == s[k]);
        }
        lemma_trim_end_take(s.drop_last(), j);
    } else {
        assert(s.take(j) =~= s);
    }
}

/// Bounds `(a, b)` such that `s[a..b]` is `trim(s)`.
pub fn trim_bounds(s: &Vec<char>) -> (r: (usize, usize))
    ensures
        r.0 <= r.1 <= s.len(),
        s@.subrange(r.0 as int, r.1 as int) == trim(s@),
{
    let mut a: usize = 0;
    while a < s.len() && is_whitespace(s[a])
        invariant
            a <= s.len(),
            forall|k: int| 0 <= k < a ==> is_ws(#[trigger] s@[k]),
        decreases s.len() - a,
    {
        a += 1;
    }
    proof {
        lemma_trim_start_skip(s@, a as int);
    }
    let ghost t = s@.skip(a as int);
    assert(trim_start(t) == t);
    let mut b: usize = s.len();
    while b > a && is_whitespace(s[b - 1])
        invariant
            a <= b <= s.len(),
            forall|k: int| b <= k < s.len() ==> is_ws(#[trigger] s@[k]),
        decreases b,
    {
        b -= 1;
    }
    proof {
        assert forall|k: int| b - a <= k < t.len() implies is_ws(#[trigger] t[k]) by {
            assert(t[k] == s@[k + a]);
        }
        lemma_trim_end_take(t, b - a);
        let u = t.take(b - a);
        if u.len() > 0 {
            assert(u.last() == s@[b - 1]);
        }
        assert(trim_end(u) == u);
        assert(u =~= s@.subrange(a as int, b as int));
    }
    (a, b)
}

/// `s.trim_start()` as characters.
pub fn trim_start_chars(s: &Vec<char>) -> (r: Vec<char>)
    ensures
        r@ == trim_start(s@),
{
    let mut a: usize = 0;
    while a < s.len() && is_whitespace(s[a])
        invariant
            a <= s.len(),
            forall|k: int| 0 <= k < a ==> is_ws(#[trigger] s@[k]),
        decreases s.len() - a,
    {
        a += 1;
    }
    proof {
        lemma_trim_start_skip(s@, a as int);
    }
    let r = slice_chars(s, a, s.len());
    assert(r@ =~= s@.skip(a as int));
    r
}

/// `s.trim()` as characters.
pub fn trim_chars(s: &Vec<char>) -> (r: Vec<char>)
    ensures
        r@ == trim(s@),
{
    let (a, b) = trim_bounds(s);
    slice_chars(s, a, b)
}

/// `s.trim()` of a string slice, as characters.
pub fn trim_str(s: &str) -> (r: Vec<char>)
    ensures
        r@ == trim(s@),
{
    let c = chars_of(s);
    trim_chars(&c)
}

pub proof fn lemma_trim_start_idempotent(s: Seq<char>)
    ensures
        trim_start(trim_start(s)) == trim_start(s),
        trim_start(s).len() == 0 || !is_ws(trim_start(s)[0]),
    decreases s.len(),
{
    if s.len() > 0 && is_ws(s[0]) {
        lemma_trim_start_idempotent(s.drop_first());
    }
}

pub proof fn lemma_trim_end_idempotent(s: Seq<char>)
    ensures
        trim_end(trim_end(s)) == trim_end(s),
        trim_end(s).len() == 0 || !is_ws(trim_end(s).last()),
        trim_end(s).len() <= s.len(),
        trim_end(s) == s.take(trim_end(s).len() as int),
    decreases s.len(),
{
    if s.len() > 0 && is_ws(s.last()) {
        lemma_trim_end_idempotent(s.drop_last());
        assert(s.drop_last().take(trim_end(s).len() as int) =~= s.take(trim_end(s).len() as int));
    } else {
        assert(s.take(s.len() as int) =~= s);
    }
}

/// Trimming twice changes nothing.
pub proof fn lemma_trim_idempotent(s: Seq<char>)
    ensures
        trim(trim(s)) == trim(s),
        trim(s).len() == 0 || (!is_ws(trim(s)[0]) && !is_ws(trim(s).last())),
{
    let t = trim_start(s);
    lemma_trim_start_idempotent(s);
    lemma_trim_end_idempotent(t);
    let u = trim_end(t);
    // u is a prefix of t, so its first char is t's first char
    if u.len() > 0 {
        assert(u[0] == t[0]);
        assert(trim_start(u) == u);
    } else {
        assert(trim_start(u) == u);
    }
    lemma_trim_end_idempotent(u);
}

// ---------------------------------------------------------------------------
// Prefixes, suffixes and substring search
// ---------------------------------------------------------------------------

pub open spec fn starts_with(h: Seq<char>, p: Seq<char>) -> bool {
    p.len() <= h.len() && h.take(p.len() as int) == p
}

pub open spec fn ends_with(h: Seq<char>, p: Seq<char>) -> bool {
    p.len() <= h.len() && h.skip(h.len() - p.len()) == p
}

/// `p` occurs in `h` at position `i`.
pub open spec fn occurs_at(h: Seq<char>, p: Seq<char>, i: int) -> bool {
    0 <= i && i + p.len() <= h.len() && h.subrange(i, i + p.len()) == p
}

/// The first position at or after `from` where `p` occurs in `h`.
pub open spec fn find_from(h: Seq<char>, p: Seq<char>, from: int) -> Option<int>
    decreases h.len() - from,
{
    if from < 0 || from + p.len() > h.len() {
        None
    } else if occurs_at(h, p, from) {
        Some(from)
    } else if from >= h.len() {
        None
    } else {
        find_from(h, p, from + 1)
    }
}

/// `str::contains` with a string pattern.
pub open spec fn contains_seq(h: Seq<char>, p: Seq<char>) -> bool {
    find_from(h, p, 0) is Some
}

pub proof fn lemma_find_from(h: Seq<char>, p: Seq<char>, from: int)
    ensures
        find_from(h, p, from) matches Some(i) ==> from <= i && occurs_at(h, p, i) && i + p.len()
            <= h.len() && forall|j: int| from <= j < i ==> !occurs_at(h, p, j),
        find_from(h, p, from) is None ==> forall|j: int|
            from <= j && 0 <= from ==> !occurs_at(h, p, j),
    decreases h.len() - from,
{
    if from < 0 || from + p.len() > h.len() {
    } else if occurs_at(h, p, from) {
    } else if from >= h.len() {
    } else {
        lemma_find_from(h, p, from + 1);
    }
}

pub fn starts_with_at(h: &Vec<char>, p: &Vec<char>, i: usize) -> (b: bool)
    ensures
        b == occurs_at(h@, p@, i as int),
{
    if p.len() > h.len() || i > h.len() - p.len() {
        return false;
    }
    let mut k: usize = 0;
    while k < p.len()
        invariant
            k <= p.len(),
            i + p.len() <= h.len(),
            forall|j: int| 0 <= j < k ==> h@[i + j] == p@[j],
        decreases p.len() - k,
    {
        if h[i + k] != p[k] {
            assert(h@.subrange(i as int, i + p.len())[k as int] != p@[k as int]);
            return false;
        }
        k += 1;
    }
    assert(h@.subrange(i as int, i + p.len()) =~= p@);
    true
}

/// First occurrence of `p` in `h` at or after `from`.
pub fn find_chars(h: &Vec<char>, p: &Vec<char>, from: usize) -> (r: Option<usize>)
    ensures
        match r {
            Some(i) => find_from(h@, p@, from as int) == Some(i as int),
            None => find_from(h@, p@, from as int) is None,
        },
{
    let mut i: usize = from;
    if p.len() > h.len() || i > h.len() - p.len() {
        return None;
    }
    while i <= h.len() - p.len()
        invariant
            from <= i,
            p.len() <= h.len(),
            find_from(h@, p@, from as int) == find_from(h@, p@, i as int),
        decreases h.len() - i,
    {
        if starts_with_at(h, p, i) {
            return Some(i);
        }
        if i >= h.len() {
            return None;
        }
        i += 1;
    }
    None
}

pub fn contains_chars(h: &Vec<char>, p: &Vec<char>) -> (b: bool)
    ensures
        b == contains_seq(h@, p@),
{
    find_chars(h, p, 0).is_some()
}

pub fn contains_str(h: &Vec<char>, p: &str) -> (b: bool)
    ensures
        b == contains_seq(h@, p@),
{
    let pc = chars_of(p);
    contains_chars(h, &pc)
}

pub fn starts_with_str(h: &Vec<char>, p: &str) -> (b: bool)
    ensures
        b == starts_with(h@, p@),
{
    let pc = chars_of(p);
    let r = starts_with_at(h, &pc, 0);
    assert(h@.subrange(0, pc@.len() as int) =~= h@.take(pc@.len() as int));
    r
}

pub fn ends_with_str(h: &Vec<char>, p: &str) -> (b: bool)
    ensures
        b == ends_with(h@, p@),
{
    let pc = chars_of(p);
    if pc.len() > h.len() {
        return false;
    }
    let r = starts_with_at(h, &pc, h.len() - pc.len());
    assert(h@.subrange(h.len() - pc.len(), h.len() as int) =~= h@.skip(h.len() - pc.len()));
    r
}

// ---------------------------------------------------------------------------
// Splitting by a non-empty pattern (`str::split`)
// ---------------------------------------------------------------------------

/// The pieces of `h.split(p)` from the piece that starts at `pos` on: the
/// text up to the next occurrence of `p`, then the pieces after it.
pub open spec fn pieces_from(h: Seq<char>, p: Seq<char>, pos: int) -> Seq<Seq<char>>
    decreases h.len() - pos,
{
    if p.len() == 0 || pos < 0 || pos > h.len() {
        Seq::empty()
    } else {
        match find_from(h, p, pos) {
            Some(i) => if pos <= i && i + p.len() <= h.len() {
                seq![h.subrange(pos, i)] + pieces_from(h, p, i + p.len())
            } else {
                Seq::empty()
            },
            None => seq![h.subrange(pos, h.len() as int)],
        }
    }
}

/// `h.split(p)` for a non-empty pattern `p`, as a sequence of pieces.
pub open spec fn split_all(h: Seq<char>, p: Seq<char>) -> Seq<Seq<char>> {
    pieces_from(h, p, 0)
}

/// `h.split(p).next()`: the text before the first occurrence of `p`.
pub open spec fn first_piece(h: Seq<char>, p: Seq<char>) -> Seq<char> {
    split_all(h, p)[0]
}

/// `h.split(p).nth(1)`: the text between the first and second occurrences.
pub open spec fn second_piece(h: Seq<char>, p: Seq<char>) -> Option<Seq<char>> {
    if split_all(h, p).len() > 1 {
        Some(split_all(h, p)[1])
    } else {
        None
    }
}

pub proof fn lemma_pieces_nonempty(h: Seq<char>, p: Seq<char>, pos: int)
    requires
        p.len() > 0,
        0 <= pos <= h.len(),
    ensures
        pieces_from(h, p, pos).len() >= 1,
{
    lemma_find_from(h, p, pos);
}

pub proof fn lemma_split_nonempty(h: Seq<char>, p: Seq<char>)
    requires
        p.len() > 0,
    ensures
        split_all(h, p).len() >= 1,
{
    lemma_pieces_nonempty(h, p, 0);
}

/// Views of a vector of character vectors.
pub open spec fn views(v: Seq<Vec<char>>) -> Seq<Seq<char>> {
    v.map_values(|x: Vec<char>| x@)
}

/// All pieces of `h.split(p)`.
pub fn split_pieces(h: &Vec<char>, p: &Vec<char>) -> (r: Vec<Vec<char>>)
    requires
        p.len() > 0,
    ensures
        views(r@) == split_all(h@, p@),
        r.len() >= 1,
{
    let mut out: Vec<Vec<char>> = Vec::new();
    let mut pos: usize = 0;
    loop
        invariant
            pos <= h.len(),
            p.len() > 0,
            views(out@) + pieces_from(h@, p@, pos as int) == split_all(h@, p@),
        decreases h.len() - pos,
    {
        proof {
            lemma_find_from(h@, p@, pos as int);
        }
        match find_chars(h, p, pos) {
            Some(i) => {
                let piece = slice_chars(h, pos, i);
                let ghost old_out = out@;
                out.push(piece);
                proof {
                    assert(views(out@) =~= views(old_out).push(piece@));
                    assert(views(out@) + pieces_from(h@, p@, i + p@.len()) =~= views(old_out) + (
                    seq![h@.subrange(pos as int, i as int)] + pieces_from(h@, p@, i + p@.len())));
                }
                pos = i + p.len();
            },
            None => {
                let piece = slice_chars(h, pos, h.len());
                let ghost old_out = out@;
                out.push(piece);
                proof {
                    assert(views(out@) =~= views(old_out).push(piece@));
                    assert(views(out@) =~= views(old_out) + seq![h@.subrange(pos as int, h.len() as int)]);
                    lemma_split_nonempty(h@, p@);
                }
                return out;
            },
        }
    }
}

/// `h.split(p).next()`.
pub fn first_piece_chars(h: &Vec<char>, p: &Vec<char>) -> (r: Vec<char>)
    requires
        p.len() > 0,
    ensures
        r@ == first_piece(h@, p@),
{
    let mut pieces = split_pieces(h, p);
    assert(views(pieces@)[0] == pieces@[0]@);
    pieces.swap_remove(0)
}

/// `h.split(p).nth(1)`.
pub fn second_piece_chars(h: &Vec<char>, p: &Vec<char>) -> (r: Option<Vec<char>>)
    requires
        p.len() > 0,
    ensures
        match r {
            Some(v) => second_piece(h@, p@) == Some(v@),
            None => second_piece(h@, p@) is None,
        },
{
    let mut pieces = split_pieces(h, p);
    if pieces.len() > 1 {
        assert(views(pieces@)[1] == pieces@[1]@);
        Some(pieces.swap_remove(1))
    } else {
        None
    }
}

// ---------------------------------------------------------------------------
// Replacing (`str::replace` with a non-empty pattern)
// ---------------------------------------------------------------------------

pub open spec fn replace_from(h: Seq<char>, p: Seq<char>, r: Seq<char>, start: int) -> Seq<
    char,
>
    decreases h.len() - start,
{
    if p.len() == 0 || start < 0 || start > h.len() {
        Seq::empty()
    } else {
        match find_from(h, p, start) {
            Some(i) => if start <= i && i + p.len() <= h.len() {
                h.subrange(start, i) + r + replace_from(h, p, r, i + p.len())
            } else {
                Seq::empty()
            },
            None => h.subrange(start, h.len() as int),
        }
    }
}

/// `h.replace(p, r)`.
pub open spec fn replace_all(h: Seq<char>, p: Seq<char>, r: Seq<char>) -> Seq<char> {
    replace_from(h, p, r, 0)
}

pub fn replace_chars(h: &Vec<char>, p: &str, r: &str) -> (out: Vec<char>)
    requires
        p@.len() > 0,
    ensures
        out@ == replace_all(h@, p@, r@),
{
    let pc = chars_of(p);
    let mut out: Vec<char> = Vec::new();
    let mut pos: usize = 0;
    loop
        invariant
            pos <= h.len(),
            pc@ == p@,
            p@.len() > 0,
            out@ + replace_from(h@, p@, r@, pos as int) == replace_all(h@, p@, r@),
        decreases h.len() - pos,
    {
        proof {
            lemma_find_from(h@, p@, pos as int);
        }
        match find_chars(h, &pc, pos) {
            Some(i) => {
                let ghost old_out = out@;
                let piece = slice_chars(h, pos, i);
                push_chars(&mut out, &piece);
                push_str(&mut out, r);
                proof {
                    assert(old_out + replace_from(h@, p@, r@, pos as int) == old_out + (h@.subrange(
                        pos as int,
                        i as int,
                    ) + r@ + replace_from(h@, p@, r@, i + p@.len())));
                    assert(out@ + replace_from(h@, p@, r@, i + p@.len()) =~= old_out + (
                    h@.subrange(pos as int, i as int) + r@ + replace_from(h@, p@, r@, i + p@.len())));
                }
                pos = i + pc.len();
            },
            None => {
                let piece = slice_chars(h, pos, h.len());
                let ghost old_out = out@;
                push_chars(&mut out, &piece);
                return out;
            },
        }
    }
}

// ---------------------------------------------------------------------------
// Decimal numbers
// ---------------------------------------------------------------------------

pub open spec fn digit_char(d: nat) -> char {
    ((d + 48) as u32) as char
}

/// Decimal digits of a natural number (`ToString` of an unsigned integer).
pub open spec fn dec(n: nat) -> Seq<char>
    decreases n,
{
    if n < 10 {
        seq![digit_char(n)]
    } else {
        dec(n / 10).push(digit_char(n % 10))
    }
}

/// Decimal text of an integer (`ToString` of a signed integer).
pub open spec fn dec_int(n: int) -> Seq<char> {
    if n < 0 {
        seq!['-'] + dec((-n) as nat)
    } else {
        dec(n as nat)
    }
}

/// Appends the decimal text of `n`.
pub fn push_u64(out: &mut Vec<char>, n: u64)
    ensures
        final(out)@ == old(out)@ + dec(n as nat),
    decreases n,
{
    if n >= 10 {
        push_u64(out, n / 10);
    }
    let d = (n % 10) as u8;
    let c = (d + 48) as char;
    out.push(c);
    proof {
        if n >= 10 {
            assert(dec(n as nat) == dec((n / 10) as nat).push(digit_char((n % 10) as nat)));
        }
    }
}

/// Appends the decimal text of `n`.
pub fn push_i64(out: &mut Vec<char>, n: i64)
    ensures
        final(out)@ == old(out)@ + dec_int(n as int),
{
    if n < 0 {
        out.push('-');
        let m: u64 = (0i128 - n as i128) as u64;
        let ghost mid = out@;
        push_u64(out, m);
        proof {
            assert(out@ =~= old(out)@ + (seq!['-'] + dec(m as nat)));
        }
    } else {
        push_u64(out, n as u64);
    }
}

/// Appends the decimal text of `n`.
pub fn push_usize(out: &mut Vec<char>, n: usize)
    ensures
        final(out)@ == old(out)@ + dec(n as nat),
{
    push_u64(out, n as u64);
}

/// Value of a sequence of decimal digits.
pub open spec fn digits_value(s: Seq<char>) -> nat
    decreases s.len(),
{
    if s.len() == 0 {
        0
    } else {
        digits_value(s.drop_last()) * 10 + ((s.last() as u32) - 48) as nat
    }
}

pub open spec fn all_digits(s: Seq<char>) -> bool {
    forall|i: int| 0 <= i < s.len() ==> is_digit(#[trigger] s[i])
}

/// What `str::parse` gives for an unsigned integer type whose maximum is `max`:
/// an optional `+`, then one or more ASCII digits, with no overflow.
pub open spec fn strip_plus(s: Seq<char>) -> Seq<char> {
    if s.len() > 0 && s[0] == '+' {
        s.drop_first()
    } else {
        s
    }
}

pub open spec fn parse_unsigned(s: Seq<char>, max: nat) -> Option<nat> {
    let d = strip_plus(s);
    if d.len() > 0 && all_digits(d) && digits_value(d) <= max {
        Some(digits_value(d))
    } else {
        None
    }
}

proof fn lemma_digits_value_mono(s: Seq<char>, k: int)
    requires
        0 <= k <= s.len(),
        all_digits(s),
    ensures
        digits_value(s.take(k)) <= digits_value(s),
    decreases s.len() - k,
{
    if k < s.len() {
        lemma_digits_value_mono(s, k + 1);
        assert(s.take(k + 1).drop_last() =~= s.take(k));
        assert(is_digit(s[k]));
        assert(s.take(k + 1).last() == s[k]);
    } else {
        assert(s.take(k) =~= s);
    }
}

/// `str::parse::<usize>`.
pub fn parse_usize(s: &Vec<char>) -> (r: Option<usize>)
    ensures
        match r {
            Some(v) => parse_unsigned(s@, usize::MAX as nat) == Some(v as nat),
            None => parse_unsigned(s@, usize::MAX as nat) is None,
        },
{
    let start: usize = if s.len() > 0 && s[0] == '+' {
        1
    } else {
        0
    };
    let ghost d = strip_plus(s@);
    assert(d =~= s@.skip(start as int));
    if start >= s.len() {
        assert(d.len() == 0);
        return None;
    }
    let mut acc: usize = 0;
    let mut i: usize = start;
    while i < s.len()
        invariant
            start <= i <= s.len(),
            d =~= s@.skip(start as int),
            d == strip_plus(s@),
            acc as nat == digits_value(d.take(i - start)),
            all_digits(d.take(i - start)),
        decreases s.len() - i,
    {
        let c = s[i];
        assert(d.take(i - start + 1).drop_last() =~= d.take(i - start));
        assert(d.take(i - start + 1).last() == c);
        if !('0' <= c && c <= '9') {
            assert(!is_digit(d[i - start]));
            assert(!all_digits(d));
            assert(parse_unsigned(s@, usize::MAX as nat) is None);
            return None;
        }
        let v = (c as u32 - 48) as usize;
        if acc > (usize::MAX - v) / 10 {
            proof {
                assert(acc * 10 + v > usize::MAX) by (nonlinear_arith)
                    requires
                        acc > (usize::MAX - v) / 10,
                        v <= 9,
                ;
                assert(all_digits(d.take(i - start + 1)));
                assert(digits_value(d.take(i - start + 1)) == acc * 10 + v);
                if all_digits(d) {
                    lemma_digits_value_mono(d, i - start + 1);
                    assert(digits_value(d) > usize::MAX);
                }
            }
            return None;
        }
        assert(acc * 10 + v <= usize::MAX) by (nonlinear_arith)
            requires
                acc <= (usize::MAX - v) / 10,
                v <= 9,
        ;
        acc = acc * 10 + v;
        i += 1;
        assert(all_digits(d.take(i - start)));
    }
    assert(d.take(i - start) =~= d);
    Some(acc)
}

} // verus!
