//! Plain-text helpers: whitespace, trimming, line splitting, note titles and
//! previews, and case-insensitive literal matching.
use vstd::prelude::*;

verus! {

broadcast use vstd::string::group_string_axioms;

// ---------------------------------------------------------------------------
// Whitespace
// ---------------------------------------------------------------------------

/// The Unicode `White_Space` property (PropList.txt): U+0009..U+000D, U+0020,
/// U+0085, U+00A0, U+1680, U+2000..U+200A, U+2028, U+2029, U+202F, U+205F and
/// U+3000.
pub open spec fn is_white_space(c: char) -> bool {
    let u = c as u32;
    ||| 0x09 <= u <= 0x0D
    ||| u == 0x20
    ||| u == 0x85
    ||| u == 0xA0
    ||| u == 0x1680
    ||| 0x2000 <= u <= 0x200A
    ||| u == 0x2028
    ||| u == 0x2029
    ||| u == 0x202F
    ||| u == 0x205F
    ||| u == 0x3000
}

/// Whether `c` has the Unicode `White_Space` property, as
/// `char::is_whitespace` decides.
fn char_is_whitespace(c: char) -> (r: bool)
    ensures
        r == is_white_space(c),
{
    let u = c as u32;
    (0x09 <= u && u <= 0x0D) || u == 0x20 || u == 0x85 || u == 0xA0 || u == 0x1680 || (0x2000
        <= u && u <= 0x200A) || u == 0x2028 || u == 0x2029 || u == 0x202F || u == 0x205F || u
        == 0x3000
}

/// `x` without its leading whitespace.
pub open spec fn trim_start(x: Seq<char>) -> Seq<char>
    decreases x.len(),
{
    if x.len() > 0 && is_white_space(x[0]) {
        trim_start(x.skip(1))
    } else {
        x
    }
}

/// `x` without its trailing whitespace.
pub open spec fn trim_end(x: Seq<char>) -> Seq<char>
    decreases x.len(),
{
    if x.len() > 0 && is_white_space(x.last()) {
        trim_end(x.drop_last())
    } else {
        x
    }
}

/// `x` without leading and trailing whitespace, as `str::trim` returns it.
pub open spec fn trimmed(x: Seq<char>) -> Seq<char> {
    trim_end(trim_start(x))
}

// ---------------------------------------------------------------------------
// Lines
// ---------------------------------------------------------------------------

/// The index of the first `'\n'` in `x`, or `x.len()` when there is none.
pub open spec fn first_newline(x: Seq<char>) -> nat
    decreases x.len(),
{
    if x.len() == 0 {
        0
    } else if x[0] == '\n' {
        0
    } else {
        1 + first_newline(x.skip(1))
    }
}

/// `x` without one trailing `'\r'`.
pub open spec fn strip_cr(x: Seq<char>) -> Seq<char> {
    if x.len() > 0 && x.last() == '\r' {
        x.drop_last()
    } else {
        x
    }
}

/// The lines of `s` as `str::lines` yields them: split at `"\n"` or `"\r\n"`,
/// without the terminators; a final line ending is optional.
pub open spec fn lines(s: Seq<char>) -> Seq<Seq<char>>
    decreases s.len(),
{
    if s.len() == 0 {
        seq![]
    } else {
        let k = first_newline(s);
        if k >= s.len() {
            seq![s]
        } else {
            seq![strip_cr(s.take(k as int))] + lines(s.skip(k + 1int))
        }
    }
}

/// The trimmed lines of `ls` that are not empty after trimming, in order.
pub open spec fn nonblank(ls: Seq<Seq<char>>) -> Seq<Seq<char>>
    decreases ls.len(),
{
    if ls.len() == 0 {
        seq![]
    } else if trimmed(ls[0]).len() > 0 {
        seq![trimmed(ls[0])] + nonblank(ls.skip(1))
    } else {
        nonblank(ls.skip(1))
    }
}

/// The title of a note: its first non-blank line, trimmed, or "Untitled".
pub open spec fn title_of(body: Seq<char>) -> Seq<char> {
    let nb = nonblank(lines(body));
    if nb.len() > 0 {
        nb[0]
    } else {
        "Untitled"@
    }
}

/// The preview of a note: its second non-blank line, trimmed, or nothing.
pub open spec fn preview_of(body: Seq<char>) -> Seq<char> {
    let nb = nonblank(lines(body));
    if nb.len() > 1 {
        nb[1]
    } else {
        Seq::empty()
    }
}

proof fn lemma_first_newline_is(x: Seq<char>, k: int)
    requires
        0 <= k <= x.len(),
        forall|i: int| 0 <= i < k ==> x[i] != '\n',
        k == x.len() || x[k] == '\n',
    ensures
        first_newline(x) == k,
    decreases x.len(),
{
    if x.len() > 0 && x[0] != '\n' {
        assert forall|i: int| 0 <= i < k - 1 implies x.skip(1)[i] != '\n' by {
            assert(x.skip(1)[i] == x[i + 1]);
        }
        lemma_first_newline_is(x.skip(1), k - 1);
    }
}

// ---------------------------------------------------------------------------
// Executable scanning
// ---------------------------------------------------------------------------

/// The characters of `s`, in order.
pub fn chars_of(s: &str) -> (v: Vec<char>)
    ensures
        v@ == s@,
{
    let mut v: Vec<char> = Vec::new();
    for c in it: s.chars()
        invariant
            v@ == it.seq().take(it.index() as int),
    {
        v.push(c);
    }
    v
}

/// The bounds of `v[lo..hi]` with its leading and trailing whitespace removed.
pub fn trim_range(v: &Vec<char>, lo: usize, hi: usize) -> (r: (usize, usize))
    requires
        lo <= hi <= v.len(),
    ensures
        lo <= r.0 <= r.1 <= hi,
        v@.subrange(r.0 as int, r.1 as int) == trimmed(v@.subrange(lo as int, hi as int)),
{
    let mut a = lo;
    while a < hi && char_is_whitespace(v[a])
        invariant
            lo <= a <= hi <= v.len(),
            trim_start(v@.subrange(lo as int, hi as int)) == trim_start(
                v@.subrange(a as int, hi as int),
            ),
        decreases hi - a,
    {
        assert(v@.subrange(a as int, hi as int).skip(1) =~= v@.subrange(a + 1, hi as int));
        a = a + 1;
    }
    assert(trim_start(v@.subrange(a as int, hi as int)) == v@.subrange(a as int, hi as int));
    let mut b = hi;
    while b > a && char_is_whitespace(v[b - 1])
        invariant
            lo <= a <= b <= hi <= v.len(),
            trim_end(v@.subrange(a as int, hi as int)) == trim_end(
                v@.subrange(a as int, b as int),
            ),
        decreases b - a,
    {
        assert(v@.subrange(a as int, b as int).drop_last() =~= v@.subrange(a as int, b - 1));
        b = b - 1;
    }
    (a, b)
}

/// The first index at or after `pos` that holds `'\n'`, or `v.len()`.
fn find_newline(v: &Vec<char>, pos: usize) -> (e: usize)
    requires
        pos <= v.len(),
    ensures
        pos <= e <= v.len(),
        e - pos == first_newline(v@.skip(pos as int)),
{
    let mut e = pos;
    while e < v.len() && v[e] != '\n'
        invariant
            pos <= e <= v.len(),
            forall|i: int| pos <= i < e ==> v@[i] != '\n',
        decreases v.len() - e,
    {
        e = e + 1;
    }
    proof {
        let x = v@.skip(pos as int);
        assert forall|i: int| 0 <= i < e - pos implies x[i] != '\n' by {
            assert(x[i] == v@[pos + i]);
        }
        if e < v.len() {
            assert(x[e - pos] == v@[e as int]);
        }
        lemma_first_newline_is(x, e - pos);
    }
    e
}

/// The bounds in `v` of the `n`-th non-blank line (counting from 0), trimmed,
/// or `None` when `v` has no more than `n` non-blank lines.
pub fn nth_nonblank_line(v: &Vec<char>, n: usize) -> (r: Option<(usize, usize)>)
    ensures
        match r {
            Some((a, b)) => {
                &&& a <= b <= v.len()
                &&& nonblank(lines(v@)).len() > n
                &&& v@.subrange(a as int, b as int) == nonblank(lines(v@))[n as int]
            },
            None => nonblank(lines(v@)).len() <= n,
        },
{
    let ghost found: Seq<Seq<char>> = seq![];
    let mut count: usize = 0;
    let mut pos: usize = 0;
    assert(v@.skip(0) =~= v@);
    while pos < v.len()
        invariant
            pos <= v.len(),
            count <= n,
            found.len() == count,
            nonblank(lines(v@)) == found + nonblank(lines(v@.skip(pos as int))),
        decreases v.len() - pos,
    {
        let e = find_newline(v, pos);
        let ghost sfx = v@.skip(pos as int);
        let hi = if e < v.len() && e > pos && v[e - 1] == '\r' {
            e - 1
        } else {
            e
        };
        let (a, b) = trim_range(v, pos, hi);
        let ghost line = v@.subrange(pos as int, hi as int);
        let ghost rest = if e < v.len() {
            v@.skip(e + 1)
        } else {
            v@.skip(v.len() as int)
        };
        proof {
            let k = first_newline(sfx);
            if e < v.len() {
                assert(sfx.take(k as int) =~= v@.subrange(pos as int, e as int));
                assert(strip_cr(sfx.take(k as int)) =~= line);
                assert(sfx.skip(k + 1int) =~= v@.skip(e + 1));
                assert(lines(sfx) == seq![line] + lines(v@.skip(e + 1)));
            } else {
                assert(sfx =~= line);
                assert(lines(sfx) == seq![line]);
                assert(v@.skip(v.len() as int) =~= Seq::<char>::empty());
                assert(lines(v@.skip(v.len() as int)) =~= Seq::<Seq<char>>::empty());
                assert(seq![line] =~= seq![line] + lines(v@.skip(v.len() as int)));
            }
            let ls = lines(sfx);
            assert(ls[0] == line);
            assert(ls.skip(1) =~= lines(rest));
        }
        if a < b {
            if count == n {
                proof {
                    assert(nonblank(lines(sfx)) == seq![trimmed(line)] + nonblank(lines(rest)));
                    assert((found + nonblank(lines(sfx)))[n as int] == trimmed(line));
                }
                return Some((a, b));
            }
            proof {
                assert(nonblank(lines(sfx)) == seq![trimmed(line)] + nonblank(lines(rest)));
                assert(found + nonblank(lines(sfx)) =~= found.push(trimmed(line)) + nonblank(
                    lines(rest),
                ));
                found = found.push(trimmed(line));
            }
            count = count + 1;
        } else {
            proof {
                assert(trimmed(line).len() == 0);
                assert(nonblank(lines(sfx)) == nonblank(lines(rest)));
            }
        }
        pos = if e < v.len() {
            e + 1
        } else {
            e
        };
    }
    proof {
        assert(v@.skip(pos as int) =~= Seq::<char>::empty());
        assert(nonblank(lines(v@.skip(pos as int))) =~= Seq::<Seq<char>>::empty());
        assert(nonblank(lines(v@)) =~= found);
    }
    None
}

/// The title that a note shows in the list: its first line that is not
/// blank, trimmed, or "Untitled".
pub fn note_title(body: &str) -> (title: &str)
    ensures
        title@ == title_of(body@),
{
    let v = chars_of(body);
    match nth_nonblank_line(&v, 0) {
        Some((a, b)) => body.substring_char(a, b),
        None => "Untitled",
    }
}

/// The preview that a note shows under its title: its second line that is
/// not blank, trimmed, or the empty string.
pub fn note_preview(body: &str) -> (preview: &str)
    ensures
        preview@ == preview_of(body@),
{
    let v = chars_of(body);
    match nth_nonblank_line(&v, 1) {
        Some((a, b)) => body.substring_char(a, b),
        None => {
            proof {
                reveal_strlit("");
            }
            ""
        },
    }
}

/// `s` without leading and trailing whitespace, as `str::trim` returns it.
pub fn trim_str(s: &str) -> (t: &str)
    ensures
        t@ == trimmed(s@),
{
    let v = chars_of(s);
    let (a, b) = trim_range(&v, 0, v.len());
    assert(v@.subrange(0, v@.len() as int) =~= s@);
    s.substring_char(a, b)
}

// ---------------------------------------------------------------------------
// Literal matching
// ---------------------------------------------------------------------------

/// What `str::to_lowercase` returns for a string with the characters `s`
/// (the Unicode lowercase mapping, which for a final capital sigma depends
/// on the characters around it).
pub uninterp spec fn lowercase(s: Seq<char>) -> Seq<char>;

/// `str::to_lowercase`: the string in lowercase. The contract only names
/// the result; the mapping itself is std's.
#[verifier::external_body]
fn to_lowercase(s: &str) -> (r: String)
    ensures
        r@ == lowercase(s@),
{
    s.to_lowercase()
}

/// `s` in lowercase, as `str::to_lowercase` returns it.
pub fn lowercase_text(s: &str) -> (r: String)
    ensures
        r@ == lowercase(s@),
{
    to_lowercase(s)
}

/// Whether `needle` occurs in `hay` as a contiguous run of characters.
pub open spec fn contains_seq(hay: Seq<char>, needle: Seq<char>) -> bool {
    exists|i: int|
        #![trigger hay.subrange(i, i + needle.len())]
        0 <= i && i + needle.len() <= hay.len() && hay.subrange(i, i + needle.len()) == needle
}

/// Whether `needle` occurs in `hay` at position `i`.
fn occurs_at(hay: &Vec<char>, needle: &Vec<char>, i: usize) -> (r: bool)
    requires
        i + needle.len() <= hay.len(),
    ensures
        r == (hay@.subrange(i as int, i + needle.len()) == needle@),
{
    let mut j: usize = 0;
    while j < needle.len()
        invariant
            i + needle.len() <= hay.len(),
            j <= needle.len(),
            forall|k: int| 0 <= k < j ==> hay@[i + k] == needle@[k],
        decreases needle.len() - j,
    {
        if hay[i + j] != needle[j] {
            assert(hay@.subrange(i as int, i + needle.len())[j as int] != needle@[j as int]);
            return false;
        }
        j = j + 1;
    }
    assert(hay@.subrange(i as int, i + needle.len()) =~= needle@);
    true
}

/// Whether the characters `needle` occur in `hay` as a contiguous run.
pub fn contains_chars(hay: &Vec<char>, needle: &Vec<char>) -> (r: bool)
    ensures
        r == contains_seq(hay@, needle@),
{
    if needle.len() > hay.len() {
        return false;
    }
    let last = hay.len() - needle.len();
    let mut i: usize = 0;
    while i <= last
        invariant
            last + needle.len() == hay.len(),
            i <= last + 1,
            forall|k: int|
                0 <= k < i ==> #[trigger] hay@.subrange(k, k + needle.len()) != needle@,
        decreases last + 1 - i,
    {
        if occurs_at(hay, needle, i) {
            return true;
        }
        if i == last {
            return false;
        }
        i = i + 1;
    }
    false
}

/// Whether `needle` occurs in `hay`, as `str::contains` with a string
/// pattern decides it.
pub fn contains_text(hay: &str, needle: &str) -> (r: bool)
    ensures
        r == contains_seq(hay@, needle@),
{
    let h = chars_of(hay);
    let n = chars_of(needle);
    contains_chars(&h, &n)
}

/// Whether `a` and `b` hold the same characters.
pub fn same_text(a: &str, b: &str) -> (r: bool)
    ensures
        r == (a@ == b@),
{
    let x = chars_of(a);
    let y = chars_of(b);
    if x.len() != y.len() {
        return false;
    }
    let mut i: usize = 0;
    while i < x.len()
        invariant
            x@ == a@,
            y@ == b@,
            x.len() == y.len(),
            i <= x.len(),
            forall|k: int| 0 <= k < i ==> x@[k] == y@[k],
        decreases x.len() - i,
    {
        if x[i] != y[i] {
            assert(x@[i as int] != y@[i as int]);
            return false;
        }
        i = i + 1;
    }
    assert(x@ =~= y@);
    true
}

} // verus!
