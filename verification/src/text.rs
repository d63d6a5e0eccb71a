//! Text handling shared by the parsers and message builders: trimming,
//! line and separator splitting, decimal rendering and UTF-8 / UTF-16
//! conversions.
use vstd::prelude::*;
use vstd::utf8::*;

verus! {

/// Whether `c` has the Unicode `White_Space` property, the test of
/// `char::is_whitespace` and `str::trim`: the characters U+0009 to U+000D,
/// U+0020, U+0085, U+00A0, U+1680, U+2000 to U+200A, U+2028, U+2029,
/// U+202F, U+205F and U+3000.
pub open spec fn white_space(c: char) -> bool {
    let u = c as u32;
    ||| 0x9 <= u <= 0xD
    ||| u == 0x20 || u == 0x85 || u == 0xA0 || u == 0x1680
    ||| 0x2000 <= u <= 0x200A
    ||| u == 0x2028 || u == 0x2029 || u == 0x202F || u == 0x205F || u == 0x3000
}

/// Whether `c` is white space in the sense of `str::trim`.
pub fn is_white_space(c: char) -> (r: bool)
    ensures
        r == white_space(c),
{
    let u = c as u32;
    (0x9 <= u && u <= 0xD) || u == 0x20 || u == 0x85 || u == 0xA0 || u == 0x1680 || (0x2000 <= u
        && u <= 0x200A) || u == 0x2028 || u == 0x2029 || u == 0x202F || u == 0x205F || u == 0x3000
}

/// The text of the `Utf8Error` that `std::str::from_utf8` gives for bytes
/// that are not UTF-8 (it tells where the first invalid sequence starts
/// and how long it is).
pub uninterp spec fn utf8_error_text(bytes: Seq<u8>) -> Seq<char>;

/// Calls `std::str::from_utf8`. The contract claims what its documentation
/// states: the bytes are accepted exactly when they are valid UTF-8, and the
/// resulting string holds the decoded characters; the error's text, a
/// function of the bytes, is named `utf8_error_text`.
#[verifier::external_body]
pub(crate) fn utf8_to_str(bytes: &[u8]) -> (r: Result<&str, String>)
    ensures
        r is Ok <==> valid_utf8(bytes@),
        r matches Ok(s) ==> s@ == decode_utf8(bytes@),
        r matches Err(m) ==> m@ == utf8_error_text(bytes@),
{
    match std::str::from_utf8(bytes) {
        Ok(s) => Ok(s),
        Err(e) => Err(e.to_string()),
    }
}

/// Index of the first character at or after `i` that is not white space
/// (the length when there is none).
pub open spec fn first_kept(s: Seq<char>, i: int) -> int
    decreases s.len() - i,
{
    if i < 0 || i >= s.len() {
        s.len() as int
    } else if !white_space(s[i]) {
        i
    } else {
        first_kept(s, i + 1)
    }
}

/// End (exclusive) of the last character before `j` that is not white space
/// (zero when there is none).
pub open spec fn last_kept_end(s: Seq<char>, j: int) -> int
    decreases j,
{
    if j <= 0 || j > s.len() {
        0
    } else if !white_space(s[j - 1]) {
        j
    } else {
        last_kept_end(s, j - 1)
    }
}

/// `s` without its leading and trailing white space, as `str::trim` gives it.
pub open spec fn trim(s: Seq<char>) -> Seq<char> {
    let a = first_kept(s, 0);
    let b = last_kept_end(s, s.len() as int);
    if a < b {
        s.subrange(a, b)
    } else {
        Seq::empty()
    }
}

/// Start of the line that ends at `j`: the index just after the last
/// newline before `j`, or zero.
pub open spec fn line_start(s: Seq<char>, j: int) -> int
    decreases j,
{
    if j <= 0 || j > s.len() {
        0
    } else if s[j - 1] == '\n' {
        j
    } else {
        line_start(s, j - 1)
    }
}

/// The last line of a text whose final character is no line terminator:
/// everything after its last newline.
pub open spec fn last_line(t: Seq<char>) -> Seq<char> {
    t.subrange(line_start(t, t.len() as int), t.len() as int)
}

/// Index of the first `c` in `s` at or after `i` (the length when there is none).
pub open spec fn find_from(s: Seq<char>, c: char, i: int) -> int
    decreases s.len() - i,
{
    if i < 0 || i >= s.len() {
        s.len() as int
    } else if s[i] == c {
        i
    } else {
        find_from(s, c, i + 1)
    }
}

/// What `str::split_once` gives for a single-character separator: the text
/// before and after its first occurrence.
pub open spec fn split_once(s: Seq<char>, c: char) -> Option<(Seq<char>, Seq<char>)> {
    let k = find_from(s, c, 0);
    if k < s.len() {
        Some((s.subrange(0, k), s.subrange(k + 1, s.len() as int)))
    } else {
        None
    }
}

/// The decimal digit character for `d` (`d < 10`).
pub open spec fn digit(d: nat) -> char {
    ((('0' as u32) as nat) + d) as char
}

/// Decimal notation of `n`, without sign or leading zeros.
pub open spec fn decimal(n: nat) -> Seq<char>
    decreases n,
{
    if n < 10 {
        seq![digit(n)]
    } else {
        decimal(n / 10).push(digit(n % 10))
    }
}

/// The characters of `s`, one by one.
pub fn char_vec(s: &str) -> (v: Vec<char>)
    ensures
        v@ == s@,
{
    let n = s.unicode_len();
    let mut v: Vec<char> = Vec::new();
    let mut i: usize = 0;
    while i < n
        invariant
            n == s@.len(),
            i <= n,
            v@ == s@.subrange(0, i as int),
        decreases n - i,
    {
        v.push(s.get_char(i));
        i = i + 1;
    }
    v
}

/// The characters `from..to` of `s` as an owned string.
pub fn substring(s: &str, from: usize, to: usize) -> (r: String)
    requires
        from <= to <= s@.len(),
    ensures
        r@ == s@.subrange(from as int, to as int),
{
    String::from_str(s.substring_char(from, to))
}

/// Bounds `(a, b)` such that `s[a..b]` is `s` trimmed.
pub fn trim_bounds(s: &Vec<char>) -> (r: (usize, usize))
    ensures
        r.0 <= r.1 <= s@.len(),
        s@.subrange(r.0 as int, r.1 as int) == trim(s@),
{
    let n = s.len();
    let mut a: usize = 0;
    while a < n && is_white_space(s[a])
        invariant
            n == s@.len(),
            a <= n,
            first_kept(s@, a as int) == first_kept(s@, 0),
        decreases n - a,
    {
        a = a + 1;
    }
    assert(first_kept(s@, a as int) == a);
    let mut b: usize = n;
    while b > 0 && is_white_space(s[b - 1])
        invariant
            n == s@.len(),
            b <= n,
            last_kept_end(s@, b as int) == last_kept_end(s@, n as int),
        decreases b,
    {
        b = b - 1;
    }
    assert(last_kept_end(s@, b as int) == b);
    if a < b {
        (a, b)
    } else {
        assert(s@.subrange(a as int, a as int) =~= Seq::<char>::empty());
        (a, a)
    }
}

/// `s` without leading and trailing white space (`str::trim`).
pub fn trimmed(s: &str) -> (r: String)
    ensures
        r@ == trim(s@),
{
    let v = char_vec(s);
    let (a, b) = trim_bounds(&v);
    substring(s, a, b)
}

/// Start index of the last line of `s` (just after its last newline).
pub fn last_line_start(s: &Vec<char>) -> (k: usize)
    ensures
        k as int == line_start(s@, s@.len() as int),
        k <= s@.len(),
{
    let mut j: usize = s.len();
    while j > 0 && s[j - 1] != '\n'
        invariant
            j <= s@.len(),
            line_start(s@, j as int) == line_start(s@, s@.len() as int),
        decreases j,
    {
        j = j - 1;
    }
    j
}

/// Index of the first `c` in `s` (its length when `c` does not occur).
pub fn find_char(s: &Vec<char>, c: char) -> (k: usize)
    ensures
        k as int == find_from(s@, c, 0),
        k <= s@.len(),
{
    let mut i: usize = 0;
    while i < s.len() && s[i] != c
        invariant
            i <= s@.len(),
            find_from(s@, c, i as int) == find_from(s@, c, 0),
        decreases s@.len() - i,
    {
        i = i + 1;
    }
    i
}

/// The one-character string for digit `d`.
fn digit_str(d: u64) -> (r: &'static str)
    requires
        d < 10,
    ensures
        r@ == seq![digit(d as nat)],
{
    proof {
        reveal_strlit("0");
        reveal_strlit("1");
        reveal_strlit("2");
        reveal_strlit("3");
        reveal_strlit("4");
        reveal_strlit("5");
        reveal_strlit("6");
        reveal_strlit("7");
        reveal_strlit("8");
        reveal_strlit("9");
    }
    if d == 0 {
        "0"
    } else if d == 1 {
        "1"
    } else if d == 2 {
        "2"
    } else if d == 3 {
        "3"
    } else if d == 4 {
        "4"
    } else if d == 5 {
        "5"
    } else if d == 6 {
        "6"
    } else if d == 7 {
        "7"
    } else if d == 8 {
        "8"
    } else {
        "9"
    }
}

/// Decimal notation of `n`, as `format!("{}", n)` writes it.
pub fn decimal_string(n: u64) -> (r: String)
    ensures
        r@ == decimal(n as nat),
    decreases n,
{
    if n < 10 {
        String::from_str(digit_str(n))
    } else {
        let mut s = decimal_string(n / 10);
        s.append(digit_str(n % 10));
        s
    }
}

/// `a` followed by `b`.
pub fn concat2(a: &str, b: &str) -> (r: String)
    ensures
        r@ == a@ + b@,
{
    let mut s = String::from_str(a);
    s.append(b);
    s
}

/// `a`, `b` and `c` one after the other.
pub fn concat3(a: &str, b: &str, c: &str) -> (r: String)
    ensures
        r@ == a@ + b@ + c@,
{
    let mut s = String::from_str(a);
    s.append(b);
    s.append(c);
    s
}

} // verus!

verus! {

/// The UTF-16 code units of one character.
pub open spec fn utf16_units(c: char) -> Seq<u16> {
    let v = (c as u32) as int;
    if v < 0x10000 {
        seq![v as u16]
    } else {
        seq![(0xD800 + (v - 0x10000) / 0x400) as u16, (0xDC00 + (v - 0x10000) % 0x400) as u16]
    }
}

/// UTF-16 encoding of a character sequence (`str::encode_utf16`).
pub open spec fn utf16_encode(s: Seq<char>) -> Seq<u16>
    decreases s.len(),
{
    if s.len() == 0 {
        Seq::empty()
    } else {
        utf16_units(s[0]) + utf16_encode(s.drop_first())
    }
}

/// Decoding of UTF-16 code units in which every unpaired surrogate becomes
/// U+FFFD, the replacement character.
pub open spec fn utf16_decode_lossy(u: Seq<u16>) -> Seq<char>
    decreases u.len(),
{
    if u.len() == 0 {
        Seq::empty()
    } else if 0xD800 <= u[0] < 0xDC00 && u.len() >= 2 && 0xDC00 <= u[1] < 0xE000 {
        seq![(0x10000 + (u[0] - 0xD800) * 0x400 + (u[1] - 0xDC00)) as char]
            + utf16_decode_lossy(u.subrange(2, u.len() as int))
    } else if 0xD800 <= u[0] < 0xE000 {
        seq!['\u{FFFD}'] + utf16_decode_lossy(u.drop_first())
    } else {
        seq![u[0] as char] + utf16_decode_lossy(u.drop_first())
    }
}

/// Calls `String::from_utf16_lossy`, which its documentation describes as
/// decoding UTF-16 and replacing invalid data (unpaired surrogates) with
/// U+FFFD; the contract states that decoding.
#[verifier::external_body]
pub(crate) fn string_from_utf16_lossy(units: &[u16]) -> (r: String)
    ensures
        r@ == utf16_decode_lossy(units@),
{
    String::from_utf16_lossy(units)
}

} // verus!

verus! {

/// Encoding a sequence with one more character appends that character's units.
pub proof fn lemma_utf16_encode_push(s: Seq<char>, c: char)
    ensures
        utf16_encode(s.push(c)) == utf16_encode(s) + utf16_units(c),
    decreases s.len(),
{
    if s.len() == 0 {
        assert(s.push(c).drop_first() =~= Seq::<char>::empty());
        assert(s.push(c)[0] == c);
        assert(utf16_encode(Seq::<char>::empty()) =~= Seq::<u16>::empty());
        assert(utf16_encode(s.push(c)) =~= utf16_units(c) + Seq::<u16>::empty());
        assert(utf16_encode(s) =~= Seq::<u16>::empty());
        assert(utf16_encode(s) + utf16_units(c) =~= utf16_units(c));
    } else {
        lemma_utf16_encode_push(s.drop_first(), c);
        assert(s.push(c).drop_first() =~= s.drop_first().push(c));
        assert(s.push(c)[0] == s[0]);
        assert(utf16_encode(s.push(c)) =~= utf16_units(s[0]) + (utf16_encode(s.drop_first())
            + utf16_units(c)));
    }
}

/// A character other than nul has no zero unit.
pub proof fn lemma_utf16_units_nonzero(c: char)
    requires
        c != '\0',
    ensures
        utf16_units(c).len() >= 1,
        forall|k: int| 0 <= k < utf16_units(c).len() ==> utf16_units(c)[k] != 0,
{
    assert((c as u32) >= 1);
}

/// A sequence without nul characters encodes without zero units.
pub proof fn lemma_utf16_encode_no_zero(s: Seq<char>)
    requires
        forall|i: int| 0 <= i < s.len() ==> s[i] != '\0',
    ensures
        forall|k: int| 0 <= k < utf16_encode(s).len() ==> utf16_encode(s)[k] != 0,
    decreases s.len(),
{
    if s.len() > 0 {
        lemma_utf16_units_nonzero(s[0]);
        lemma_utf16_encode_no_zero(s.drop_first());
        let u = utf16_units(s[0]);
        let x = utf16_encode(s.drop_first());
        assert forall|k: int| 0 <= k < (u + x).len() implies (u + x)[k] != 0 by {
            if k < u.len() {
            } else {
                assert((u + x)[k] == x[k - u.len()]);
            }
        }
    }
}

/// Decoding undoes encoding: UTF-16 encoding loses nothing.
pub proof fn lemma_utf16_roundtrip(s: Seq<char>)
    ensures
        utf16_decode_lossy(utf16_encode(s)) == s,
    decreases s.len(),
{
    if s.len() == 0 {
        assert(utf16_encode(s) =~= Seq::<u16>::empty());
        assert(utf16_decode_lossy(utf16_encode(s)) =~= s);
    } else {
        let c = s[0];
        let rest = s.drop_first();
        lemma_utf16_roundtrip(rest);
        let u = utf16_units(c);
        let x = utf16_encode(rest);
        let e = u + x;
        assert(utf16_encode(s) == e);
        let v = (c as u32) as int;
        char_is_scalar(c);
        assert(0 <= v <= 0x10FFFF);
        assert(v < 0xD800 || v > 0xDFFF);
        if v < 0x10000 {
            assert(e[0] == v as u16);
            assert((v as u16) as int == v);
            assert(e.drop_first() =~= x);
            char_u32_cast(c, c as u32);
            assert(((v as u16) as char) == c);
            assert(utf16_decode_lossy(e) =~= seq![c] + utf16_decode_lossy(x));
        } else {
            let w = v - 0x10000;
            assert(0 <= w < 0x100000);
            let hi = 0xD800 + w / 0x400;
            let lo = 0xDC00 + w % 0x400;
            assert(0 <= w / 0x400 < 0x400) by (nonlinear_arith)
                requires
                    0 <= w < 0x100000,
            ;
            assert(0 <= w % 0x400 < 0x400) by (nonlinear_arith)
                requires
                    0 <= w,
            ;
            assert((w / 0x400) * 0x400 + w % 0x400 == w) by (nonlinear_arith);
            assert(e[0] == hi as u16);
            assert(e[1] == lo as u16);
            assert((hi as u16) as int == hi);
            assert((lo as u16) as int == lo);
            assert(e.subrange(2, e.len() as int) =~= x);
            assert(0x10000 + (hi - 0xD800) * 0x400 + (lo - 0xDC00) == v);
            char_u32_cast(c, c as u32);
            assert((v as char) == c);
            assert(utf16_decode_lossy(e) =~= seq![c] + utf16_decode_lossy(x));
        }
        assert(seq![c] + rest =~= s);
    }
}

} // verus!

verus! {

/// `find_from` finds the first `c` at or after `i`.
pub proof fn lemma_find_from(s: Seq<char>, c: char, i: int)
    requires
        0 <= i <= s.len(),
    ensures
        i <= find_from(s, c, i) <= s.len(),
        find_from(s, c, i) < s.len() ==> s[find_from(s, c, i)] == c,
        forall|k: int| i <= k < find_from(s, c, i) ==> s[k] != c,
    decreases s.len() - i,
{
    if i < s.len() && s[i] != c {
        lemma_find_from(s, c, i + 1);
    }
}

/// `line_start` finds the start of the line that ends at `j`: no newline
/// lies between them.
pub proof fn lemma_line_start(s: Seq<char>, j: int)
    requires
        0 <= j <= s.len(),
    ensures
        0 <= line_start(s, j) <= j,
        forall|k: int| line_start(s, j) <= k < j ==> s[k] != '\n',
        line_start(s, j) > 0 ==> s[line_start(s, j) - 1] == '\n',
    decreases j,
{
    if j > 0 && s[j - 1] != '\n' {
        lemma_line_start(s, j - 1);
    }
}

} // verus!

verus! {

/// `first_kept` finds the first character at or after `i` that is not white space.
pub proof fn lemma_first_kept(s: Seq<char>, i: int)
    requires
        0 <= i <= s.len(),
    ensures
        i <= first_kept(s, i) <= s.len(),
        first_kept(s, i) < s.len() ==> !white_space(s[first_kept(s, i)]),
        forall|k: int| i <= k < first_kept(s, i) ==> white_space(s[k]),
    decreases s.len() - i,
{
    if i < s.len() && white_space(s[i]) {
        lemma_first_kept(s, i + 1);
    }
}

/// `last_kept_end` finds the end of the last character before `j` that is
/// not white space.
pub proof fn lemma_last_kept_end(s: Seq<char>, j: int)
    requires
        0 <= j <= s.len(),
    ensures
        0 <= last_kept_end(s, j) <= j,
        last_kept_end(s, j) > 0 ==> !white_space(s[last_kept_end(s, j) - 1]),
        forall|k: int| last_kept_end(s, j) <= k < j ==> white_space(s[k]),
    decreases j,
{
    if j > 0 && white_space(s[j - 1]) {
        lemma_last_kept_end(s, j - 1);
    }
}

/// Trimmed text neither starts nor ends with white space, and it is `s`
/// with only white space removed on either side.
pub proof fn lemma_trim(s: Seq<char>)
    ensures
        trim(s).len() > 0 ==> !white_space(trim(s)[0]) && !white_space(trim(s).last()),
        exists|a: int, b: int|
            0 <= a <= b <= s.len() && trim(s) == s.subrange(a, b) && (forall|k: int|
                0 <= k < a ==> white_space(#[trigger] s[k])) && (forall|k: int|
                b <= k < s.len() ==> white_space(#[trigger] s[k])),
{
    lemma_first_kept(s, 0);
    lemma_last_kept_end(s, s.len() as int);
    let a = first_kept(s, 0);
    let b = last_kept_end(s, s.len() as int);
    if a < b {
        assert(trim(s) == s.subrange(a, b));
    } else {
        assert forall|k: int| 0 <= k < s.len() implies white_space(s[k]) by {
            if k >= a && k < b {
            }
        }
        assert(trim(s) =~= s.subrange(s.len() as int, s.len() as int));
    }
}

/// The number that the decimal digits `s` spell.
pub open spec fn digits_value(s: Seq<char>) -> int
    decreases s.len(),
{
    if s.len() == 0 {
        0
    } else {
        digits_value(s.drop_last()) * 10 + ((s.last() as u32) - ('0' as u32))
    }
}

/// The decimal notation of `n` is made of digits only, starts with no
/// zero (unless `n` is zero), and reads back as `n`.
pub proof fn lemma_decimal_reads_back(n: nat)
    ensures
        decimal(n).len() >= 1,
        forall|i: int| 0 <= i < decimal(n).len() ==> '0' <= #[trigger] decimal(n)[i] <= '9',
        decimal(n)[0] == '0' ==> n == 0,
        digits_value(decimal(n)) == n,
    decreases n,
{
    if n >= 10 {
        lemma_decimal_reads_back(n / 10);
        let p = decimal(n / 10);
        let d = digit(n % 10);
        assert(decimal(n) == p.push(d));
        assert(decimal(n).drop_last() =~= p);
        assert(decimal(n).last() == d);
        assert(('0' as u32) == 48);
        assert((d as u32) == 48 + n % 10);
        assert(digits_value(decimal(n)) == digits_value(p) * 10 + ((d as u32) - ('0' as u32)));
        assert(n == (n / 10) * 10 + n % 10);
        assert(decimal(n)[0] == p[0]);
    } else {
        assert(('0' as u32) == 48);
        assert((digit(n) as u32) == 48 + n);
        assert(decimal(n).drop_last() =~= Seq::<char>::empty());
        assert(decimal(n).last() == digit(n));
        assert(digits_value(Seq::<char>::empty()) == 0);
        assert(digits_value(decimal(n)) == digits_value(decimal(n).drop_last()) * 10 + ((digit(n) as u32) - ('0' as u32)));
    }
}

} // verus!
