//! Verified text utilities: decimal rendering of integers, lower-case hex
//! rendering of byte strings, and small helpers over character sequences.

use vstd::prelude::*;
use vstd::string::StringExecFns;

verus! {

/// The decimal digit character for a value in `0..10`.
pub open spec fn dec_digit(d: int) -> char {
    if d == 0 {
        '0'
    } else if d == 1 {
        '1'
    } else if d == 2 {
        '2'
    } else if d == 3 {
        '3'
    } else if d == 4 {
        '4'
    } else if d == 5 {
        '5'
    } else if d == 6 {
        '6'
    } else if d == 7 {
        '7'
    } else if d == 8 {
        '8'
    } else {
        '9'
    }
}

/// The decimal numeral of `n`, most significant digit first, no sign and no
/// leading zeros (`0` itself is rendered as "0").
pub open spec fn dec_of(n: nat) -> Seq<char>
    decreases n,
{
    if n < 10 {
        seq![dec_digit(n as int)]
    } else {
        dec_of(n / 10) + seq![dec_digit((n % 10) as int)]
    }
}

/// A one-character string slice holding the decimal digit `d`.
fn digit_str(d: u64) -> (r: &'static str)
    requires
        d < 10,
    ensures
        r@ =~= seq![dec_digit(d as int)],
{
    proof {
        reveal_strlit("0");
        reveal_strlit("1");
        reveal_strlit("2");
        reveal_strlit("3");
        reveal_strlit("4");
        reveal_strlit("5");
        reveal_strlit("6");
        reveal_strlit("7");
        reveal_strlit("8");
        reveal_strlit("9");
    }
    match d {
        0 => "0",
        1 => "1",
        2 => "2",
        3 => "3",
        4 => "4",
        5 => "5",
        6 => "6",
        7 => "7",
        8 => "8",
        _ => "9",
    }
}

/// Renders `n` as its decimal numeral.
pub fn u64_to_dec(n: u64) -> (s: String)
    ensures
        s@ == dec_of(n as nat),
    decreases n,
{
    if n < 10 {
        digit_str(n).to_owned()
    } else {
        let mut s = u64_to_dec(n / 10);
        s.append(digit_str(n % 10));
        s
    }
}

/// The decimal rendering of a signed value: a minus sign followed by the
/// numeral of the magnitude, or the plain numeral when non-negative.
pub open spec fn dec_of_int(n: int) -> Seq<char> {
    if n < 0 {
        seq!['-'] + dec_of((-n) as nat)
    } else {
        dec_of(n as nat)
    }
}

/// Renders `n` as its decimal numeral, with a leading minus sign when
/// negative.
pub fn i64_to_dec(n: i64) -> (s: String)
    ensures
        s@ == dec_of_int(n as int),
{
    if n >= 0 {
        let s = u64_to_dec(n as u64);
        s
    } else {
        let mag: u64 = if n == i64::MIN {
            9223372036854775808u64
        } else {
            (-n) as u64
        };
        proof {
            reveal_strlit("-");
        }
        let mut s = String::from_str("-");
        let digits = u64_to_dec(mag);
        s.append(digits.as_str());
        assert(s@ =~= dec_of_int(n as int));
        s
    }
}

/// The lower-case hex digit character for a value in `0..16`.
pub open spec fn hex_digit(d: int) -> char {
    if d < 10 {
        dec_digit(d)
    } else if d == 10 {
        'a'
    } else if d == 11 {
        'b'
    } else if d == 12 {
        'c'
    } else if d == 13 {
        'd'
    } else if d == 14 {
        'e'
    } else {
        'f'
    }
}

/// The lower-case hex rendering of a byte string: exactly two digits per
/// byte, high nibble first.
pub open spec fn hex_of(bytes: Seq<u8>) -> Seq<char>
    decreases bytes.len(),
{
    if bytes.len() == 0 {
        Seq::<char>::empty()
    } else {
        seq![hex_digit(bytes[0] as int / 16), hex_digit(bytes[0] as int % 16)] + hex_of(
            bytes.drop_first(),
        )
    }
}

/// A one-character string slice holding the lower-case hex digit `d`.
pub(crate) fn hex_digit_str(d: u8) -> (r: &'static str)
    requires
        d < 16,
    ensures
        r@ =~= seq![hex_digit(d as int)],
{
    if d < 10 {
        digit_str(d as u64)
    } else {
        proof {
            reveal_strlit("a");
            reveal_strlit("b");
            reveal_strlit("c");
            reveal_strlit("d");
            reveal_strlit("e");
            reveal_strlit("f");
        }
        match d {
            10 => "a",
            11 => "b",
            12 => "c",
            13 => "d",
            14 => "e",
            _ => "f",
        }
    }
}

/// Renders a byte string in lower-case hex, two digits per byte.
pub fn hex_lower(bytes: &[u8]) -> (s: String)
    ensures
        s@ == hex_of(bytes@),
        s@.len() == 2 * bytes@.len(),
{
    let mut s = String::new();
    let n = bytes.len();
    assert(bytes@.skip(0) =~= bytes@);
    for i in 0..n
        invariant
            n == bytes@.len(),
            s@ + hex_of(bytes@.skip(i as int)) == hex_of(bytes@),
            s@.len() == 2 * i,
    {
        let b = bytes[i];
        s.append(hex_digit_str(b / 16));
        s.append(hex_digit_str(b % 16));
        assert(bytes@.skip(i as int).drop_first() =~= bytes@.skip(i + 1));
    }
    assert(bytes@.skip(n as int) =~= Seq::<u8>::empty());
    proof {
        lemma_hex_of_len(bytes@);
    }
    s
}

/// The hex rendering of a byte string is twice as long as the byte string.
proof fn lemma_hex_of_len(bytes: Seq<u8>)
    ensures
        hex_of(bytes).len() == 2 * bytes.len(),
    decreases bytes.len(),
{
    if bytes.len() > 0 {
        lemma_hex_of_len(bytes.drop_first());
    }
}

/// The characters of `s`, in order, as a vector.
pub fn chars_of(s: &str) -> (v: Vec<char>)
    ensures
        v@ == s@,
{
    let mut v: Vec<char> = Vec::new();
    for c in it: s.chars()
        invariant
            it.seq() == s@,
            v@ == it.seq().take(it.index() as int),
    {
        v.push(c);
    }
    proof {
        assert(v@ =~= s@);
    }
    v
}

/// True when the pattern `p` occurs in `h` starting at position `i`.
pub open spec fn match_at(h: Seq<char>, p: Seq<char>, i: int) -> bool {
    0 <= i && i + p.len() <= h.len() && h.subrange(i, i + p.len()) == p
}

/// The first position at or after `i` where `p` occurs in `h`, if any.
pub open spec fn find_from(h: Seq<char>, p: Seq<char>, i: int) -> Option<int>
    decreases h.len() - i,
{
    if i < 0 || i + p.len() > h.len() {
        None
    } else if p.len() == 0 {
        Some(i)
    } else if match_at(h, p, i) {
        Some(i)
    } else {
        find_from(h, p, i + 1)
    }
}

proof fn lemma_match_at_empty(h: Seq<char>, p: Seq<char>, i: int)
    requires
        p.len() == 0,
        0 <= i <= h.len(),
    ensures
        match_at(h, p, i),
{
    assert(h.subrange(i, i) =~= p);
}

/// True when `p` occurs somewhere in `h`.
pub open spec fn contains_seq(h: Seq<char>, p: Seq<char>) -> bool {
    exists|i: int| match_at(h, p, i)
}

proof fn lemma_find_from_some(h: Seq<char>, p: Seq<char>, from: int, i: int)
    requires
        0 <= from <= i,
        match_at(h, p, i),
        forall|k: int| from <= k < i ==> !match_at(h, p, k),
    ensures
        find_from(h, p, from) == Some(i),
    decreases i - from,
{
    if from < i {
        if p.len() == 0 {
            lemma_match_at_empty(h, p, from);
        } else {
            lemma_find_from_some(h, p, from + 1, i);
        }
    }
}

proof fn lemma_find_from_none(h: Seq<char>, p: Seq<char>, from: int)
    requires
        0 <= from,
        forall|k: int| from <= k ==> !match_at(h, p, k),
    ensures
        find_from(h, p, from) is None,
    decreases h.len() - from,
{
    if from + p.len() <= h.len() {
        if p.len() == 0 {
            lemma_match_at_empty(h, p, from);
        } else {
            lemma_find_from_none(h, p, from + 1);
        }
    }
}

/// Relates the searching function to the existence of a match.
pub proof fn lemma_find_from_exists(h: Seq<char>, p: Seq<char>, from: int)
    requires
        0 <= from,
    ensures
        find_from(h, p, from) is Some <==> exists|i: int| from <= i && match_at(h, p, i),
        find_from(h, p, from) is Some ==> match_at(h, p, find_from(h, p, from).unwrap())
            && from <= find_from(h, p, from).unwrap(),
    decreases h.len() - from,
{
    if from + p.len() > h.len() {
        assert(forall|i: int| from <= i ==> !match_at(h, p, i));
    } else if p.len() == 0 {
        lemma_match_at_empty(h, p, from);
    } else if !match_at(h, p, from) {
        lemma_find_from_exists(h, p, from + 1);
    }
}

/// Searching a suffix of `h` finds the same matches, shifted by the start of
/// the suffix.
pub proof fn lemma_find_from_shift(h: Seq<char>, p: Seq<char>, base: int, from: int)
    requires
        0 <= base <= from,
        base <= h.len(),
    ensures
        find_from(h, p, from) == (match find_from(h.skip(base), p, from - base) {
            Some(j) => Some(j + base),
            None => None::<int>,
        }),
    decreases h.len() - from,
{
    let hs = h.skip(base);
    if from + p.len() > h.len() {
        assert((from - base) + p.len() > hs.len());
    } else {
        assert(h.subrange(from, from + p.len()) =~= hs.subrange(
            from - base,
            from - base + p.len(),
        ));
        if p.len() == 0 {
        } else if match_at(h, p, from) {
            assert(match_at(hs, p, from - base));
        } else {
            assert(!match_at(hs, p, from - base));
            lemma_find_from_shift(h, p, base, from + 1);
        }
    }
}

/// True when the characters of `p` appear in `h` at position `i`.
fn match_at_exec(h: &Vec<char>, p: &Vec<char>, i: usize) -> (r: bool)
    requires
        i + p@.len() <= h@.len(),
    ensures
        r == match_at(h@, p@, i as int),
{
    let plen = p.len();
    let hlen = h.len();
    for j in 0..plen
        invariant
            i + plen <= hlen,
            plen == p@.len(),
            hlen == h@.len(),
            forall|k: int| 0 <= k < j ==> h@[i + k] == p@[k],
    {
        if h[i + j] != p[j] {
            assert(h@.subrange(i as int, i + p@.len())[j as int] != p@[j as int]);
            return false;
        }
    }
    proof {
        assert(h@.subrange(i as int, i + p@.len()) =~= p@);
    }
    true
}

/// The first position at or after `from` where `p` occurs in `h`, if any.
pub fn find_sub_from(h: &Vec<char>, p: &Vec<char>, from: usize) -> (r: Option<usize>)
    ensures
        (match r {
            Some(i) => find_from(h@, p@, from as int) == Some(i as int),
            None => find_from(h@, p@, from as int) is None,
        }),
{
    let hlen = h.len();
    let plen = p.len();
    if plen == 0 {
        if from <= hlen {
            proof {
                lemma_match_at_empty(h@, p@, from as int);
                lemma_find_from_some(h@, p@, from as int, from as int);
            }
            return Some(from);
        } else {
            proof {
                lemma_find_from_none(h@, p@, from as int);
            }
            return None;
        }
    }
    if plen > hlen || from > hlen - plen {
        proof {
            lemma_find_from_none(h@, p@, from as int);
        }
        return None;
    }
    let last = hlen - plen;
    let mut i = from;
    while i <= last
        invariant
            from <= i <= last + 1,
            1 <= plen,
            plen == p@.len(),
            hlen == h@.len(),
            plen <= hlen,
            last == hlen - plen,
            forall|k: int| from <= k < i ==> !match_at(h@, p@, k),
        decreases last + 1 - i,
    {
        if match_at_exec(h, p, i) {
            proof {
                lemma_find_from_some(h@, p@, from as int, i as int);
            }
            return Some(i);
        }
        i += 1;
    }
    proof {
        assert(forall|k: int| from <= k ==> !match_at(h@, p@, k));
        lemma_find_from_none(h@, p@, from as int);
    }
    None
}

/// True when `p` occurs somewhere in `h`.
pub fn contains_sub(h: &Vec<char>, p: &Vec<char>) -> (r: bool)
    ensures
        r == contains_seq(h@, p@),
{
    let r = find_sub_from(h, p, 0);
    proof {
        lemma_find_from_exists(h@, p@, 0);
        if contains_seq(h@, p@) {
            let i = choose|i: int| match_at(h@, p@, i);
            assert(0 <= i && match_at(h@, p@, i));
        }
    }
    r.is_some()
}

/// True exactly when the two strings hold the same characters.
pub fn str_eq(a: &str, b: &str) -> (r: bool)
    ensures
        r == (a@ == b@),
{
    let an = a.unicode_len();
    let bn = b.unicode_len();
    if an != bn {
        return false;
    }
    for i in 0..an
        invariant
            an == a@.len(),
            an == b@.len(),
            forall|j: int| 0 <= j < i ==> a@[j] == b@[j],
    {
        if a.get_char(i) != b.get_char(i) {
            return false;
        }
    }
    proof {
        assert(a@ =~= b@);
    }
    true
}

/// The characters stripped from both ends of the code and message parts of
/// an error envelope: the quote and the space.
pub open spec fn in_trim_set(c: char) -> bool {
    c == '"' || c == ' '
}

/// `s` without its leading quote and space characters.
pub open spec fn trim_left(s: Seq<char>) -> Seq<char>
    decreases s.len(),
{
    if s.len() > 0 && in_trim_set(s.first()) {
        trim_left(s.drop_first())
    } else {
        s
    }
}

/// `s` without its trailing quote and space characters.
pub open spec fn trim_right(s: Seq<char>) -> Seq<char>
    decreases s.len(),
{
    if s.len() > 0 && in_trim_set(s.last()) {
        trim_right(s.drop_last())
    } else {
        s
    }
}

/// `s` without leading and trailing quote and space characters.
pub open spec fn trim_set(s: Seq<char>) -> Seq<char> {
    trim_right(trim_left(s))
}

fn is_trim_char(c: char) -> (r: bool)
    ensures
        r == in_trim_set(c),
{
    c == '"' || c == ' '
}

/// Narrows the range `[lo, hi)` of `h` so that it carries the trimmed form
/// of the original range.
pub fn trim_range(h: &Vec<char>, lo: usize, hi: usize) -> (r: (usize, usize))
    requires
        lo <= hi <= h@.len(),
    ensures
        lo <= r.0 <= r.1 <= hi,
        h@.subrange(r.0 as int, r.1 as int) == trim_set(h@.subrange(lo as int, hi as int)),
{
    let mut a = lo;
    while a < hi && is_trim_char(h[a])
        invariant
            lo <= a <= hi <= h@.len(),
            trim_left(h@.subrange(a as int, hi as int)) == trim_left(
                h@.subrange(lo as int, hi as int),
            ),
        decreases hi - a,
    {
        proof {
            assert(h@.subrange(a as int, hi as int).drop_first() =~= h@.subrange(
                a + 1,
                hi as int,
            ));
        }
        a += 1;
    }
    proof {
        assert(trim_left(h@.subrange(a as int, hi as int)) == h@.subrange(a as int, hi as int));
    }
    let mut b = hi;
    while b > a && is_trim_char(h[b - 1])
        invariant
            lo <= a <= b <= hi <= h@.len(),
            trim_right(h@.subrange(a as int, b as int)) == trim_right(
                h@.subrange(a as int, hi as int),
            ),
        decreases b,
    {
        proof {
            assert(h@.subrange(a as int, b as int).drop_last() =~= h@.subrange(a as int, b - 1));
        }
        b -= 1;
    }
    proof {
        assert(trim_right(h@.subrange(a as int, b as int)) == h@.subrange(a as int, b as int));
    }
    (a, b)
}

/// True for the ten decimal digit characters.
pub open spec fn is_dec_digit(c: char) -> bool {
    '0' <= c && c <= '9'
}

/// The numeric value of a digit character.
pub open spec fn dec_digit_val(c: char) -> int {
    c as u32 - '0' as u32
}

/// True when `s` is a non-empty run of decimal digits.
pub open spec fn is_dec_seq(s: Seq<char>) -> bool {
    s.len() > 0 && forall|i: int| 0 <= i < s.len() ==> is_dec_digit(s[i])
}

/// The value of a digit run, most significant digit first.
pub open spec fn dec_val(s: Seq<char>) -> int
    decreases s.len(),
{
    if s.len() == 0 {
        0
    } else {
        dec_val(s.drop_last()) * 10 + dec_digit_val(s.last())
    }
}

pub proof fn lemma_dec_val_nonneg(s: Seq<char>)
    requires
        forall|i: int| 0 <= i < s.len() ==> is_dec_digit(s[i]),
    ensures
        dec_val(s) >= 0,
    decreases s.len(),
{
    if s.len() > 0 {
        lemma_dec_val_nonneg(s.drop_last());
    }
}

proof fn lemma_dec_val_prefix_le(s: Seq<char>, j: int)
    requires
        0 <= j <= s.len(),
        forall|i: int| 0 <= i < s.len() ==> is_dec_digit(s[i]),
    ensures
        dec_val(s.take(j)) <= dec_val(s),
    decreases s.len() - j,
{
    if j < s.len() {
        lemma_dec_val_prefix_le(s, j + 1);
        assert(s.take(j + 1).drop_last() =~= s.take(j));
        lemma_dec_val_nonneg(s.take(j));
        assert(dec_val(s.take(j + 1)) == dec_val(s.take(j)) * 10 + dec_digit_val(s[j]));
    } else {
        assert(s.take(j) =~= s);
    }
}

/// Parses a run of decimal digits as a `u64`; `None` when the text is not
/// such a run or its value does not fit.
pub fn parse_u64(s: &str) -> (r: Option<u64>)
    ensures
        r == (if is_dec_seq(s@) && dec_val(s@) <= u64::MAX as int {
            Some(dec_val(s@) as u64)
        } else {
            None::<u64>
        }),
{
    let cs = chars_of(s);
    let n = cs.len();
    if n == 0 {
        return None;
    }
    let mut val: u64 = 0;
    assert(s@.take(0) =~= Seq::<char>::empty());
    for i in 0..n
        invariant
            n == cs@.len(),
            cs@ == s@,
            forall|j: int| 0 <= j < i ==> is_dec_digit(s@[j]),
            val == dec_val(s@.take(i as int)),
    {
        let c = cs[i];
        if !(c >= '0' && c <= '9') {
            return None;
        }
        let d: u64 = (c as u32 - 48) as u64;
        proof {
            assert(s@.take(i + 1).drop_last() =~= s@.take(i as int));
            assert(s@.take(i + 1).last() == s@[i as int]);
        }
        if val > (u64::MAX - d) / 10 {
            proof {
                if is_dec_seq(s@) {
                    lemma_dec_val_prefix_le(s@, i + 1);
                }
            }
            return None;
        }
        val = val * 10 + d;
    }
    proof {
        assert(s@.take(n as int) =~= s@);
    }
    Some(val)
}

/// The value of an optionally minus-signed run of decimal digits; `None`
/// when the text has any other shape.
pub open spec fn int_text_val(s: Seq<char>) -> Option<int> {
    if is_dec_seq(s) {
        Some(dec_val(s))
    } else if s.len() > 1 && s[0] == '-' && is_dec_seq(s.skip(1)) {
        Some(-dec_val(s.skip(1)))
    } else {
        None
    }
}

/// Parses an optionally minus-signed run of decimal digits as an `i64`;
/// `None` when the text has another shape or the value does not fit.
pub fn parse_i64(s: &str) -> (r: Option<i64>)
    ensures
        r == (match int_text_val(s@) {
            Some(v) => if i64::MIN <= v <= i64::MAX {
                Some(v as i64)
            } else {
                None::<i64>
            },
            None => None::<i64>,
        }),
{
    let n = s.unicode_len();
    if n == 0 {
        return None;
    }
    if s.get_char(0) == '-' {
        let rest = s.substring_char(1, n);
        proof {
            assert(rest@ =~= s@.skip(1));
            if is_dec_seq(s@) {
                assert(is_dec_digit(s@[0]));
            }
        }
        match parse_u64(rest) {
            None => {
                proof {
                    if is_dec_seq(s@.skip(1)) {
                        lemma_dec_val_nonneg(s@.skip(1));
                        assert(dec_val(s@.skip(1)) > u64::MAX as int);
                        assert(int_text_val(s@) == Some(-dec_val(s@.skip(1))));
                        assert(int_text_val(s@).unwrap() < i64::MIN as int);
                    } else {
                        assert(int_text_val(s@) is None);
                    }
                }
                None
            },
            Some(mag) => {
                proof {
                    lemma_dec_val_nonneg(s@.skip(1));
                    assert(int_text_val(s@) == Some(-dec_val(s@.skip(1))));
                    assert(mag as int == dec_val(s@.skip(1)));
                }
                if mag <= 9223372036854775807u64 {
                    Some(-(mag as i64))
                } else if mag == 9223372036854775808u64 {
                    Some(i64::MIN)
                } else {
                    None
                }
            },
        }
    } else {
        match parse_u64(s) {
            None => None,
            Some(mag) => {
                proof {
                    lemma_dec_val_nonneg(s@);
                    assert(mag as int == dec_val(s@));
                }
                if mag <= 9223372036854775807u64 {
                    Some(mag as i64)
                } else {
                    None
                }
            },
        }
    }
}

/// The upper-case form of an ASCII lower-case letter; any other character is
/// kept as it is.
pub open spec fn upper_char(c: char) -> char {
    if c == 'a' {
        'A'
    } else if c == 'b' {
        'B'
    } else if c == 'c' {
        'C'
    } else if c == 'd' {
        'D'
    } else if c == 'e' {
        'E'
    } else if c == 'f' {
        'F'
    } else if c == 'g' {
        'G'
    } else if c == 'h' {
        'H'
    } else if c == 'i' {
        'I'
    } else if c == 'j' {
        'J'
    } else if c == 'k' {
        'K'
    } else if c == 'l' {
        'L'
    } else if c == 'm' {
        'M'
    } else if c == 'n' {
        'N'
    } else if c == 'o' {
        'O'
    } else if c == 'p' {
        'P'
    } else if c == 'q' {
        'Q'
    } else if c == 'r' {
        'R'
    } else if c == 's' {
        'S'
    } else if c == 't' {
        'T'
    } else if c == 'u' {
        'U'
    } else if c == 'v' {
        'V'
    } else if c == 'w' {
        'W'
    } else if c == 'x' {
        'X'
    } else if c == 'y' {
        'Y'
    } else if c == 'z' {
        'Z'
    } else {
        c
    }
}

/// `s` with every ASCII lower-case letter raised to upper case.
pub open spec fn upper_seq(s: Seq<char>) -> Seq<char> {
    Seq::new(s.len(), |i: int| upper_char(s[i]))
}

/// `s` without its dash characters.
pub open spec fn strip_dash(s: Seq<char>) -> Seq<char> {
    s.filter(|c: char| c != '-')
}

fn to_upper(c: char) -> (r: char)
    ensures
        r == upper_char(c),
{
    match c {
        'a' => 'A',
        'b' => 'B',
        'c' => 'C',
        'd' => 'D',
        'e' => 'E',
        'f' => 'F',
        'g' => 'G',
        'h' => 'H',
        'i' => 'I',
        'j' => 'J',
        'k' => 'K',
        'l' => 'L',
        'm' => 'M',
        'n' => 'N',
        'o' => 'O',
        'p' => 'P',
        'q' => 'Q',
        'r' => 'R',
        's' => 'S',
        't' => 'T',
        'u' => 'U',
        'v' => 'V',
        'w' => 'W',
        'x' => 'X',
        'y' => 'Y',
        'z' => 'Z',
        _ => c,
    }
}

/// The characters of `s`, upper-cased.
pub fn upper_chars(s: &str) -> (v: Vec<char>)
    ensures
        v@ == upper_seq(s@),
{
    let cs = chars_of(s);
    let n = cs.len();
    let mut v: Vec<char> = Vec::new();
    for i in 0..n
        invariant
            n == cs@.len(),
            cs@ == s@,
            v@ =~= upper_seq(s@.take(i as int)),
    {
        v.push(to_upper(cs[i]));
        assert(v@ =~= upper_seq(s@.take(i + 1)));
    }
    proof {
        assert(s@.take(n as int) =~= s@);
    }
    v
}

/// The characters of `s`, upper-cased, with dashes removed.
pub fn upper_nodash_chars(s: &str) -> (v: Vec<char>)
    ensures
        v@ == upper_seq(strip_dash(s@)),
{
    let cs = chars_of(s);
    let n = cs.len();
    let mut v: Vec<char> = Vec::new();
    assert(s@.take(0) =~= Seq::<char>::empty());
    for i in 0..n
        invariant
            n == cs@.len(),
            cs@ == s@,
            v@ =~= upper_seq(strip_dash(s@.take(i as int))),
    {
        proof {
            lemma_strip_dash_step(s@, i as int);
        }
        let c = cs[i];
        if c != '-' {
            v.push(to_upper(c));
            assert(v@ =~= upper_seq(strip_dash(s@.take(i + 1))));
        } else {
            assert(v@ =~= upper_seq(strip_dash(s@.take(i + 1))));
        }
    }
    proof {
        assert(s@.take(n as int) =~= s@);
    }
    v
}

proof fn lemma_strip_dash_step(s: Seq<char>, i: int)
    requires
        0 <= i < s.len(),
    ensures
        strip_dash(s.take(i + 1)) == strip_dash(s.take(i)) + (if s[i] == '-' {
            Seq::<char>::empty()
        } else {
            seq![s[i]]
        }),
{
    let pred = |c: char| c != '-';
    reveal_with_fuel(Seq::filter, 3);
    assert(s.take(i + 1) =~= s.take(i) + seq![s[i]]);
    Seq::<char>::filter_distributes_over_add(s.take(i), seq![s[i]], pred);
    assert(seq![s[i]].drop_last() =~= Seq::<char>::empty());
    assert(seq![s[i]].filter(pred) =~= (if s[i] == '-' {
        Seq::<char>::empty()
    } else {
        seq![s[i]]
    }));
}

/// True when the string starts with the given marker character.
pub fn first_char_is(s: &str, marker: char) -> (r: bool)
    ensures
        r == (s@.len() > 0 && s@[0] == marker),
{
    if s.unicode_len() == 0 {
        false
    } else {
        s.get_char(0) == marker
    }
}

/// True exactly when the two character vectors are equal.
pub fn vec_char_eq(a: &Vec<char>, b: &Vec<char>) -> (r: bool)
    ensures
        r == (a@ == b@),
{
    let an = a.len();
    if an != b.len() {
        return false;
    }
    for i in 0..an
        invariant
            an == a@.len(),
            an == b@.len(),
            forall|j: int| 0 <= j < i ==> a@[j] == b@[j],
    {
        if a[i] != b[i] {
            return false;
        }
    }
    proof {
        assert(a@ =~= b@);
    }
    true
}

} // verus!
