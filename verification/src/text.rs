//! Building strings.

use vstd::prelude::*;

verus! {

/// `String::push` appends one character.
pub assume_specification[ String::push ](s: &mut String, ch: char)
    ensures
        final(s)@ == old(s)@.push(ch),
;

/// `String::push_str` appends the characters of a string slice.
pub assume_specification[ String::push_str ](s: &mut String, string: &str)
    ensures
        final(s)@ == old(s)@ + string@,
;

/// The decimal digit with value `d`.
pub open spec fn digit(d: int) -> char {
    (48 + d) as char
}

/// The decimal digits of `n`, without leading zeros.
pub open spec fn decimal(n: nat) -> Seq<char>
    decreases n,
{
    if n < 10 {
        seq![digit(n as int)]
    } else {
        decimal(n / 10).push(digit((n % 10) as int))
    }
}

/// Append the decimal digits of `n`.
pub fn push_decimal(out: &mut String, n: u64)
    ensures
        final(out)@ == old(out)@ + decimal(n as nat),
    decreases n,
{
    if n >= 10 {
        push_decimal(out, n / 10);
    }
    let d: u8 = 48 + (n % 10) as u8;
    out.push(d as char);
    assert(out@ =~= old(out)@ + decimal(n as nat));
}

/// The digits of an integer, after a minus sign where it is negative.
pub open spec fn signed_decimal(n: int) -> Seq<char> {
    if n < 0 {
        seq!['-'] + decimal((-n) as nat)
    } else {
        decimal(n as nat)
    }
}

/// Append an integer.
pub fn push_signed(out: &mut String, n: i32)
    ensures
        final(out)@ == old(out)@ + signed_decimal(n as int),
{
    let v: i64 = n as i64;
    if v < 0 {
        out.push('-');
        push_decimal(out, (-v) as u64);
        assert(out@ =~= old(out)@ + signed_decimal(n as int));
    } else {
        push_decimal(out, v as u64);
    }
}

// ---- strings as characters ----

/// The characters of a string.
pub fn chars_of(s: &str) -> (r: Vec<char>)
    ensures
        r@ == s@,
{
    let mut out: Vec<char> = Vec::new();
    for c in it: s.chars()
        invariant
            out@ == it.seq().take(it.index() as int),
            it.seq() == s@,
    {
        out.push(c);
        assert(out@ =~= it.seq().take(it.index() + 1));
    }
    assert(out@ =~= s@);
    out
}

/// The string of some characters.
pub fn string_of(chars: &[char]) -> (r: String)
    ensures
        r@ == chars@,
{
    let mut out = String::new();
    let mut i: usize = 0;
    while i < chars.len()
        invariant
            i <= chars@.len(),
            out@ == chars@.take(i as int),
        decreases chars@.len() - i,
    {
        out.push(chars[i]);
        i += 1;
        assert(out@ =~= chars@.take(i as int));
    }
    assert(out@ =~= chars@);
    out
}

/// Whether two strings are equal.
pub fn same(a: &str, b: &str) -> (r: bool)
    ensures
        r == (a@ == b@),
{
    let x = chars_of(a);
    let y = chars_of(b);
    same_chars(x.as_slice(), y.as_slice())
}

/// Whether two runs of characters are equal.
pub fn same_chars(a: &[char], b: &[char]) -> (r: bool)
    ensures
        r == (a@ == b@),
{
    if a.len() != b.len() {
        return false;
    }
    let mut i: usize = 0;
    while i < a.len()
        invariant
            a@.len() == b@.len(),
            i <= a@.len(),
            forall|j: int| 0 <= j < i ==> a@[j] == b@[j],
        decreases a@.len() - i,
    {
        if a[i] != b[i] {
            return false;
        }
        i += 1;
    }
    assert(a@ =~= b@);
    true
}

// ---- white space ----

/// The characters with the Unicode property White_Space.
pub open spec fn is_space(c: char) -> bool {
    let n = c as u32;
    ||| 0x9 <= n <= 0xd
    ||| n == 0x20
    ||| n == 0x85
    ||| n == 0xa0
    ||| n == 0x1680
    ||| 0x2000 <= n <= 0x200a
    ||| n == 0x2028
    ||| n == 0x2029
    ||| n == 0x202f
    ||| n == 0x205f
    ||| n == 0x3000
}

/// Whether a character is white space.
pub fn space(c: char) -> (r: bool)
    ensures
        r == is_space(c),
{
    let n: u32 = c as u32;
    (n >= 0x9 && n <= 0xd) || n == 0x20 || n == 0x85 || n == 0xa0 || n == 0x1680 || (n >= 0x2000
        && n <= 0x200a) || n == 0x2028 || n == 0x2029 || n == 0x202f || n == 0x205f || n == 0x3000
}

/// Without leading white space.
pub open spec fn trim_start(s: Seq<char>) -> Seq<char>
    decreases s.len(),
{
    if s.len() > 0 && is_space(s[0]) {
        trim_start(s.skip(1))
    } else {
        s
    }
}

/// Without trailing white space.
pub open spec fn trim_end(s: Seq<char>) -> Seq<char>
    decreases s.len(),
{
    if s.len() > 0 && is_space(s.last()) {
        trim_end(s.drop_last())
    } else {
        s
    }
}

/// Without white space at either end.
pub open spec fn trimmed(s: Seq<char>) -> Seq<char> {
    trim_end(trim_start(s))
}

/// Remove white space at both ends.
pub fn trim(s: &[char]) -> (r: Vec<char>)
    ensures
        r@ == trimmed(s@),
{
    let mut i: usize = 0;
    assert(s@.skip(0) =~= s@);
    while i < s.len() && space(s[i])
        invariant
            i <= s@.len(),
            trim_start(s@) == trim_start(s@.skip(i as int)),
        decreases s@.len() - i,
    {
        assert(s@.skip(i as int).skip(1) =~= s@.skip(i + 1));
        i += 1;
    }
    let mut j: usize = s.len();
    assert(s@.subrange(i as int, j as int) =~= s@.skip(i as int));
    while j > i && space(s[j - 1])
        invariant
            i <= j <= s@.len(),
            trimmed(s@) == trim_end(s@.subrange(i as int, j as int)),
        decreases j - i,
    {
        assert(s@.subrange(i as int, j as int).drop_last() =~= s@.subrange(i as int, j - 1));
        j -= 1;
    }
    vstd::slice::slice_to_vec(vstd::slice::slice_subrange(s, i, j))
}

// ---- letters ----

/// The lower-case form of an ASCII letter; any other character is itself.
pub open spec fn lower(c: char) -> char {
    if 'A' <= c <= 'Z' {
        ((c as u32 + 32) as u32) as char
    } else {
        c
    }
}

/// Lower case, letter by letter.
pub open spec fn lowered(s: Seq<char>) -> Seq<char> {
    s.map_values(|c: char| lower(c))
}

fn lower_char(c: char) -> (r: char)
    ensures
        r == lower(c),
{
    if 'A' <= c && c <= 'Z' {
        let n: u8 = c as u8;
        (n + 32) as char
    } else {
        c
    }
}

/// Lower-case the ASCII letters.
pub fn to_lower(s: &[char]) -> (r: Vec<char>)
    ensures
        r@ == lowered(s@),
{
    let mut out: Vec<char> = Vec::new();
    let mut i: usize = 0;
    while i < s.len()
        invariant
            i <= s@.len(),
            out@ == lowered(s@.take(i as int)),
        decreases s@.len() - i,
    {
        out.push(lower_char(s[i]));
        i += 1;
        assert(out@ =~= lowered(s@.take(i as int)));
    }
    assert(s@.take(i as int) =~= s@);
    out
}

/// Whether some characters are a word, whatever the case of ASCII letters.
pub fn is_word(s: &[char], word: &str) -> (r: bool)
    ensures
        r == (lowered(s@) == lowered(word@)),
{
    let a = to_lower(s);
    let w = chars_of(word);
    let b = to_lower(w.as_slice());
    same_chars(a.as_slice(), b.as_slice())
}

// ---- splitting ----

/// The pieces of `s` between separators: one more than there are separators,
/// some of them possibly empty.
pub open spec fn pieces(s: Seq<char>, sep: spec_fn(char) -> bool) -> Seq<Seq<char>>
    decreases s.len(),
{
    if s.len() == 0 {
        seq![Seq::empty()]
    } else {
        let before = pieces(s.drop_last(), sep);
        if sep(s.last()) {
            before.push(Seq::empty())
        } else {
            before.update(before.len() - 1, before.last().push(s.last()))
        }
    }
}

/// The pieces between commas.
pub open spec fn at_commas(s: Seq<char>) -> Seq<Seq<char>> {
    pieces(s, |c: char| c == ',')
}

/// The pieces between commas or spaces.
pub open spec fn at_commas_or_spaces(s: Seq<char>) -> Seq<Seq<char>> {
    pieces(s, |c: char| c == ',' || c == ' ')
}

/// What some vectors of characters hold.
pub open spec fn views(v: Seq<Vec<char>>) -> Seq<Seq<char>> {
    Seq::new(v.len(), |i: int| v[i]@)
}

/// Split at commas, and at spaces too where that is asked for.
fn split(s: &[char], spaces: bool) -> (r: Vec<Vec<char>>)
    ensures
        views(r@) == (if spaces {
            at_commas_or_spaces(s@)
        } else {
            at_commas(s@)
        }),
{
    let ghost sep = if spaces {
        |c: char| c == ',' || c == ' '
    } else {
        |c: char| c == ','
    };
    let mut out: Vec<Vec<char>> = Vec::new();
    let mut last: Vec<char> = Vec::new();
    let mut i: usize = 0;
    assert(views(out@).push(last@) =~= pieces(s@.take(0), sep));
    while i < s.len()
        invariant
            i <= s@.len(),
            sep == (if spaces {
                |c: char| c == ',' || c == ' '
            } else {
                |c: char| c == ','
            }),
            views(out@).push(last@) == pieces(s@.take(i as int), sep),
        decreases s@.len() - i,
    {
        let c = s[i];
        let ghost before = pieces(s@.take(i as int), sep);
        assert(s@.take(i + 1).drop_last() =~= s@.take(i as int));
        assert(s@.take(i + 1).last() == c);
        if c == ',' || (spaces && c == ' ') {
            let ghost o = out@;
            out.push(last);
            assert(views(out@) =~= views(o).push(last@));
            last = Vec::new();
            assert(sep(c));
            assert(views(out@).push(last@) =~= before.push(Seq::empty()));
        } else {
            let ghost l = last@;
            last.push(c);
            assert(!sep(c));
            assert(before.last() == l);
            assert(views(out@).push(last@) =~= before.update(
                before.len() - 1,
                before.last().push(c),
            ));
        }
        i += 1;
    }
    let ghost o = out@;
    let ghost l = last@;
    out.push(last);
    assert(views(out@) =~= views(o).push(l));
    assert(s@.take(i as int) =~= s@);
    out
}

/// Split at commas.
pub fn split_commas(s: &[char]) -> (r: Vec<Vec<char>>)
    ensures
        views(r@) == at_commas(s@),
{
    split(s, false)
}

/// Split at commas and spaces.
pub fn split_commas_or_spaces(s: &[char]) -> (r: Vec<Vec<char>>)
    ensures
        views(r@) == at_commas_or_spaces(s@),
{
    split(s, true)
}

/// The position of the first occurrence of a character.
pub open spec fn position(s: Seq<char>, c: char) -> Option<int>
    decreases s.len(),
{
    if s.len() == 0 {
        None
    } else if s[0] == c {
        Some(0)
    } else {
        match position(s.skip(1), c) {
            Some(i) => Some(i + 1),
            None => None,
        }
    }
}

/// What stands before and after the first occurrence of a character.
pub open spec fn cut(s: Seq<char>, c: char) -> Option<(Seq<char>, Seq<char>)> {
    match position(s, c) {
        Some(i) => Some((s.take(i), s.skip(i + 1))),
        None => None,
    }
}

/// The first occurrence of a character.
pub fn find(s: &[char], c: char) -> (r: Option<usize>)
    ensures
        match position(s@, c) {
            Some(i) => r matches Some(j) && j == i && j < s@.len(),
            None => r is None,
        },
{
    let mut i: usize = 0;
    assert(s@.skip(0) =~= s@);
    while i < s.len()
        invariant
            i <= s@.len(),
            match position(s@.skip(i as int), c) {
                Some(k) => position(s@, c) == Some(i + k),
                None => position(s@, c) is None,
            },
        decreases s@.len() - i,
    {
        assert(s@.skip(i as int)[0] == s@[i as int]);
        if s[i] == c {
            return Some(i);
        }
        assert(s@.skip(i as int).skip(1) =~= s@.skip(i + 1));
        i += 1;
    }
    None
}

/// Cut at the first occurrence of a character.
pub fn split_once(s: &[char], c: char) -> (r: Option<(Vec<char>, Vec<char>)>)
    ensures
        match cut(s@, c) {
            Some((a, b)) => r matches Some((x, y)) && x@ == a && y@ == b,
            None => r is None,
        },
{
    match find(s, c) {
        Some(i) => {
            let n: usize = s.len();
            let a = vstd::slice::slice_to_vec(vstd::slice::slice_subrange(s, 0, i));
            let b = vstd::slice::slice_to_vec(vstd::slice::slice_subrange(s, i + 1, n));
            assert(a@ =~= s@.take(i as int));
            assert(b@ =~= s@.skip(i + 1));
            Some((a, b))
        },
        None => None,
    }
}

/// Whether some characters begin with a word.
pub fn starts_with(s: &[char], word: &str) -> (r: bool)
    ensures
        r == word@.is_prefix_of(s@),
{
    let w = chars_of(word);
    if s.len() < w.len() {
        return false;
    }
    same_chars(vstd::slice::slice_subrange(s, 0, w.len()), w.as_slice())
}

/// What follows the first `n` characters.
pub fn rest(s: &[char], n: usize) -> (r: Vec<char>)
    requires
        n <= s@.len(),
    ensures
        r@ == s@.skip(n as int),
{
    let r = vstd::slice::slice_to_vec(vstd::slice::slice_subrange(s, n, s.len()));
    assert(r@ =~= s@.skip(n as int));
    r
}

// ---- numbers ----

/// The value of a digit in base 10 or 16.
pub open spec fn digit_value(c: char, radix: nat) -> Option<nat> {
    if '0' <= c <= '9' {
        Some((c as u32 - 48) as nat)
    } else if radix == 16 && 'a' <= c <= 'f' {
        Some((c as u32 - 87) as nat)
    } else if radix == 16 && 'A' <= c <= 'F' {
        Some((c as u32 - 55) as nat)
    } else {
        None
    }
}

/// The value of a run of digits; no digits are worth 0.
pub open spec fn digits_value(s: Seq<char>, radix: nat) -> Option<nat>
    decreases s.len(),
{
    if s.len() == 0 {
        Some(0)
    } else {
        match (digits_value(s.drop_last(), radix), digit_value(s.last(), radix)) {
            (Some(v), Some(d)) => Some(v * radix + d),
            _ => None,
        }
    }
}

/// The value of a non-empty run of digits.
pub open spec fn natural(s: Seq<char>, radix: nat) -> Option<nat> {
    if s.len() == 0 {
        None
    } else {
        digits_value(s, radix)
    }
}

/// The value of an integer in text: digits, with or without a sign.
pub open spec fn integer(s: Seq<char>) -> Option<int> {
    if s.len() > 0 && s[0] == '-' {
        match natural(s.skip(1), 10) {
            Some(v) => Some(-(v as int)),
            None => None,
        }
    } else if s.len() > 0 && s[0] == '+' {
        match natural(s.skip(1), 10) {
            Some(v) => Some(v as int),
            None => None,
        }
    } else {
        match natural(s, 10) {
            Some(v) => Some(v as int),
            None => None,
        }
    }
}

/// The value of an unsigned number in text: digits, with or without a plus.
pub open spec fn unsigned(s: Seq<char>, radix: nat) -> Option<nat> {
    if s.len() > 0 && s[0] == '+' {
        natural(s.skip(1), radix)
    } else {
        natural(s, radix)
    }
}

fn read_digit(c: char, radix: u32) -> (r: Option<u32>)
    requires
        radix == 10 || radix == 16,
    ensures
        match digit_value(c, radix as nat) {
            Some(d) => r matches Some(v) && v == d && v < radix,
            None => r is None,
        },
{
    if '0' <= c && c <= '9' {
        Some(c as u32 - 48)
    } else if radix == 16 && 'a' <= c && c <= 'f' {
        Some(c as u32 - 87)
    } else if radix == 16 && 'A' <= c && c <= 'F' {
        Some(c as u32 - 55)
    } else {
        None
    }
}

proof fn lemma_bad_digit(s: Seq<char>, k: int, radix: nat)
    requires
        0 <= k <= s.len(),
        digits_value(s.take(k), radix) is None,
    ensures
        digits_value(s, radix) is None,
    decreases s.len(),
{
    if k < s.len() {
        assert(s.drop_last().take(k) =~= s.take(k));
        lemma_bad_digit(s.drop_last(), k, radix);
    } else {
        assert(s.take(k) =~= s);
    }
}

proof fn lemma_more_digits(s: Seq<char>, k: int, radix: nat)
    requires
        radix >= 1,
        0 <= k <= s.len(),
        digits_value(s, radix) is Some,
    ensures
        digits_value(s.take(k), radix) is Some,
        digits_value(s.take(k), radix)->0 <= digits_value(s, radix)->0,
    decreases s.len(),
{
    if k < s.len() {
        assert(s.drop_last().take(k) =~= s.take(k));
        lemma_more_digits(s.drop_last(), k, radix);
        let v = digits_value(s.drop_last(), radix)->0;
        assert(v <= v * radix) by (nonlinear_arith)
            requires
                radix >= 1,
        ;
    } else {
        assert(s.take(k) =~= s);
    }
}

/// The value of a non-empty run of digits, when it is at most `max`.
fn read_natural(s: &[char], radix: u32, max: u64) -> (r: Option<u64>)
    requires
        radix == 10 || radix == 16,
    ensures
        match natural(s@, radix as nat) {
            Some(v) => if v <= max {
                r matches Some(n) && n == v
            } else {
                r is None
            },
            None => r is None,
        },
{
    if s.len() == 0 {
        return None;
    }
    let mut acc: u64 = 0;
    let mut i: usize = 0;
    assert(digits_value(s@.take(0), radix as nat) == Some(0nat));
    while i < s.len()
        invariant
            radix == 10 || radix == 16,
            i <= s@.len(),
            s@.len() > 0,
            digits_value(s@.take(i as int), radix as nat) == Some(acc as nat),
            acc <= max,
        decreases s@.len() - i,
    {
        assert(s@.take(i + 1).drop_last() =~= s@.take(i as int));
        assert(s@.take(i + 1).last() == s@[i as int]);
        match read_digit(s[i], radix) {
            None => {
                proof {
                    lemma_bad_digit(s@, i + 1, radix as nat);
                }
                return None;
            },
            Some(d) => {
                let next: u128 = acc as u128 * radix as u128 + d as u128;
                if next > max as u128 {
                    proof {
                        if digits_value(s@, radix as nat) is Some {
                            lemma_more_digits(s@, i + 1, radix as nat);
                        }
                    }
                    return None;
                }
                acc = next as u64;
            },
        }
        i += 1;
    }
    assert(s@.take(i as int) =~= s@);
    Some(acc)
}

/// Read an unsigned 32-bit number in base 10 or 16.
pub fn parse_u32(s: &[char], radix: u32) -> (r: Option<u32>)
    requires
        radix == 10 || radix == 16,
    ensures
        match unsigned(s@, radix as nat) {
            Some(v) => if v <= u32::MAX {
                r matches Some(n) && n == v
            } else {
                r is None
            },
            None => r is None,
        },
{
    let v: Option<u64> = if s.len() > 0 && s[0] == '+' {
        let t = rest(s, 1);
        read_natural(t.as_slice(), radix, u32::MAX as u64)
    } else {
        read_natural(s, radix, u32::MAX as u64)
    };
    match v {
        Some(n) => Some(n as u32),
        None => None,
    }
}

/// Read a signed 64-bit number.
pub fn parse_i64(s: &[char]) -> (r: Option<i64>)
    ensures
        match integer(s@) {
            Some(v) => if i64::MIN <= v <= i64::MAX {
                r matches Some(n) && n == v
            } else {
                r is None
            },
            None => r is None,
        },
{
    if s.len() > 0 && s[0] == '-' {
        let t = rest(s, 1);
        match read_natural(t.as_slice(), 10, 0x8000_0000_0000_0000) {
            Some(n) => if n == 0x8000_0000_0000_0000 {
                Some(i64::MIN)
            } else {
                Some(-(n as i64))
            },
            None => None,
        }
    } else {
        let v: Option<u64> = if s.len() > 0 && s[0] == '+' {
            let t = rest(s, 1);
            read_natural(t.as_slice(), 10, 0x7fff_ffff_ffff_ffff)
        } else {
            read_natural(s, 10, 0x7fff_ffff_ffff_ffff)
        };
        match v {
            Some(n) => Some(n as i64),
            None => None,
        }
    }
}

/// Read a signed 32-bit number.
pub fn parse_i32(s: &[char]) -> (r: Option<i32>)
    ensures
        match integer(s@) {
            Some(v) => if i32::MIN <= v <= i32::MAX {
                r matches Some(n) && n == v
            } else {
                r is None
            },
            None => r is None,
        },
{
    match parse_i64(s) {
        Some(n) => if i32::MIN as i64 <= n && n <= i32::MAX as i64 {
            Some(n as i32)
        } else {
            None
        },
        None => None,
    }
}

// ---- booleans ----

/// The words for true: `1`, `on`, `true` and `yes`, in any case, with white
/// space round them.
pub open spec fn means_true(s: Seq<char>) -> bool {
    let w = lowered(trimmed(s));
    ||| w == lowered("1"@)
    ||| w == lowered("on"@)
    ||| w == lowered("true"@)
    ||| w == lowered("yes"@)
}

/// Whether a configured value means true.
pub fn boolean_is_true(s: &str) -> (r: bool)
    ensures
        r == means_true(s@),
{
    let c = chars_of(s);
    let t = trim(c.as_slice());
    let w = t.as_slice();
    is_word(w, "1") || is_word(w, "on") || is_word(w, "true") || is_word(w, "yes")
}

} // verus!
