//! What the operations on text give, said of the characters themselves.

use vstd::prelude::*;

use crate::octets;
use crate::text;

verus! {

// ---- white space ----

/// A text is another one with white space put round it.
pub open spec fn surrounded(s: Seq<char>, t: Seq<char>, i: int) -> bool {
    &&& 0 <= i <= i + t.len() <= s.len()
    &&& s.subrange(i, i + t.len()) == t
    &&& forall|k: int| 0 <= k < i ==> text::is_space(#[trigger] s[k])
    &&& forall|k: int| i + t.len() <= k < s.len() ==> text::is_space(#[trigger] s[k])
}

proof fn lemma_trim_start(s: Seq<char>)
    ensures
        text::trim_start(s).len() <= s.len(),
        text::trim_start(s) == s.skip(s.len() - text::trim_start(s).len()),
        forall|k: int|
            0 <= k < s.len() - text::trim_start(s).len() ==> text::is_space(#[trigger] s[k]),
        text::trim_start(s).len() > 0 ==> !text::is_space(text::trim_start(s)[0]),
    decreases s.len(),
{
    if s.len() > 0 && text::is_space(s[0]) {
        lemma_trim_start(s.skip(1));
        let t = text::trim_start(s);
        assert(t =~= s.skip(s.len() - t.len()));
        assert forall|k: int| 0 <= k < s.len() - t.len() implies text::is_space(
            #[trigger] s[k],
        ) by {
            if k > 0 {
                assert(s.skip(1)[k - 1] == s[k]);
            }
        }
    } else {
        assert(s.skip(0) =~= s);
    }
}

proof fn lemma_trim_end(s: Seq<char>)
    ensures
        text::trim_end(s).len() <= s.len(),
        text::trim_end(s) == s.take(text::trim_end(s).len() as int),
        forall|k: int|
            text::trim_end(s).len() <= k < s.len() ==> text::is_space(#[trigger] s[k]),
        text::trim_end(s).len() > 0 ==> !text::is_space(text::trim_end(s).last()),
    decreases s.len(),
{
    if s.len() > 0 && text::is_space(s.last()) {
        lemma_trim_end(s.drop_last());
        let t = text::trim_end(s);
        assert(t =~= s.take(t.len() as int));
        assert forall|k: int| t.len() <= k < s.len() implies text::is_space(#[trigger] s[k]) by {
            if k < s.len() - 1 {
                assert(s.drop_last()[k] == s[k]);
            }
        }
    } else {
        assert(s.take(s.len() as int) =~= s);
    }
}

/// A trimmed text has white space at neither end, and is the text with white space
/// round it.
pub proof fn trimmed_text(s: Seq<char>)
    ensures
        exists|i: int| surrounded(s, text::trimmed(s), i),
        text::trimmed(s).len() > 0 ==> !text::is_space(text::trimmed(s)[0]),
        text::trimmed(s).len() > 0 ==> !text::is_space(text::trimmed(s).last()),
{
    let a = text::trim_start(s);
    let t = text::trim_end(a);
    lemma_trim_start(s);
    lemma_trim_end(a);
    let i = s.len() - a.len();
    assert(s.subrange(i, i + t.len()) =~= t);
    assert forall|k: int| i + t.len() <= k < s.len() implies text::is_space(#[trigger] s[k]) by {
        assert(a[k - i] == s[k]);
    }
    assert(t == text::trimmed(s));
    assert(surrounded(s, text::trimmed(s), i));
    if t.len() > 0 {
        assert(t[0] == a[0]);
    }
}

/// A text with white space at neither end is trimmed already.
pub proof fn plain_text_is_trimmed(s: Seq<char>)
    requires
        s.len() > 0 ==> !text::is_space(s[0]) && !text::is_space(s.last()),
    ensures
        text::trimmed(s) == s,
{
}

/// Trimming gives the text without the white space round it.
pub proof fn what_trimming_gives(s: &[char], r: Vec<char>)
    requires
        call_ensures(text::trim, (s,), r),
    ensures
        exists|i: int| surrounded(s@, r@, i),
        r@.len() > 0 ==> !text::is_space(r@[0]) && !text::is_space(r@.last()),
{
    trimmed_text(s@);
}

/// Blanks, tabs and the ends of lines are white space; what is printed in ASCII is not.
/// Beyond ASCII white space is what Unicode calls so.
pub proof fn what_white_space_is(c: char, r: bool)
    requires
        call_ensures(text::space, (c,), r),
    ensures
        c == ' ' || c == '\t' || c == '\n' || c == '\r' || c == '\u{b}' || c == '\u{c}' ==> r,
        '!' <= c <= '~' ==> !r,
        c < '\t' ==> !r,
        '\r' < c < ' ' ==> !r,
        c == '\u{85}' || c == '\u{a0}' || c == '\u{1680}' || '\u{2000}' <= c <= '\u{200a}' || c
            == '\u{2028}' || c == '\u{2029}' || c == '\u{202f}' || c == '\u{205f}' || c
            == '\u{3000}' ==> r,
        '~' < c < '\u{85}' || '\u{85}' < c < '\u{a0}' || '\u{a0}' < c < '\u{1680}' ==> !r,
        '\u{1680}' < c < '\u{2000}' || '\u{200a}' < c < '\u{2028}' || '\u{2029}' < c
            < '\u{202f}' ==> !r,
        '\u{202f}' < c < '\u{205f}' || '\u{205f}' < c < '\u{3000}' || '\u{3000}' < c ==> !r,
{
}

// ---- case ----

/// A character is another one in upper or lower case.
pub open spec fn same_letter(a: char, b: char) -> bool {
    ||| a == b
    ||| 'A' <= a <= 'Z' && b as u32 == a as u32 + 32
    ||| 'A' <= b <= 'Z' && a as u32 == b as u32 + 32
}

/// Two texts differ at most in the case of their ASCII letters.
pub open spec fn same_word(a: Seq<char>, b: Seq<char>) -> bool {
    a.len() == b.len() && forall|i: int|
        0 <= i < a.len() ==> same_letter(#[trigger] a[i], #[trigger] b[i])
}

/// Lower case is the same for two texts that differ in case alone, and for no others.
pub proof fn lower_case_ignores_case(a: Seq<char>, b: Seq<char>)
    ensures
        text::lowered(a) == text::lowered(b) <==> same_word(a, b),
{
    let x = text::lowered(a);
    let y = text::lowered(b);
    if x == y {
        assert(a.len() == x.len() && b.len() == y.len());
        assert forall|i: int| 0 <= i < a.len() implies same_letter(
            #[trigger] a[i],
            #[trigger] b[i],
        ) by {
            assert(x[i] == text::lower(a[i]));
            assert(y[i] == text::lower(b[i]));
        }
    }
    if same_word(a, b) {
        assert forall|i: int| 0 <= i < a.len() implies x[i] == y[i] by {
            assert(same_letter(a[i], b[i]));
        }
        assert(x =~= y);
    }
}

/// Words are compared without regard to case.
pub proof fn words_in_any_case(s: &[char], word: &str, r: bool)
    requires
        call_ensures(text::is_word, (s, word), r),
    ensures
        r <==> same_word(s@, word@),
{
    lower_case_ignores_case(s@, word@);
}

/// Lower case changes capital letters alone.
pub proof fn what_lower_case_gives(s: &[char], r: Vec<char>, i: int)
    requires
        call_ensures(text::to_lower, (s,), r),
    ensures
        r@.len() == s@.len(),
        0 <= i < s@.len() && 'A' <= s@[i] <= 'Z' ==> r@[i] as u32 == s@[i] as u32 + 32,
        0 <= i < s@.len() && !('A' <= s@[i] <= 'Z') ==> r@[i] == s@[i],
{
}

// ---- pieces ----

/// A text without a separator is one piece.
pub proof fn one_piece(s: Seq<char>, sep: spec_fn(char) -> bool)
    requires
        forall|i: int| 0 <= i < s.len() ==> !sep(#[trigger] s[i]),
    ensures
        text::pieces(s, sep) == seq![s],
    decreases s.len(),
{
    if s.len() > 0 {
        let d = s.drop_last();
        assert forall|i: int| 0 <= i < d.len() implies !sep(#[trigger] d[i]) by {
            assert(d[i] == s[i]);
        }
        one_piece(d, sep);
        assert(!sep(s.last()));
        assert(d.push(s.last()) =~= s);
        assert(text::pieces(s, sep) =~= seq![s]);
    } else {
        assert(s =~= Seq::empty());
    }
}

proof fn lemma_some_piece(s: Seq<char>, sep: spec_fn(char) -> bool)
    ensures
        text::pieces(s, sep).len() > 0,
    decreases s.len(),
{
    if s.len() > 0 {
        lemma_some_piece(s.drop_last(), sep);
    }
}

/// The pieces of two texts with a separator between them are those of the one, and then
/// those of the other.
pub proof fn pieces_side_by_side(a: Seq<char>, c: char, b: Seq<char>, sep: spec_fn(char) -> bool)
    requires
        sep(c),
    ensures
        text::pieces(a.push(c) + b, sep) == text::pieces(a, sep) + text::pieces(b, sep),
    decreases b.len(),
{
    let all = a.push(c) + b;
    let x = text::pieces(a, sep);
    let y = text::pieces(b, sep);
    if b.len() == 0 {
        assert(all =~= a.push(c));
        assert(a.push(c).drop_last() =~= a);
        assert(x.push(Seq::empty()) =~= x + seq![Seq::<char>::empty()]);
    } else {
        let d = b.drop_last();
        pieces_side_by_side(a, c, d, sep);
        lemma_some_piece(d, sep);
        assert(all.drop_last() =~= a.push(c) + d);
        assert(all.last() == b.last());
        assert(text::pieces(all, sep) =~= x + y);
    }
}

/// A list with commas has one item where there is no comma, and the items of two lists
/// that stand side by side.
pub proof fn lists_at_commas(s: &[char], r: Vec<Vec<char>>, a: Seq<char>, b: Seq<char>)
    requires
        call_ensures(text::split_commas, (s,), r),
    ensures
        !s@.contains(',') ==> text::views(r@) == seq![s@],
        s@ == a.push(',') + b ==> text::views(r@) == text::at_commas(a) + text::at_commas(b),
{
    let sep = |c: char| c == ',';
    if !s@.contains(',') {
        assert forall|i: int| 0 <= i < s@.len() implies !sep(#[trigger] s@[i]) by {
            assert(s@.contains(s@[i]));
        }
        one_piece(s@, sep);
    }
    pieces_side_by_side(a, ',', b, sep);
}

/// In a list with commas or spaces either separates.
pub proof fn lists_at_commas_or_spaces(
    s: &[char],
    r: Vec<Vec<char>>,
    a: Seq<char>,
    c: char,
    b: Seq<char>,
)
    requires
        call_ensures(text::split_commas_or_spaces, (s,), r),
    ensures
        !s@.contains(',') && !s@.contains(' ') ==> text::views(r@) == seq![s@],
        (c == ',' || c == ' ') && s@ == a.push(c) + b ==> text::views(r@)
            == text::at_commas_or_spaces(a) + text::at_commas_or_spaces(b),
{
    one_token(s@);
    if c == ',' || c == ' ' {
        tokens_side_by_side(a, c, b);
    }
}

/// A text without a comma or space is one token.
pub proof fn one_token(s: Seq<char>)
    ensures
        !s.contains(',') && !s.contains(' ') ==> text::at_commas_or_spaces(s) == seq![s],
{
    let sep = |c: char| c == ',' || c == ' ';
    if !s.contains(',') && !s.contains(' ') {
        assert forall|i: int| 0 <= i < s.len() implies !sep(#[trigger] s[i]) by {
            assert(s.contains(s[i]));
        }
        one_piece(s, sep);
    }
}

/// The tokens of two lists side by side.
pub proof fn tokens_side_by_side(a: Seq<char>, c: char, b: Seq<char>)
    requires
        c == ',' || c == ' ',
    ensures
        text::at_commas_or_spaces(a.push(c) + b) == text::at_commas_or_spaces(a)
            + text::at_commas_or_spaces(b),
{
    pieces_side_by_side(a, c, b, |c: char| c == ',' || c == ' ');
}

// ---- positions ----

/// A position is that of the first occurrence.
pub proof fn first_position(s: Seq<char>, c: char)
    ensures
        text::position(s, c) matches Some(i) ==> 0 <= i < s.len() && s[i] == c
            && !s.take(i).contains(c),
        text::position(s, c) is None <==> !s.contains(c),
    decreases s.len(),
{
    if s.len() > 0 && s[0] != c {
        let t = s.skip(1);
        first_position(t, c);
        match text::position(t, c) {
            Some(j) => {
                assert(s[j + 1] == t[j]);
                let head = s.take(j + 1);
                assert forall|k: int| 0 <= k < head.len() implies #[trigger] head[k] != c by {
                    if k > 0 {
                        assert(t.take(j)[k - 1] == s[k]);
                        assert(t.take(j).contains(t.take(j)[k - 1]));
                    }
                }
            },
            None => {
                if s.contains(c) {
                    let k = choose|k: int| 0 <= k < s.len() && s[k] == c;
                    assert(t[k - 1] == c);
                    assert(t.contains(c));
                }
            },
        }
    } else if s.len() > 0 {
        assert(s.contains(s[0]));
    }
}

/// A search finds the first occurrence of a character, where there is one.
pub proof fn what_a_search_finds(s: &[char], c: char, r: Option<usize>)
    requires
        call_ensures(text::find, (s, c), r),
    ensures
        r matches Some(i) ==> i < s@.len() && s@[i as int] == c && !s@.take(i as int).contains(c),
        r is None <==> !s@.contains(c),
{
    first_position(s@, c);
}

/// A text is cut at the first occurrence of a character: what stands before and after it
/// make up the text, and it is not in what stands before.
pub proof fn parts_of_a_cut(s: &[char], c: char, r: Option<(Vec<char>, Vec<char>)>)
    requires
        call_ensures(text::split_once, (s, c), r),
    ensures
        r is Some <==> s@.contains(c),
        r matches Some((a, b)) ==> s@ == a@.push(c) + b@ && !a@.contains(c),
{
    first_position(s@, c);
    if let Some((a, b)) = r {
        assert(s@ =~= a@.push(c) + b@);
    }
}

/// What comes before a character where it first occurs, and what comes after.
pub proof fn cut_at_the_first(a: Seq<char>, c: char, b: Seq<char>)
    requires
        !a.contains(c),
    ensures
        text::cut(a.push(c) + b, c) == Some((a, b)),
{
    let s = a.push(c) + b;
    first_position(s, c);
    assert(s[a.len() as int] == c);
    assert(s.contains(c));
    let i = text::position(s, c)->Some_0;
    if i < a.len() {
        assert(a[i] == s[i]);
        assert(a.contains(a[i]));
    }
    if i > a.len() {
        assert(s.take(i)[a.len() as int] == c);
        assert(s.take(i).contains(c));
    }
    assert(s.take(i) =~= a);
    assert(s.skip(i + 1) =~= b);
}

// ---- characters ----

/// Texts are compared by their characters, taken apart into them and made of them.
pub proof fn texts_are_their_characters(
    a: &str,
    b: &str,
    eq: bool,
    x: &[char],
    y: &[char],
    eqc: bool,
    cs: Vec<char>,
    s: String,
)
    requires
        call_ensures(text::same, (a, b), eq),
        call_ensures(text::same_chars, (x, y), eqc),
        call_ensures(text::chars_of, (a,), cs),
        call_ensures(text::string_of, (x,), s),
    ensures
        eq <==> a@.len() == b@.len() && forall|i: int|
            0 <= i < a@.len() ==> a@[i] == #[trigger] b@[i],
        eqc <==> x@.len() == y@.len() && forall|i: int|
            0 <= i < x@.len() ==> x@[i] == #[trigger] y@[i],
        cs@ == a@,
        s@ == x@,
{
    if a@.len() == b@.len() && (forall|i: int| 0 <= i < a@.len() ==> a@[i] == #[trigger] b@[i]) {
        assert(a@ =~= b@);
    }
    if x@.len() == y@.len() && (forall|i: int| 0 <= i < x@.len() ==> x@[i] == #[trigger] y@[i]) {
        assert(x@ =~= y@);
    }
}

/// A text begins with a word where something follows that makes up the text with it.
pub proof fn beginnings(s: &[char], word: &str, r: bool, tail: Seq<char>, n: usize, t: Vec<char>)
    requires
        call_ensures(text::starts_with, (s, word), r),
        n <= s@.len(),
        call_ensures(text::rest, (s, n), t),
    ensures
        s@ == word@ + tail ==> r,
        r ==> s@.len() >= word@.len() && s@ == word@ + s@.skip(word@.len() as int),
        t@.len() == s@.len() - n,
        s@ == s@.take(n as int) + t@,
{
    if s@ == word@ + tail {
        assert(s@.subrange(0, word@.len() as int) =~= word@);
    }
    if r {
        assert(s@ =~= word@ + s@.skip(word@.len() as int));
    }
    assert(s@ =~= s@.take(n as int) + t@);
}

// ---- numbers ----

/// A number below ten is one digit; any other is what a tenth of it is, and then its last
/// digit.
pub proof fn digits_of_a_number(out: &mut String, n: u64, tenth: &mut String)
    requires
        call_ensures(text::push_decimal, (out, n), ()),
        call_ensures(text::push_decimal, (tenth, n / 10), ()),
        old(tenth)@ == old(out)@,
    ensures
        n < 10 ==> final(out)@ == old(out)@.push((0x30 + n) as char),
        n >= 10 ==> final(out)@ == final(tenth)@.push((0x30 + n % 10) as char),
{
    if n < 10 {
        assert(final(out)@ =~= old(out)@.push((0x30 + n) as char));
    } else {
        assert(final(out)@ =~= final(tenth)@.push((0x30 + n % 10) as char));
    }
}

/// A negative number is a minus sign and then its absolute value.
pub proof fn digits_of_a_signed_number(out: &mut String, n: i32, plain: &mut String)
    requires
        call_ensures(text::push_signed, (out, n), ()),
        n >= 0 ==> call_ensures(text::push_decimal, (plain, n as u64), ()),
        n < 0 ==> call_ensures(text::push_decimal, (plain, (-n) as u64), ()),
        n >= 0 ==> old(plain)@ == old(out)@,
        n < 0 ==> old(plain)@ == old(out)@.push('-'),
    ensures
        final(out)@ == final(plain)@,
{
    if n < 0 {
        assert(final(out)@ =~= final(plain)@);
    }
}

/// The value of a character as a digit.
pub open spec fn digit_of(c: char, radix: u32) -> Option<int> {
    if '0' <= c <= '9' {
        Some(c as int - '0' as int)
    } else if radix == 16 && 'a' <= c <= 'f' {
        Some(c as int - 'a' as int + 10)
    } else if radix == 16 && 'A' <= c <= 'F' {
        Some(c as int - 'A' as int + 10)
    } else {
        None
    }
}

/// A number is read digit by digit: nothing is no number, one digit is its value, and
/// another one behind a number adds to it, as far as 32 bits go. A plus sign in front
/// changes nothing.
pub proof fn numbers_are_read(
    s: &[char],
    radix: u32,
    r: Option<u32>,
    longer: &[char],
    c: char,
    l: Option<u32>,
    plus: &[char],
    p: Option<u32>,
)
    requires
        radix == 10 || radix == 16,
        call_ensures(text::parse_u32, (s, radix), r),
        longer@ == s@.push(c),
        call_ensures(text::parse_u32, (longer, radix), l),
        plus@ == seq!['+'] + s@,
        call_ensures(text::parse_u32, (plus, radix), p),
    ensures
        s@.len() == 0 ==> r is None,
        s@.len() == 0 && digit_of(c, radix) is Some ==> l == Some(
            digit_of(c, radix)->Some_0 as u32,
        ),
        digit_of(c, radix) is None ==> l is None,
        r matches Some(n) && digit_of(c, radix) is Some && n * radix + digit_of(
            c,
            radix,
        )->Some_0 <= u32::MAX ==> l == Some(
            (r->Some_0 * radix + digit_of(c, radix)->Some_0) as u32,
        ),
        r matches Some(n) && digit_of(c, radix) is Some && n * radix + digit_of(
            c,
            radix,
        )->Some_0 > u32::MAX ==> l is None,
        r is None && s@.len() > 1 ==> l is None,
        s@.len() > 0 && s@[0] != '+' ==> p == r,
        s@.len() > 0 && s@[0] == '+' ==> p is None,
{
    let rad = radix as nat;
    let body = if s@.len() > 0 && s@[0] == '+' {
        s@.skip(1)
    } else {
        s@
    };
    let lbody = if longer@.len() > 0 && longer@[0] == '+' {
        longer@.skip(1)
    } else {
        longer@
    };
    assert(plus@.skip(1) =~= s@);
    if s@.len() > 0 {
        assert(longer@[0] == s@[0]);
        assert(lbody =~= body.push(c));
        assert(body.push(c).drop_last() =~= body);
        if s@[0] == '+' {
            lemma_sign_is_no_digit(s@, rad);
        }
        if body.len() > 0 && r is None && text::natural(body, rad) is Some {
            let v = text::natural(body, rad)->Some_0;
            assert(v * rad >= v) by (nonlinear_arith)
                requires
                    rad >= 1,
            ;
        }
    } else {
        assert(s@ =~= Seq::empty());
        assert(longer@.drop_last() =~= s@);
        assert(longer@.skip(1) =~= Seq::empty());
        assert(0 * rad == 0) by (nonlinear_arith);
    }
}

proof fn lemma_sign_is_no_digit(s: Seq<char>, radix: nat)
    requires
        s.len() > 0,
        text::digit_value(s[0], radix) is None,
    ensures
        text::digits_value(s, radix) is None,
    decreases s.len(),
{
    if s.len() > 1 {
        assert(s.drop_last()[0] == s[0]);
        lemma_sign_is_no_digit(s.drop_last(), radix);
    }
}

/// A signed number without a sign is what the unsigned one is; with a minus sign it is
/// the negative of it. Where 32 bits do, more bits give the same number.
pub proof fn signed_numbers_are_read(
    s: &[char],
    u: Option<u32>,
    long: Option<i64>,
    short: Option<i32>,
    minus: &[char],
    neg: Option<i64>,
)
    requires
        call_ensures(text::parse_u32, (s, 10u32), u),
        call_ensures(text::parse_i64, (s,), long),
        call_ensures(text::parse_i32, (s,), short),
        minus@ == seq!['-'] + s@,
        call_ensures(text::parse_i64, (minus,), neg),
    ensures
        u matches Some(n) ==> long == Some(n as i64),
        u is Some && s@[0] != '+' ==> neg == Some((-(u->Some_0 as int)) as i64),
        short matches Some(n) ==> long == Some(n as i64),
        long matches Some(n) && i32::MIN <= n <= i32::MAX ==> short is Some,
        s@.len() == 0 ==> long is None && neg is None,
{
    assert(minus@.skip(1) =~= s@);
    if s@.len() > 0 && s@[0] == '-' {
        lemma_sign_is_no_digit(s@, 10);
    }
}

// ---- booleans ----

/// A text means true exactly where it is `1`, `on`, `true` or `yes`, in any case and with
/// white space round it.
pub proof fn what_means_true(s: &str, r: bool, t: Seq<char>, i: int)
    requires
        call_ensures(text::boolean_is_true, (s,), r),
        surrounded(s@, t, i),
        t.len() > 0 ==> !text::is_space(t[0]) && !text::is_space(t.last()),
    ensures
        r <==> t == seq!['1'] || same_word(t, seq!['o', 'n']) || same_word(
            t,
            seq!['t', 'r', 'u', 'e'],
        ) || same_word(t, seq!['y', 'e', 's']),
{
    truth_in_text(s@, t, i);
}

/// What remains of a text without the white space round it decides whether it means true.
pub proof fn truth_in_text(s: Seq<char>, t: Seq<char>, i: int)
    requires
        surrounded(s, t, i),
        t.len() > 0 ==> !text::is_space(t[0]) && !text::is_space(t.last()),
    ensures
        text::means_true(s) <==> t == seq!['1'] || same_word(t, seq!['o', 'n']) || same_word(
            t,
            seq!['t', 'r', 'u', 'e'],
        ) || same_word(t, seq!['y', 'e', 's']),
{
    one_way_to_trim(s, t, i);
    reveal_strlit("1");
    reveal_strlit("on");
    reveal_strlit("true");
    reveal_strlit("yes");
    assert("1"@ =~= seq!['1']);
    assert("on"@ =~= seq!['o', 'n']);
    assert("true"@ =~= seq!['t', 'r', 'u', 'e']);
    assert("yes"@ =~= seq!['y', 'e', 's']);
    lower_case_ignores_case(t, "1"@);
    lower_case_ignores_case(t, "on"@);
    lower_case_ignores_case(t, "true"@);
    lower_case_ignores_case(t, "yes"@);
    if same_word(t, seq!['1']) {
        assert(same_letter(t[0], seq!['1'][0]));
        assert(t =~= seq!['1']);
    }
}

/// There is one way to trim a text.
pub proof fn one_way_to_trim(s: Seq<char>, t: Seq<char>, i: int)
    requires
        surrounded(s, t, i),
        t.len() > 0 ==> !text::is_space(t[0]) && !text::is_space(t.last()),
    ensures
        text::trimmed(s) == t,
{
    trimmed_text(s);
    let u = text::trimmed(s);
    let j = choose|j: int| surrounded(s, u, j);
    if t.len() == 0 {
        if u.len() > 0 {
            assert(u[0] == s[j]);
            assert(text::is_space(s[j]));
        }
        assert(u =~= t);
    } else {
        assert(t[0] == s[i]);
        assert(t.last() == s[i + t.len() - 1]);
        if u.len() == 0 {
            assert(text::is_space(s[i]));
        } else {
            assert(u[0] == s[j]);
            assert(u.last() == s[j + u.len() - 1]);
            if i < j {
                assert(text::is_space(s[i]));
            }
            if j < i {
                assert(text::is_space(s[j]));
            }
            if t.len() < u.len() {
                assert(text::is_space(s[j + u.len() - 1]));
            }
            if u.len() < t.len() {
                assert(text::is_space(s[i + t.len() - 1]));
            }
        }
        assert(u =~= t);
    }
}

// ---- bytes ----

/// Byte strings are compared byte by byte, a list holds one where some item is the same,
/// and a copy is the same.
pub proof fn byte_strings(
    a: &[u8],
    b: &[u8],
    eq: bool,
    list: &[Vec<u8>],
    found: bool,
    copy: Vec<u8>,
    i: int,
)
    requires
        call_ensures(octets::same, (a, b), eq),
        call_ensures(octets::contains, (list, a), found),
        call_ensures(octets::copy, (a,), copy),
    ensures
        eq <==> a@ =~= b@,
        0 <= i < list@.len() && list@[i]@ == a@ ==> found,
        found ==> exists|k: int| 0 <= k < list@.len() && (#[trigger] list@[k])@ == a@,
        copy@ == a@,
{
    if 0 <= i < list@.len() && list@[i]@ == a@ {
        assert(octets::is_among(list@, a@));
    }
}

} // verus!
