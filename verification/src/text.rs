//! Text that pages and paths are made of: HTML escaping, and the decimal
//! form of integers, written and read back.
use vstd::prelude::*;

verus! {

/// What HTML escaping turns one character into.
pub open spec fn escape_char(c: char) -> Seq<char> {
    if c == '&' {
        seq!['&', 'a', 'm', 'p', ';']
    } else if c == '<' {
        seq!['&', 'l', 't', ';']
    } else if c == '>' {
        seq!['&', 'g', 't', ';']
    } else if c == '"' {
        seq!['&', 'q', 'u', 'o', 't', ';']
    } else {
        seq![c]
    }
}

/// Text escaped for HTML: each character escaped on its own, in order.
pub open spec fn escape_html(s: Seq<char>) -> Seq<char>
    decreases s.len(),
{
    if s.len() == 0 {
        Seq::empty()
    } else {
        escape_html(s.drop_last()) + escape_char(s.last())
    }
}

/// The character of a decimal digit.
pub open spec fn digit_char(d: int) -> char {
    if d == 0 {
        '0'
    } else if d == 1 {
        '1'
    } else if d == 2 {
        '2'
    } else if d == 3 {
        '3'
    } else if d == 4 {
        '4'
    } else if d == 5 {
        '5'
    } else if d == 6 {
        '6'
    } else if d == 7 {
        '7'
    } else if d == 8 {
        '8'
    } else {
        '9'
    }
}

/// The digits of a natural number, most significant first, without leading zeros.
pub open spec fn digits_of(n: nat) -> Seq<char>
    decreases n,
{
    if n < 10 {
        seq![digit_char(n as int)]
    } else {
        digits_of(n / 10).push(digit_char((n % 10) as int))
    }
}

/// The decimal form of an integer: a minus sign before the digits of a negative one.
pub open spec fn decimal_of(n: int) -> Seq<char> {
    if n < 0 {
        seq!['-'] + digits_of((-n) as nat)
    } else {
        digits_of(n as nat)
    }
}

/// Appends `text`, HTML-escaped, to `buffer`.
///
/// Calls maud's `Render::render_to` for `str`, which hands each byte to
/// maud's escaper: `&`, `<`, `>` and `"` become `&amp;`, `&lt;`, `&gt;`
/// and `&quot;`, every other byte is copied.  As no byte of a multi-byte
/// UTF-8 character is one of those four, this is the escaping of each
/// character that `escape_html` describes.
#[verifier::external_body]
pub(crate) fn render_text(buffer: &mut String, text: &str)
    ensures
        final(buffer)@ == old(buffer)@ + escape_html(text@),
{
    maud::Render::render_to(text, buffer)
}

/// Appends the decimal form of `n` to `buffer`.
///
/// Calls maud's `Render::render_to` for `i64`, which pushes what
/// `itoa::Buffer::format` writes: the digits of `n`, a `-` before them when
/// `n` is negative.
#[verifier::external_body]
pub(crate) fn render_int(buffer: &mut String, n: i64)
    ensures
        final(buffer)@ == old(buffer)@ + decimal_of(n as int),
{
    maud::Render::render_to(&n, buffer)
}

/// Appends maud's `DOCTYPE` to `buffer`.
///
/// `DOCTYPE` is `PreEscaped("<!DOCTYPE html>")`, whose `render_to` pushes
/// the text unchanged.
#[verifier::external_body]
pub(crate) fn render_doctype(buffer: &mut String)
    ensures
        final(buffer)@ == old(buffer)@ + "<!DOCTYPE html>"@,
{
    maud::Render::render_to(&maud::DOCTYPE, buffer)
}

/// Appends the rendering of the status code `404 Not Found` to `buffer`.
///
/// maud renders a value that has no `Render` impl through its `Display`,
/// escaped; the `Display` of `http::StatusCode` writes the number, a space
/// and the canonical reason, here `404 Not Found`, which escaping leaves
/// as it is.
#[verifier::external_body]
pub(crate) fn render_not_found_status(buffer: &mut String)
    ensures
        final(buffer)@ == old(buffer)@ + "404 Not Found"@,
{
    maud::Render::render_to(&maud::display(warp::http::StatusCode::NOT_FOUND), buffer)
}

/// What `String::from_utf8_lossy` makes of `bytes`.
pub uninterp spec fn utf8_lossy(bytes: Seq<u8>) -> Seq<char>;

/// The text that `bytes` encode in UTF-8, each invalid sequence replaced by
/// U+FFFD.
///
/// Calls `String::from_utf8_lossy` and takes the text it gives; the
/// contract names that text and says nothing more of it: it is a function
/// of the bytes alone.
#[verifier::external_body]
pub(crate) fn text_from_bytes(bytes: &[u8]) -> (s: String)
    ensures
        s@ == utf8_lossy(bytes@),
{
    String::from_utf8_lossy(bytes).to_string()
}

/// Whether `s` is the text `lit`.
pub(crate) fn text_equals(s: &str, lit: &str) -> (b: bool)
    ensures
        b == (s@ == lit@),
{
    let n = s.unicode_len();
    if n != lit.unicode_len() {
        return false;
    }
    let mut i: usize = 0;
    while i < n
        invariant
            n == s@.len(),
            n == lit@.len(),
            i <= n,
            forall|j: int| 0 <= j < i ==> s@[j] == lit@[j],
        decreases n - i,
    {
        if s.get_char(i) != lit.get_char(i) {
            return false;
        }
        i = i + 1;
    }
    assert(s@ =~= lit@);
    true
}

fn push_digit(buffer: &mut String, d: u64)
    requires
        d < 10,
    ensures
        final(buffer)@ == old(buffer)@.push(digit_char(d as int)),
{
    let s: &str = if d == 0 {
        proof { reveal_strlit("0"); }
        "0"
    } else if d == 1 {
        proof { reveal_strlit("1"); }
        "1"
    } else if d == 2 {
        proof { reveal_strlit("2"); }
        "2"
    } else if d == 3 {
        proof { reveal_strlit("3"); }
        "3"
    } else if d == 4 {
        proof { reveal_strlit("4"); }
        "4"
    } else if d == 5 {
        proof { reveal_strlit("5"); }
        "5"
    } else if d == 6 {
        proof { reveal_strlit("6"); }
        "6"
    } else if d == 7 {
        proof { reveal_strlit("7"); }
        "7"
    } else if d == 8 {
        proof { reveal_strlit("8"); }
        "8"
    } else {
        proof { reveal_strlit("9"); }
        "9"
    };
    assert(s@ =~= seq![digit_char(d as int)]);
    buffer.append(s);
}

fn push_digits(buffer: &mut String, m: u64)
    ensures
        final(buffer)@ == old(buffer)@ + digits_of(m as nat),
    decreases m,
{
    if m >= 10 {
        push_digits(buffer, m / 10);
    }
    push_digit(buffer, m % 10);
    assert(final(buffer)@ =~= old(buffer)@ + digits_of(m as nat));
}

/// The decimal form of `n`, as Rust's `{}` formatting writes it.
pub fn decimal_string(n: i64) -> (s: String)
    ensures
        s@ == decimal_of(n as int),
{
    let mut s = String::new();
    if n < 0 {
        let magnitude: u64 = if n == i64::MIN {
            9223372036854775808u64
        } else {
            (-n) as u64
        };
        proof { reveal_strlit("-"); }
        s.append("-");
        push_digits(&mut s, magnitude);
        assert(s@ =~= decimal_of(n as int));
    } else {
        push_digits(&mut s, n as u64);
    }
    s
}

/// Whether a character is an ASCII decimal digit.
pub open spec fn is_digit(c: char) -> bool {
    '0' <= c <= '9'
}

/// The value of an ASCII decimal digit.
pub open spec fn digit_value(c: char) -> int {
    (c as int) - ('0' as int)
}

/// Whether every character of `s` is a decimal digit.
pub open spec fn all_digits(s: Seq<char>) -> bool {
    forall|i: int| 0 <= i < s.len() ==> is_digit(#[trigger] s[i])
}

/// The number that a run of decimal digits writes.
pub open spec fn digits_value(s: Seq<char>) -> nat
    decreases s.len(),
{
    if s.len() == 0 {
        0
    } else {
        digits_value(s.drop_last()) * 10 + (digit_value(s.last()) as nat)
    }
}

/// The integer that `s` writes as Rust's `i64::from_str` reads it: an
/// optional `+` or `-` sign, then one or more decimal digits; any other
/// text writes no integer.
pub open spec fn integer_of(s: Seq<char>) -> Option<int> {
    if s.len() > 0 && (s[0] == '-' || s[0] == '+') {
        let rest = s.drop_first();
        if rest.len() > 0 && all_digits(rest) {
            if s[0] == '-' {
                Some(-(digits_value(rest) as int))
            } else {
                Some(digits_value(rest) as int)
            }
        } else {
            None
        }
    } else if s.len() > 0 && all_digits(s) {
        Some(digits_value(s) as int)
    } else {
        None
    }
}

/// What `i64::from_str` gives for `s`: the integer it writes, where that fits in an `i64`.
pub open spec fn parse_i64_of(s: Seq<char>) -> Option<i64> {
    match integer_of(s) {
        Some(v) => if i64::MIN <= v <= i64::MAX {
            Some(v as i64)
        } else {
            None
        },
        None => None,
    }
}

proof fn lemma_digits_value_grows(s: Seq<char>, i: int)
    requires
        0 <= i <= s.len(),
    ensures
        digits_value(s.take(i)) <= digits_value(s),
    decreases s.len() - i,
{
    if i < s.len() {
        lemma_digits_value_grows(s, i + 1);
        assert(s.take(i + 1).drop_last() =~= s.take(i));
    } else {
        assert(s.take(i) =~= s);
    }
}

/// Reads an `i64` the way Rust's `i64::from_str` does.
pub fn parse_i64(s: &str) -> (r: Option<i64>)
    ensures
        r == parse_i64_of(s@),
{
    let len = s.unicode_len();
    if len == 0 {
        return None;
    }
    let first = s.get_char(0);
    let negative = first == '-';
    let start: usize = if first == '-' || first == '+' { 1 } else { 0 };
    if start == len {
        return None;
    }
    let ghost digits = s@.subrange(start as int, len as int);
    proof {
        if start == 1 {
            assert(s@.drop_first() =~= digits);
        } else {
            assert(s@ =~= digits);
        }
    }
    // 2^63: the largest magnitude an `i64` can hold
    let bound: u64 = 9223372036854775808u64;
    let mut acc: u64 = 0;
    let mut i: usize = start;
    while i < len
        invariant
            start <= i <= len,
            len == s@.len(),
            start == 0 || start == 1,
            start < len,
            start == 1 ==> s@.drop_first() == digits && (s@[0] == '-' || s@[0] == '+'),
            start == 0 ==> s@ == digits && !(s@[0] == '-' || s@[0] == '+'),
            negative == (s@[0] == '-'),
            digits == s@.subrange(start as int, len as int),
            all_digits(digits.take(i - start)),
            acc as nat == digits_value(digits.take(i - start)),
            acc <= bound,
            bound == 9223372036854775808u64,
        decreases len - i,
    {
        let c = s.get_char(i);
        if !('0' <= c && c <= '9') {
            assert(digits[i - start] == c);
            assert(!all_digits(digits));
            return None;
        }
        let d: u64 = (c as u32 - '0' as u32) as u64;
        assert(d < 10 && d == digit_value(c));
        assert(digits.take(i - start + 1).drop_last() =~= digits.take(i - start));
        assert(digits.take(i - start + 1).last() == c);
        if acc > (bound - d) / 10 {
            proof {
                assert(digits_value(digits.take(i - start + 1)) > bound);
                lemma_digits_value_grows(digits, i - start + 1);
                assert(digits.take(digits.len() as int) =~= digits);
            }
            return None;
        }
        acc = acc * 10 + d;
        i = i + 1;
        assert(all_digits(digits.take(i - start)));
    }
    assert(digits.take(i - start) =~= digits);
    if negative {
        if acc == bound {
            Some(i64::MIN)
        } else {
            Some(-(acc as i64))
        }
    } else if acc == bound {
        None
    } else {
        Some(acc as i64)
    }
}

proof fn lemma_digit_char(d: int)
    requires
        0 <= d < 10,
    ensures
        is_digit(digit_char(d)),
        digit_value(digit_char(d)) == d,
{
}

proof fn lemma_digits_of(m: nat)
    ensures
        digits_of(m).len() > 0,
        all_digits(digits_of(m)),
        digits_value(digits_of(m)) == m,
    decreases m,
{
    if m < 10 {
        lemma_digit_char(m as int);
        assert(digits_of(m).drop_last() =~= Seq::<char>::empty());
        assert(digits_value(Seq::<char>::empty()) == 0);
        assert(digits_of(m).last() == digit_char(m as int));
    } else {
        lemma_digits_of(m / 10);
        lemma_digit_char((m % 10) as int);
        let s = digits_of(m);
        assert(s.drop_last() =~= digits_of(m / 10));
        assert(s.last() == digit_char((m % 10) as int));
        assert(digits_value(s) == digits_value(digits_of(m / 10)) * 10 + (m % 10));
        assert((m / 10) * 10 + m % 10 == m);
        assert forall|i: int| 0 <= i < s.len() implies is_digit(#[trigger] s[i]) by {
            if i < s.len() - 1 {
                assert(s[i] == digits_of(m / 10)[i]);
            }
        }
    }
}

/// The decimal form of an integer is not empty and holds no `/`.
pub(crate) proof fn lemma_decimal_has_no_slash(n: int)
    ensures
        decimal_of(n).len() > 0,
        forall|i: int| 0 <= i < decimal_of(n).len() ==> #[trigger] decimal_of(n)[i] != '/',
{
    if n < 0 {
        lemma_digits_of((-n) as nat);
        let s = decimal_of(n);
        assert forall|i: int| 0 <= i < s.len() implies #[trigger] s[i] != '/' by {
            if i > 0 {
                assert(s[i] == digits_of((-n) as nat)[i - 1]);
            }
        }
    } else {
        lemma_digits_of(n as nat);
    }
}

/// Reading back the decimal form of an `i64` gives the same `i64`.
pub proof fn law_decimal_read_back(n: i64)
    ensures
        parse_i64_of(decimal_of(n as int)) == Some(n),
{
    if n < 0 {
        let m = (-n) as nat;
        lemma_digits_of(m);
        let s = decimal_of(n as int);
        assert(s.drop_first() =~= digits_of(m));
    } else {
        lemma_digits_of(n as nat);
        lemma_digit_char(0);
        assert(!(digits_of(n as nat)[0] == '-' || digits_of(n as nat)[0] == '+'));
    }
}

/// Escaped text holds no `<`, `>` or `"`: text put into a page through
/// escaping can neither open nor close an element or a quoted attribute
/// value.
pub proof fn law_escaped_text_is_inert(s: Seq<char>)
    ensures
        forall|i: int|
            0 <= i < escape_html(s).len() ==> {
                let c = #[trigger] escape_html(s)[i];
                c != '<' && c != '>' && c != '"'
            },
    decreases s.len(),
{
    if s.len() > 0 {
        law_escaped_text_is_inert(s.drop_last());
        let e = escape_html(s);
        let p = escape_html(s.drop_last());
        assert forall|i: int| 0 <= i < e.len() implies {
            let c = #[trigger] e[i];
            c != '<' && c != '>' && c != '"'
        } by {
            if i < p.len() {
                assert(e[i] == p[i]);
            } else {
                assert(e[i] == escape_char(s.last())[i - p.len()]);
            }
        }
    }
}

/// Escaping works character by character: the escaping of two texts one
/// after the other is the escaping of each, one after the other; and text
/// with none of `&`, `<`, `>`, `"` is left as it is.
pub proof fn law_escaping_is_per_character(s: Seq<char>, t: Seq<char>)
    ensures
        escape_html(s + t) == escape_html(s) + escape_html(t),
        (forall|i: int| 0 <= i < s.len() ==> #[trigger] s[i] != '&' && s[i] != '<' && s[i] != '>'
            && s[i] != '"') ==> escape_html(s) == s,
    decreases t.len(),
{
    lemma_escape_concat(s, t);
    if forall|i: int| 0 <= i < s.len() ==> #[trigger] s[i] != '&' && s[i] != '<' && s[i] != '>'
        && s[i] != '"' {
        lemma_escape_plain(s);
    }
}

proof fn lemma_escape_concat(s: Seq<char>, t: Seq<char>)
    ensures
        escape_html(s + t) == escape_html(s) + escape_html(t),
    decreases t.len(),
{
    if t.len() == 0 {
        assert(s + t =~= s);
        assert(escape_html(s) + escape_html(t) =~= escape_html(s));
    } else {
        lemma_escape_concat(s, t.drop_last());
        assert((s + t).drop_last() =~= s + t.drop_last());
        assert((s + t).last() == t.last());
        assert(escape_html(s + t) =~= escape_html(s) + escape_html(t));
    }
}

proof fn lemma_escape_plain(s: Seq<char>)
    requires
        forall|i: int| 0 <= i < s.len() ==> #[trigger] s[i] != '&' && s[i] != '<' && s[i] != '>'
            && s[i] != '"',
    ensures
        escape_html(s) == s,
    decreases s.len(),
{
    if s.len() > 0 {
        assert(s.last() == s[s.len() - 1]);
        lemma_escape_plain(s.drop_last());
        assert(escape_html(s) =~= s.drop_last() + seq![s.last()]);
        assert(s =~= s.drop_last() + seq![s.last()]);
    }
}

proof fn lemma_leading_zero(d: Seq<char>)
    ensures
        digits_value(seq!['0'] + d) == digits_value(d),
    decreases d.len(),
{
    if d.len() == 0 {
        assert((seq!['0'] + d).drop_last() =~= Seq::<char>::empty());
        assert(seq!['0'] + d =~= seq!['0']);
        assert(digits_value(Seq::<char>::empty()) == 0);
        assert((seq!['0'] + d).last() == '0');
        assert(digit_value('0') == 0);
        assert(digits_value(d) == 0);
    } else {
        lemma_leading_zero(d.drop_last());
        assert((seq!['0'] + d).drop_last() =~= seq!['0'] + d.drop_last());
        assert((seq!['0'] + d).last() == d.last());
        assert(digits_value(seq!['0'] + d) == digits_value(seq!['0'] + d.drop_last()) * 10
            + (digit_value(d.last()) as nat));
    }
}

/// How integers are read: a `+` sign before the digits, or a leading zero,
/// reads the same number; a `-` sign negates it; an empty text or a lone
/// sign reads nothing, and neither does a text with a character that is
/// not a digit after its first.
pub proof fn law_how_integers_are_read(n: i64, s: Seq<char>, i: int)
    requires
        n >= 0,
    ensures
        parse_i64_of(seq!['+'] + decimal_of(n as int)) == Some(n),
        parse_i64_of(seq!['0'] + decimal_of(n as int)) == Some(n),
        parse_i64_of(seq!['-'] + decimal_of(n as int)) == Some((-n) as i64),
        parse_i64_of(Seq::<char>::empty()) is None,
        parse_i64_of(seq!['+']) is None,
        parse_i64_of(seq!['-']) is None,
        1 <= i < s.len() && !is_digit(s[i]) ==> parse_i64_of(s) is None,
{
    lemma_digits_of(n as nat);
    let d = decimal_of(n as int);
    assert((seq!['+'] + d).drop_first() =~= d);
    assert((seq!['-'] + d).drop_first() =~= d);
    lemma_leading_zero(d);
    let z = seq!['0'] + d;
    assert forall|k: int| 0 <= k < z.len() implies is_digit(#[trigger] z[k]) by {
        if k > 0 {
            assert(z[k] == d[k - 1]);
        }
    }
    assert(seq!['+'].drop_first() =~= Seq::<char>::empty());
    assert(seq!['-'].drop_first() =~= Seq::<char>::empty());
    if 1 <= i < s.len() && !is_digit(s[i]) {
        assert(s.drop_first()[i - 1] == s[i]);
    }
}

} // verus!
