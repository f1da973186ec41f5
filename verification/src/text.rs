use vstd::prelude::*;

verus! {

broadcast use vstd::string::group_string_axioms;

/// What escaping makes of one character.
pub open spec fn escape_char(c: char) -> Seq<char> {
    if c == '<' {
        seq!['&', 'l', 't', ';']
    } else if c == '>' {
        seq!['&', 'g', 't', ';']
    } else {
        seq![c]
    }
}

/// `<` becomes `&lt;` and `>` becomes `&gt;`; every other character stays.
pub open spec fn escape_html_spec(s: Seq<char>) -> Seq<char>
    decreases s.len(),
{
    if s.len() == 0 {
        Seq::empty()
    } else {
        escape_html_spec(s.drop_last()) + escape_char(s.last())
    }
}

/// The characters of `s` without any `\n` or `\r`.
pub open spec fn without_line_breaks(s: Seq<char>) -> Seq<char> {
    s.filter(|c: char| c != '\n' && c != '\r')
}

/// The character of the digit `d` (for `0 <= d < 10`).
pub open spec fn digit_char(d: nat) -> char {
    ((d + 48) as u32) as char
}

/// The digits of `n` in base `base`, most significant first, with no leading zero;
/// empty for zero.
pub open spec fn base_digits(n: nat, base: nat) -> Seq<char>
    decreases n,
{
    if n == 0 || base < 2 {
        Seq::empty()
    } else {
        proof {
            lemma_quotient_smaller(n, base);
        }
        base_digits(n / base, base).push(digit_char(n % base))
    }
}

pub proof fn lemma_quotient_smaller(n: nat, base: nat)
    requires
        n > 0,
        base >= 2,
    ensures
        n / base < n,
{
    assert(n / base < n) by (nonlinear_arith)
        requires
            n > 0,
            base >= 2,
    ;
}

/// The decimal text of a natural number.
pub open spec fn decimal_nat(n: nat) -> Seq<char> {
    if n == 0 {
        seq!['0']
    } else {
        base_digits(n, 10)
    }
}

/// The decimal text of an integer, as `Display` writes it: a `-` before negatives.
pub open spec fn decimal(i: int) -> Seq<char> {
    if i < 0 {
        seq!['-'] + decimal_nat((-i) as nat)
    } else {
        decimal_nat(i as nat)
    }
}

/// The base-9 text of `num`: its base-9 digits, empty when `num` is not positive.
pub open spec fn base9_spec(num: int) -> Seq<char> {
    if num <= 0 {
        Seq::empty()
    } else {
        base_digits(num as nat, 9)
    }
}

/// The number that a sequence of base-`base` digits denotes.
pub open spec fn digits_value(s: Seq<char>, base: nat) -> int
    decreases s.len(),
{
    if s.len() == 0 {
        0
    } else {
        digits_value(s.drop_last(), base) * base + (s.last() as int - 48)
    }
}

#[verifier::external_body]
pub(crate) fn push_char(s: &mut String, c: char)
    ensures
        final(s)@ == old(s)@.push(c),
{
    s.push(c)
}

fn digit_to_char(d: u64) -> (c: char)
    requires
        d < 10,
    ensures
        c == digit_char(d as nat),
{
    let b: u8 = (d as u8) + 48;
    b as char
}

fn push_base_digits(out: &mut String, n: u64, base: u64)
    requires
        2 <= base <= 10,
    ensures
        final(out)@ == old(out)@ + base_digits(n as nat, base as nat),
    decreases n,
{
    if n > 0 {
        proof {
            lemma_quotient_smaller(n as nat, base as nat);
        }
        push_base_digits(out, n / base, base);
        let d = n % base;
        let c = digit_to_char(d);
        push_char(out, c);
        assert(base_digits(n as nat, base as nat) == base_digits((n / base) as nat, base as nat).push(c));
    } else {
        assert(old(out)@ + base_digits(0, base as nat) == old(out)@);
    }
}

/// Appends the decimal text of `i` to `out`.
pub fn push_decimal(out: &mut String, i: i64)
    ensures
        final(out)@ == old(out)@ + decimal(i as int),
{
    if i < 0 {
        push_char(out, '-');
        let magnitude: u64 = if i == i64::MIN {
            9223372036854775808u64
        } else {
            (-i) as u64
        };
        push_base_digits(out, magnitude, 10);
    } else if i == 0 {
        push_char(out, '0');
    } else {
        push_base_digits(out, i as u64, 10);
    }
}

/// The decimal text of `i`.
pub fn decimal_text(i: i64) -> (s: String)
    ensures
        s@ == decimal(i as int),
{
    let mut s = String::new();
    push_decimal(&mut s, i);
    s
}

/// Escapes an HTML text: `<` becomes `&lt;` and `>` becomes `&gt;`.
pub fn escape_html(html: &str) -> (escaped: String)
    ensures
        escaped@ == escape_html_spec(html@),
{
    let mut out = String::new();
    for c in it: html.chars()
        invariant
            it.seq() == html@,
            out@ == escape_html_spec(html@.take(it.index() as int)),
    {
        assert(html@.take(it.index() + 1).drop_last() == html@.take(it.index() as int));
        if c == '<' {
            push_char(&mut out, '&');
            push_char(&mut out, 'l');
            push_char(&mut out, 't');
            push_char(&mut out, ';');
        } else if c == '>' {
            push_char(&mut out, '&');
            push_char(&mut out, 'g');
            push_char(&mut out, 't');
            push_char(&mut out, ';');
        } else {
            push_char(&mut out, c);
        }
    }
    assert(html@.take(html@.len() as int) == html@);
    out
}

/// Removes every `\n` and every `\r` from a text.
pub fn strip_line_breaks(text: &str) -> (stripped: String)
    ensures
        stripped@ == without_line_breaks(text@),
{
    let mut out = String::new();
    for c in it: text.chars()
        invariant
            it.seq() == text@,
            out@ == without_line_breaks(text@.take(it.index() as int)),
    {
        let ghost prefix = text@.take(it.index() as int);
        assert(text@.take(it.index() + 1) == prefix.push(c));
        reveal_with_fuel(Seq::filter, 1);
        assert(prefix.push(c).drop_last() == prefix);
        if c != '\n' && c != '\r' {
            push_char(&mut out, c);
        }
    }
    assert(text@.take(text@.len() as int) == text@);
    out
}

/// The base-9 digits of `num`, most significant first; empty when `num` is not positive.
pub fn to_base9(num: i32) -> (digits: String)
    ensures
        digits@ == base9_spec(num as int),
{
    let mut out = String::new();
    if num > 0 {
        push_base_digits(&mut out, num as u64, 9);
    }
    out
}

/// Whether two texts are the same sequence of characters.
pub fn same_text(a: &str, b: &str) -> (same: bool)
    ensures
        same == (a@ == b@),
{
    let a_owned = a.to_owned();
    let b_owned = b.to_owned();
    a_owned == b_owned
}

} // verus!

verus! {

/// A text holds neither `<` nor `>`.
pub open spec fn has_no_angle_brackets(s: Seq<char>) -> bool {
    forall|i: int| 0 <= i < s.len() ==> s[i] != '<' && s[i] != '>'
}

proof fn lemma_escape_has_no_angle_brackets(s: Seq<char>)
    ensures
        has_no_angle_brackets(escape_html_spec(s)),
    decreases s.len(),
{
    if s.len() > 0 {
        lemma_escape_has_no_angle_brackets(s.drop_last());
        let a = escape_html_spec(s.drop_last());
        let b = escape_char(s.last());
        assert forall|i: int| 0 <= i < (a + b).len() implies (a + b)[i] != '<' && (a + b)[i] != '>' by {
            if i >= a.len() {
                assert((a + b)[i] == b[i - a.len()]);
            }
        }
    }
}

proof fn lemma_escape_fixes_plain_text(s: Seq<char>)
    requires
        has_no_angle_brackets(s),
    ensures
        escape_html_spec(s) == s,
    decreases s.len(),
{
    if s.len() > 0 {
        assert(s.last() == s[s.len() - 1]);
        assert(has_no_angle_brackets(s.drop_last())) by {
            assert forall|i: int| 0 <= i < s.drop_last().len() implies s.drop_last()[i] != '<'
                && s.drop_last()[i] != '>' by {
                assert(s.drop_last()[i] == s[i]);
            }
        }
        lemma_escape_fixes_plain_text(s.drop_last());
        assert(s.drop_last().push(s.last()) == s);
    }
}

/// Escaped text holds no `<` and no `>`, and escaping it once more changes nothing.
pub proof fn law_escape_html_idempotent(s: Seq<char>)
    ensures
        has_no_angle_brackets(escape_html_spec(s)),
        escape_html_spec(escape_html_spec(s)) == escape_html_spec(s),
{
    lemma_escape_has_no_angle_brackets(s);
    lemma_escape_fixes_plain_text(escape_html_spec(s));
}

proof fn lemma_digit_char_value(d: nat)
    requires
        d < 10,
    ensures
        digit_char(d) as int - 48 == d,
        '0' <= digit_char(d) <= '9',
{
}

proof fn lemma_base_digits_value(n: nat, base: nat)
    requires
        2 <= base <= 10,
    ensures
        digits_value(base_digits(n, base), base) == n,
        forall|i: int|
            0 <= i < base_digits(n, base).len() ==> 48 <= #[trigger] (base_digits(n, base)[i] as int)
                < 48 + base,
    decreases n,
{
    if n > 0 {
        lemma_quotient_smaller(n, base);
        lemma_base_digits_value(n / base, base);
        let s = base_digits(n / base, base);
        let c = digit_char(n % base);
        assert(n % base < base) by (nonlinear_arith)
            requires
                base >= 2,
        ;
        lemma_digit_char_value(n % base);
        assert(s.push(c).drop_last() == s);
        assert(n == (n / base) * base + n % base) by (nonlinear_arith)
            requires
                base >= 2,
        ;
        assert forall|i: int| 0 <= i < s.push(c).len() implies 48 <= #[trigger] (s.push(c)[i] as int)
            < 48 + base by {
            if i < s.len() {
                assert(s.push(c)[i] == s[i]);
            }
        }
    }
}

/// Reading the base-9 text of a non-negative number back gives the number, and every
/// character of it is a digit from `0` to `8`.
pub proof fn law_base9_round_trip(num: int)
    requires
        num >= 0,
    ensures
        digits_value(base9_spec(num), 9) == num,
        forall|i: int| 0 <= i < base9_spec(num).len() ==> '0' <= #[trigger] base9_spec(num)[i] <= '8',
{
    lemma_base_digits_value(num as nat, 9);
    assert forall|i: int| 0 <= i < base9_spec(num).len() implies '0' <= #[trigger] base9_spec(num)[i]
        <= '8' by {
        let c = base_digits(num as nat, 9)[i];
        assert(48 <= (c as int) < 57);
    }
}

/// Reading the decimal text of a non-negative number back gives the number.
pub proof fn law_decimal_round_trip(n: nat)
    ensures
        digits_value(decimal_nat(n), 10) == n,
{
    lemma_base_digits_value(n, 10);
    if n == 0 {
        assert(seq!['0'].drop_last() == Seq::<char>::empty());
    }
}

} // verus!
