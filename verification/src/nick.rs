use vstd::prelude::*;
use crate::text::push_char;

verus! {

broadcast use vstd::string::group_string_axioms;

/// Whether the character has the Unicode `White_Space` property, which std's
/// `char::is_whitespace` tests: tab to carriage return, space, next line, no-break space,
/// ogham space mark, the spaces from en quad to hair space, line and paragraph separators,
/// narrow no-break space, medium mathematical space and ideographic space.
pub open spec fn is_white_space(c: char) -> bool {
    let n = c as u32;
    ||| 0x09 <= n <= 0x0D
    ||| n == 0x20
    ||| n == 0x85
    ||| n == 0xA0
    ||| n == 0x1680
    ||| 0x2000 <= n <= 0x200A
    ||| n == 0x2028
    ||| n == 0x2029
    ||| n == 0x202F
    ||| n == 0x205F
    ||| n == 0x3000
}

/// std's `char::is_alphanumeric`: whether the character is alphabetic or numeric in
/// Unicode.
pub uninterp spec fn is_alphanumeric(c: char) -> bool;

/// std's `char::is_numeric`: whether the character is in a Unicode numeric category.
pub uninterp spec fn is_numeric(c: char) -> bool;

/// std's `str::to_lowercase`: the text mapped to lowercase by the Unicode rules.
pub uninterp spec fn lowercase(s: Seq<char>) -> Seq<char>;

/// std: `char::is_whitespace`, which the documentation defines as the Unicode
/// `White_Space` property (`is_white_space`).
#[verifier::external_body]
fn char_is_whitespace(c: char) -> (r: bool)
    ensures
        r == is_white_space(c),
{
    c.is_whitespace()
}

/// std: `char::is_alphanumeric`; the contract names its result.
#[verifier::external_body]
fn char_is_alphanumeric(c: char) -> (r: bool)
    ensures
        r == is_alphanumeric(c),
{
    c.is_alphanumeric()
}

/// std: `char::is_numeric`; the contract names its result.
#[verifier::external_body]
fn char_is_numeric(c: char) -> (r: bool)
    ensures
        r == is_numeric(c),
{
    c.is_numeric()
}

/// std: `str::to_lowercase`; the contract names its result.
#[verifier::external_body]
fn str_to_lowercase(s: &str) -> (r: String)
    ensures
        r@ == lowercase(s@),
{
    s.to_lowercase()
}

/// A text without its leading white space.
pub open spec fn trim_start_spec(s: Seq<char>) -> Seq<char>
    decreases s.len(),
{
    if s.len() > 0 && is_white_space(s[0]) {
        trim_start_spec(s.drop_first())
    } else {
        s
    }
}

/// A text without its trailing white space.
pub open spec fn trim_end_spec(s: Seq<char>) -> Seq<char>
    decreases s.len(),
{
    if s.len() > 0 && is_white_space(s.last()) {
        trim_end_spec(s.drop_last())
    } else {
        s
    }
}

/// A text without leading and trailing white space, as `str::trim` makes it.
pub open spec fn trim_spec(s: Seq<char>) -> Seq<char> {
    trim_end_spec(trim_start_spec(s))
}

/// The characters a nick keeps: `-` and the alphanumeric and numeric ones.
pub open spec fn nick_keeps(c: char) -> bool {
    c == '-' || is_alphanumeric(c) || is_numeric(c)
}

/// The nick made of what a user asked for: trimmed, in lowercase, with every character
/// dropped but `-` and the alphanumeric and numeric ones.
pub open spec fn normalize_nick_spec(raw: Seq<char>) -> Seq<char> {
    lowercase(trim_spec(raw)).filter(|c: char| nick_keeps(c))
}

/// A text without leading and trailing white space.
pub fn trim_text(s: &str) -> (trimmed: String)
    ensures
        trimmed@ == trim_spec(s@),
{
    let mut chars: Vec<char> = Vec::new();
    for c in it: s.chars()
        invariant
            it.seq() == s@,
            chars@ == s@.take(it.index() as int),
    {
        chars.push(c);
    }
    assert(s@.take(s@.len() as int) == s@);
    let n = chars.len();
    let mut start: usize = 0;
    while start < n && char_is_whitespace(chars[start])
        invariant
            n == chars@.len(),
            chars@ == s@,
            start <= n,
            trim_start_spec(s@) == trim_start_spec(s@.subrange(start as int, n as int)),
        decreases n - start,
    {
        assert(s@.subrange(start as int, n as int).drop_first() == s@.subrange(start + 1, n as int));
        start = start + 1;
    }
    assert(trim_start_spec(s@) == s@.subrange(start as int, n as int));
    let mut end: usize = n;
    while end > start && char_is_whitespace(chars[end - 1])
        invariant
            n == chars@.len(),
            chars@ == s@,
            start <= end <= n,
            trim_spec(s@) == trim_end_spec(s@.subrange(start as int, end as int)),
        decreases end,
    {
        assert(s@.subrange(start as int, end as int).drop_last() == s@.subrange(start as int, end - 1));
        end = end - 1;
    }
    assert(trim_spec(s@) == s@.subrange(start as int, end as int));
    let mut out = String::new();
    let mut i = start;
    while i < end
        invariant
            n == chars@.len(),
            chars@ == s@,
            start <= i <= end <= n,
            out@ == s@.subrange(start as int, i as int),
        decreases end - i,
    {
        push_char(&mut out, chars[i]);
        assert(s@.subrange(start as int, i + 1) == s@.subrange(start as int, i as int).push(s@[i as int]));
        i = i + 1;
    }
    out
}

/// The nick made of what a user asked for (see `normalize_nick_spec`).
pub fn normalize_nick(raw: &str) -> (nick: String)
    ensures
        nick@ == normalize_nick_spec(raw@),
{
    let trimmed = trim_text(raw);
    let lowered = str_to_lowercase(trimmed.as_str());
    let ghost low = lowered@;
    let mut nick = String::new();
    for c in it: lowered.as_str().chars()
        invariant
            it.seq() == low,
            nick@ == low.take(it.index() as int).filter(|c: char| nick_keeps(c)),
    {
        let ghost prefix = low.take(it.index() as int);
        assert(low.take(it.index() + 1) == prefix.push(c));
        reveal_with_fuel(Seq::filter, 1);
        assert(prefix.push(c).drop_last() == prefix);
        if c == '-' || char_is_alphanumeric(c) || char_is_numeric(c) {
            push_char(&mut nick, c);
        }
    }
    assert(low.take(low.len() as int) == low);
    nick
}

/// A user's request changes the nick only when the new nick is not empty and differs
/// from the current one.
pub fn nick_change_wanted(new_nick: &str, old_nick: &str) -> (wanted: bool)
    ensures
        wanted == (new_nick@.len() > 0 && new_nick@ != old_nick@),
{
    !new_nick.is_empty() && !crate::text::same_text(new_nick, old_nick)
}

/// A normalized nick holds only `-` and alphanumeric or numeric characters.
pub proof fn law_nick_characters(raw: Seq<char>)
    ensures
        forall|i: int| 0 <= i < normalize_nick_spec(raw).len() ==> nick_keeps(#[trigger] normalize_nick_spec(raw)[i]),
{
    let low = lowercase(trim_spec(raw));
    assert forall|i: int| 0 <= i < normalize_nick_spec(raw).len() implies nick_keeps(#[trigger] normalize_nick_spec(raw)[i]) by {
        broadcast use vstd::seq_lib::group_filter_ensures;
    }
}

} // verus!

verus! {

/// A normalized nick is the trimmed, lowercased request with exactly its `-`, alphanumeric
/// and numeric characters kept, in order: no other character (such as `.`) stays, and none
/// of those is dropped.
pub proof fn law_nick_keeps_only_dash_and_alphanumerics(raw: Seq<char>)
    ensures
        normalize_nick_spec(raw) == lowercase(trim_spec(raw)).filter(
            |c: char| c == '-' || is_alphanumeric(c) || is_numeric(c),
        ),
        forall|i: int|
            0 <= i < normalize_nick_spec(raw).len() ==> {
                let c = #[trigger] normalize_nick_spec(raw)[i];
                c == '-' || is_alphanumeric(c) || is_numeric(c)
            },
{
    let low = lowercase(trim_spec(raw));
    assert(normalize_nick_spec(raw) == low.filter(|c: char| c == '-' || is_alphanumeric(c) || is_numeric(c))) by {
        assert((|c: char| nick_keeps(c)) =~= (|c: char| c == '-' || is_alphanumeric(c) || is_numeric(c)));
    }
    law_nick_characters(raw);
}

} // verus!
