use vstd::prelude::*;
use vstd::string::StringExecFns;
use crate::text::{base9_spec, push_char, to_base9, base_digits, digit_char};

verus! {

broadcast use vstd::string::group_string_axioms;

/// The smallest number drawn for a code: 9 to the 6th, whose base-9 text is `1000000`.
pub const SMS_CODE_DRAW_MIN: i32 = 531441;

/// One past the largest number drawn for a code: twice 9 to the 6th, less one.
pub const SMS_CODE_DRAW_END: i32 = 1062881;

/// How long a sent code stays valid, in seconds.
pub const SMS_CODE_TTL_SECONDS: i64 = 180;

/// How long the count of codes sent to one address is kept, in seconds.
pub const SMS_SENDING_WINDOW_SECONDS: i64 = 3600;

/// Above this many codes in the window, the tenant endpoint refuses to send another.
pub const TENANT_SMS_SENDING_LIMIT: i32 = 5;

/// The code that the tenant endpoint stores in place of a random one.
pub open spec fn tenant_sms_code_spec() -> Seq<char> {
    seq!['1', '2', '3', '4', '5', '6']
}

/// A `4` reads as `9`; other characters stay.
pub open spec fn four_to_nine(c: char) -> char {
    if c == '4' {
        '9'
    } else {
        c
    }
}

/// The code made from a drawn number: its base-9 text without the first digit,
/// each `4` replaced by `9`.
pub open spec fn sms_code_spec(drawn: int) -> Seq<char> {
    base9_spec(drawn).drop_first().map_values(|c: char| four_to_nine(c))
}

/// The key under which the code sent to `tel` is kept.
pub open spec fn sms_code_key_spec(tel: Seq<char>) -> Seq<char> {
    "sms_code-"@ + tel
}

/// The key under which the number of codes sent to a client address is kept.
pub open spec fn sms_sending_times_key_spec(client_ip: Seq<char>) -> Seq<char> {
    "sms_sending_times-"@ + client_ip
}

/// The template parameter of the message that carries `code`: `{"code":"<code>"}`.
pub open spec fn sms_template_param_spec(code: Seq<char>) -> Seq<char> {
    "{\"code\":\""@ + code + "\"}"@
}

/// rand's `Rng::gen_range(low..high)` on `rand::thread_rng()`: some value with
/// `low <= r < high`. Which value comes out is chance, and nothing more is claimed.
#[verifier::external_body]
fn random_in_range(low: i32, high: i32) -> (r: i32)
    requires
        low < high,
    ensures
        low <= r < high,
{
    rand::Rng::gen_range(&mut rand::thread_rng(), low..high)
}

/// The code made from a drawn number (see `sms_code_spec`).
pub fn sms_code_from(drawn: i32) -> (code: String)
    requires
        drawn > 0,
    ensures
        code@ == sms_code_spec(drawn as int),
{
    let digits = to_base9(drawn);
    let ghost all = digits@;
    proof {
        assert(all.len() > 0) by {
            assert(base_digits(drawn as nat, 9) == base_digits((drawn / 9) as nat, 9).push(
                digit_char((drawn % 9) as nat),
            ));
        }
    }
    let mut code = String::new();
    let mut at_first = true;
    for c in it: digits.as_str().chars()
        invariant
            it.seq() == all,
            at_first == (it.index() == 0),
            all.len() > 0,
            it.index() == 0 ==> code@.len() == 0,
            it.index() > 0 ==> code@ == all.subrange(1, it.index() as int).map_values(
                |c: char| four_to_nine(c),
            ),
    {
        let ghost k = it.index();
        if !at_first {
            assert(all.subrange(1, k + 1) == all.subrange(1, k as int).push(c));
            push_char(&mut code, four_to_nine_exec(c));
        } else {
            assert(all.subrange(1, 1).len() == 0);
        }
        at_first = false;
    }
    assert(all.subrange(1, all.len() as int) == all.drop_first());
    code
}

fn four_to_nine_exec(c: char) -> (r: char)
    ensures
        r == four_to_nine(c),
{
    if c == '4' {
        '9'
    } else {
        c
    }
}

/// Draws a number in `[SMS_CODE_DRAW_MIN, SMS_CODE_DRAW_END)` and makes a code of it:
/// six characters, each a digit other than `4`.
pub fn generate_sms_code() -> (code: String)
    ensures
        exists|drawn: int|
            SMS_CODE_DRAW_MIN <= drawn < SMS_CODE_DRAW_END && code@ == sms_code_spec(drawn),
        code@.len() == 6,
        forall|i: int| 0 <= i < 6 ==> is_code_digit(#[trigger] code@[i]),
{
    let base: i32 = 9;
    let min: i32 = base * base * base * base * base * base;
    let max: i32 = min * 2 - 1;
    let drawn = random_in_range(min, max);
    let code = sms_code_from(drawn);
    proof {
        law_sms_code_shape(drawn as int);
    }
    code
}

/// A digit of a code: `0` to `9` but not `4`.
pub open spec fn is_code_digit(c: char) -> bool {
    '0' <= c <= '9' && c != '4'
}

/// Every number that can be drawn makes a code of six digits, none of them `4`.
pub proof fn law_sms_code_shape(drawn: int)
    requires
        SMS_CODE_DRAW_MIN <= drawn < SMS_CODE_DRAW_END,
    ensures
        sms_code_spec(drawn).len() == 6,
        forall|i: int| 0 <= i < 6 ==> is_code_digit(#[trigger] sms_code_spec(drawn)[i]),
{
    crate::text::law_base9_round_trip(drawn);
    let n = drawn as nat;
    reveal_with_fuel(base_digits, 8);
    assert(base_digits(n, 9).len() == 7);
    let s = base9_spec(drawn);
    assert forall|i: int| 0 <= i < 6 implies is_code_digit(#[trigger] sms_code_spec(drawn)[i]) by {
        assert(sms_code_spec(drawn)[i] == four_to_nine(s[i + 1]));
        assert('0' <= s[i + 1] <= '8');
    }
}

/// The key under which the code sent to `tel` is kept.
pub fn sms_code_key(tel: &str) -> (key: String)
    ensures
        key@ == sms_code_key_spec(tel@),
{
    let mut key = String::from_str("sms_code-");
    key.append(tel);
    key
}

/// The key under which the number of codes sent to a client address is kept.
pub fn sms_sending_times_key(client_ip: &str) -> (key: String)
    ensures
        key@ == sms_sending_times_key_spec(client_ip@),
{
    let mut key = String::from_str("sms_sending_times-");
    key.append(client_ip);
    key
}

/// The template parameter of the message that carries `code`.
pub fn sms_template_param(code: &str) -> (param: String)
    ensures
        param@ == sms_template_param_spec(code@),
{
    let mut param = String::from_str("{\"code\":\"");
    param.append(code);
    param.append("\"}");
    param
}

/// The code that the tenant endpoint stores: always `123456`.
pub fn tenant_sms_code() -> (code: String)
    ensures
        code@ == tenant_sms_code_spec(),
{
    let code = String::from_str("123456");
    proof {
        reveal_strlit("123456");
    }
    code
}

/// A code given by a client is accepted exactly when a code is stored for its number
/// (the stored text is not empty) and the two are the same.
pub fn sms_code_accepted(stored: &str, given: &str) -> (accepted: bool)
    ensures
        accepted == (stored@.len() > 0 && stored@ == given@),
{
    if stored.is_empty() {
        false
    } else {
        crate::text::same_text(stored, given)
    }
}

/// The tenant endpoint sends a code only while at most `TENANT_SMS_SENDING_LIMIT` codes
/// have been sent to the address in the window.
pub fn tenant_sms_sending_allowed(times_sent: i32) -> (allowed: bool)
    ensures
        allowed == (times_sent <= TENANT_SMS_SENDING_LIMIT),
{
    times_sent <= TENANT_SMS_SENDING_LIMIT
}

/// Different numbers keep their codes under different keys, and different addresses
/// their counts.
pub proof fn law_keys_are_distinct(a: Seq<char>, b: Seq<char>)
    ensures
        sms_code_key_spec(a) == sms_code_key_spec(b) ==> a == b,
        sms_sending_times_key_spec(a) == sms_sending_times_key_spec(b) ==> a == b,
{
    let p = "sms_code-"@;
    let q = "sms_sending_times-"@;
    if sms_code_key_spec(a) == sms_code_key_spec(b) {
        assert((p + a).subrange(p.len() as int, (p + a).len() as int) == a);
        assert((p + b).subrange(p.len() as int, (p + b).len() as int) == b);
    }
    if sms_sending_times_key_spec(a) == sms_sending_times_key_spec(b) {
        assert((q + a).subrange(q.len() as int, (q + a).len() as int) == a);
        assert((q + b).subrange(q.len() as int, (q + b).len() as int) == b);
    }
}

} // verus!
