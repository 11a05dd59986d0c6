use vstd::prelude::*;

pub mod request;
pub mod screencast;
pub mod session;

verus! {

/// Relies on rand::random: a uniformly drawn value. Nothing is promised of
/// the result; callers state what holds of every outcome.
#[verifier::external_body]
fn random_u32() -> u32 {
    rand::random::<u32>()
}

/// The decimal digit character for `d`.
pub open spec fn spec_digit_char(d: nat) -> char {
    if d == 0 {
        '0'
    } else if d == 1 {
        '1'
    } else if d == 2 {
        '2'
    } else if d == 3 {
        '3'
    } else if d == 4 {
        '4'
    } else if d == 5 {
        '5'
    } else if d == 6 {
        '6'
    } else if d == 7 {
        '7'
    } else if d == 8 {
        '8'
    } else {
        '9'
    }
}

/// The decimal digit sequence of `n`, most significant digit first, without
/// leading zeros (a single zero for 0).
pub open spec fn spec_decimal(n: nat) -> Seq<char>
    decreases n,
{
    if n < 10 {
        seq![spec_digit_char(n)]
    } else {
        spec_decimal(n / 10).push(spec_digit_char(n % 10))
    }
}

/// The one-character string of a decimal digit.
fn digit_str(d: u32) -> (r: &'static str)
    requires
        d < 10,
    ensures
        r@ == seq![spec_digit_char(d as nat)],
{
    proof {
        reveal_strlit("0");
        reveal_strlit("1");
        reveal_strlit("2");
        reveal_strlit("3");
        reveal_strlit("4");
        reveal_strlit("5");
        reveal_strlit("6");
        reveal_strlit("7");
        reveal_strlit("8");
        reveal_strlit("9");
    }
    let r: &'static str = match d {
        0 => "0",
        1 => "1",
        2 => "2",
        3 => "3",
        4 => "4",
        5 => "5",
        6 => "6",
        7 => "7",
        8 => "8",
        _ => "9",
    };
    proof {
        assert(r@ =~= seq![spec_digit_char(d as nat)]);
    }
    r
}

/// Renders `n` in decimal.
pub fn u32_decimal(n: u32) -> (s: String)
    ensures
        s@ == spec_decimal(n as nat),
    decreases n,
{
    if n < 10 {
        String::from_str(digit_str(n))
    } else {
        let mut s = u32_decimal(n / 10);
        s.append(digit_str(n % 10));
        proof {
            assert(s@ =~= spec_decimal(n as nat));
        }
        s
    }
}

/// A token is the fixed prefix followed by some decimal rendering of a
/// 32-bit value.
pub open spec fn spec_is_token(s: Seq<char>, prefix: Seq<char>) -> bool {
    exists|n: u32| s == prefix + spec_decimal(n as nat)
}

/// A fresh single-use request token: the prefix and a random 32-bit value in
/// decimal. Uniqueness is statistical, not guaranteed.
pub fn generate_token_handle() -> (r: String)
    ensures
        spec_is_token(r@, "xcap_"@),
{
    let n: u32 = random_u32();
    let mut s = String::from_str("xcap_");
    s.append(u32_decimal(n).as_str());
    proof {
        assert(s@ == "xcap_"@ + spec_decimal(n as nat));
    }
    s
}

/// A fresh session token, distinguished from request tokens by its prefix.
pub fn generate_session_handle() -> (r: String)
    ensures
        spec_is_token(r@, "xcap_sess_"@),
{
    let n: u32 = random_u32();
    let mut s = String::from_str("xcap_sess_");
    s.append(u32_decimal(n).as_str());
    proof {
        assert(s@ == "xcap_sess_"@ + spec_decimal(n as nat));
    }
    s
}

/// A character the bus allows inside one member of an object path.
pub open spec fn is_path_member_char(c: char) -> bool {
    ('a' <= c && c <= 'z') || ('A' <= c && c <= 'Z') || ('0' <= c && c <= '9') || c == '_'
}

/// Law: a decimal rendering holds digit characters only.
pub proof fn lemma_decimal_chars(n: nat)
    ensures
        forall|k: int|
            0 <= k < spec_decimal(n).len() ==> is_path_member_char(#[trigger] spec_decimal(n)[k]),
    decreases n,
{
    if n < 10 {
    } else {
        lemma_decimal_chars(n / 10);
        let s = spec_decimal(n / 10);
        let c = spec_digit_char(n % 10);
        assert forall|k: int|
            0 <= k < spec_decimal(n).len() implies is_path_member_char(
            #[trigger] spec_decimal(n)[k],
        ) by {
            if k < s.len() {
                assert(spec_decimal(n)[k] == s[k]);
            } else {
                assert(spec_decimal(n)[k] == c);
            }
        };
    }
}

/// Law: every character of a generated token may stand in an object-path
/// member, so the request and session paths derived from a token are never
/// invalidated by it.
pub proof fn lemma_token_chars_are_path_chars(s: Seq<char>, prefix: Seq<char>)
    requires
        spec_is_token(s, prefix),
        prefix == "xcap_"@ || prefix == "xcap_sess_"@,
    ensures
        forall|k: int| 0 <= k < s.len() ==> is_path_member_char(#[trigger] s[k]),
{
    let n = choose|n: u32| s == prefix + spec_decimal(n as nat);
    lemma_decimal_chars(n as nat);
    reveal_strlit("xcap_");
    reveal_strlit("xcap_sess_");
    assert forall|k: int| 0 <= k < s.len() implies is_path_member_char(#[trigger] s[k]) by {
        if k < prefix.len() {
            assert(s[k] == prefix[k]);
        } else {
            assert(s[k] == spec_decimal(n as nat)[k - prefix.len()]);
        }
    };
}

} // verus!
