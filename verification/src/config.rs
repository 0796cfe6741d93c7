//! Startup configuration decisions: whether the bot secret read from the
//! environment is usable, the diagnostics for a missing or blank secret,
//! and parsing of the guild identifier. Reading the environment itself is
//! process plumbing and stays outside the library.

use vstd::prelude::*;
use vstd::string::StrSliceExecFns;
use vstd::string::StringExecFns;

verus! {

/// The characters that count as whitespace when deciding whether a
/// secret is blank: the Unicode White_Space set, the same characters
/// that `str::trim` removes.
pub open spec fn is_space_char(c: char) -> bool {
    let v = c as u32;
    v == 0x20 || (0x09 <= v && v <= 0x0d) || v == 0x85 || v == 0xa0 || v == 0x1680 || (0x2000
        <= v && v <= 0x200a) || v == 0x2028 || v == 0x2029 || v == 0x202f || v == 0x205f || v
        == 0x3000
}

/// Whether the character is whitespace, as `is_space_char` has it.
fn char_is_space(c: char) -> (r: bool)
    ensures
        r == is_space_char(c),
{
    let v: u32 = c as u32;
    v == 0x20 || (0x09 <= v && v <= 0x0d) || v == 0x85 || v == 0xa0 || v == 0x1680 || (0x2000
        <= v && v <= 0x200a) || v == 0x2028 || v == 0x2029 || v == 0x202f || v == 0x205f || v
        == 0x3000
}

/// A string is blank when no character of it is anything but whitespace;
/// the empty string is blank.
pub open spec fn is_blank(s: Seq<char>) -> bool {
    forall|i: int| 0 <= i < s.len() ==> is_space_char(s[i])
}

/// Accepts a secret exactly when it holds at least one non-whitespace
/// character.
pub fn secret_is_usable(secret: &str) -> (ok: bool)
    ensures
        ok == !is_blank(secret@),
{
    let len = secret.unicode_len();
    let mut i: usize = 0;
    while i < len
        invariant
            i <= len,
            len == secret@.len(),
            forall|j: int| 0 <= j < i ==> is_space_char(secret@[j]),
        decreases len - i,
    {
        let c = secret.get_char(i);
        if !char_is_space(c) {
            assert(!is_space_char(secret@[i as int]));
            return true;
        }
        i += 1;
    }
    false
}

/// Keeps a secret that is usable and rejects a blank one, as the startup
/// sequence requires.
pub fn check_secret(secret: String) -> (r: Option<String>)
    ensures
        match r {
            Some(s) => s@ == secret@ && !is_blank(secret@),
            None => is_blank(secret@),
        },
{
    if secret_is_usable(secret.as_str()) {
        Some(secret)
    } else {
        None
    }
}

/// The environment variable that must hold the bot secret.
pub fn secret_env_key() -> (k: String)
    ensures
        k@ == "UNVU_BOT_SECRET"@,
{
    String::from_str("UNVU_BOT_SECRET")
}

/// The environment variable that must hold the guild identifier.
pub fn guild_env_key() -> (k: String)
    ensures
        k@ == "GUILD_ID"@,
{
    String::from_str("GUILD_ID")
}

/// The diagnostic for a secret that is set but empty or whitespace-only;
/// it names the variable at fault.
pub fn blank_secret_diagnostic() -> (m: String)
    ensures
        m@ == "environment variable UNVU_BOT_SECRET is empty or whitespace"@,
{
    String::from_str("environment variable UNVU_BOT_SECRET is empty or whitespace")
}

/// The diagnostic for a secret variable that is not set at all; it names
/// the variable at fault.
pub fn missing_secret_diagnostic() -> (m: String)
    ensures
        m@ == "UNVU_BOT_SECRET has to be set"@,
{
    String::from_str("UNVU_BOT_SECRET has to be set")
}

/// Whether a character is a decimal digit.
pub open spec fn is_digit(c: char) -> bool {
    '0' as u32 <= c as u32 && c as u32 <= '9' as u32
}

/// The numeric value of a decimal digit.
pub open spec fn digit_value(c: char) -> nat {
    (c as u32 - '0' as u32) as nat
}

/// Whether every character of the sequence is a decimal digit.
pub open spec fn all_digits(s: Seq<char>) -> bool {
    forall|i: int| 0 <= i < s.len() ==> is_digit(s[i])
}

/// The value of a sequence of decimal digits, most significant first.
pub open spec fn digits_value(s: Seq<char>) -> nat
    decreases s.len(),
{
    if s.len() == 0 {
        0
    } else {
        digits_value(s.drop_last()) * 10 + digit_value(s.last())
    }
}

/// The digit part of a candidate identifier: the whole string, or what
/// follows a single leading plus sign.
pub open spec fn digit_part(s: Seq<char>) -> Seq<char> {
    if s.len() > 0 && s[0] == '+' {
        s.drop_first()
    } else {
        s
    }
}

/// A string parses as a guild identifier when its digit part is one or
/// more decimal digits whose value fits in 64 bits, as the standard
/// unsigned decimal syntax has it.
pub open spec fn is_guild_id(s: Seq<char>) -> bool {
    &&& digit_part(s).len() > 0
    &&& all_digits(digit_part(s))
    &&& digits_value(digit_part(s)) <= u64::MAX
}

/// The value of a digit sequence is no smaller on the whole sequence than
/// on any prefix of it.
proof fn lemma_digits_value_prefix(s: Seq<char>, k: int)
    requires
        0 <= k <= s.len(),
    ensures
        digits_value(s.take(k)) <= digits_value(s),
    decreases s.len() - k,
{
    if k < s.len() {
        assert(s.take(k + 1).drop_last() =~= s.take(k));
        assert(s.take(k + 1).last() == s[k]);
        lemma_digits_value_prefix(s, k + 1);
    } else {
        assert(s.take(k) =~= s);
    }
}

/// Parses a decimal guild identifier, accepting exactly the strings whose
/// digit part is nonempty, all digits, and within the 64-bit range.
pub fn parse_guild_id(s: &str) -> (r: Option<u64>)
    ensures
        match r {
            Some(n) => is_guild_id(s@) && n == digits_value(digit_part(s@)),
            None => !is_guild_id(s@),
        },
{
    let len = s.unicode_len();
    let mut start: usize = 0;
    if len > 0 && s.get_char(0) == '+' {
        start = 1;
    }
    let ghost dp = digit_part(s@);
    assert(dp.len() == len - start);
    assert(forall|j: int| 0 <= j < dp.len() ==> dp[j] == s@[j + start]);
    if start >= len {
        return None;
    }
    let mut value: u64 = 0;
    let mut i: usize = start;
    while i < len
        invariant
            start <= i <= len,
            len == s@.len(),
            dp == digit_part(s@),
            dp.len() == len - start,
            forall|j: int| 0 <= j < dp.len() ==> dp[j] == s@[j + start],
            all_digits(dp.take(i - start)),
            value == digits_value(dp.take(i - start)),
        decreases len - i,
    {
        let c = s.get_char(i);
        let cv: u32 = c as u32;
        if cv < 48 || cv > 57 {
            assert(!is_digit(dp[i - start]));
            return None;
        }
        let d: u64 = (cv - 48) as u64;
        assert(is_digit(dp[i - start]) && d == digit_value(dp[i - start]));
        if value > (u64::MAX - d) / 10 {
            proof {
                let k = i - start;
                assert(dp.take(k + 1).drop_last() =~= dp.take(k));
                assert(dp.take(k + 1).last() == dp[k]);
                assert(digits_value(dp.take(k + 1)) == value * 10 + d);
                assert(value * 10 + d > u64::MAX) by {
                    let q = (u64::MAX - d) as int / 10;
                    assert(value >= q + 1);
                    assert(q * 10 + 9 >= u64::MAX - d) by (nonlinear_arith)
                        requires
                            q == (u64::MAX - d) as int / 10,
                            0 <= d <= 9,
                    ;
                    assert(value * 10 >= (q + 1) * 10) by (nonlinear_arith)
                        requires
                            value >= q + 1,
                    ;
                }
                lemma_digits_value_prefix(dp, k + 1);
                assert(digits_value(dp) > u64::MAX);
            }
            return None;
        }
        value = value * 10 + d;
        proof {
            let k = i - start;
            assert(dp.take(k + 1).drop_last() =~= dp.take(k));
            assert(dp.take(k + 1).last() == dp[k]);
        }
        i += 1;
    }
    proof {
        assert(dp.take(len - start) =~= dp);
    }
    Some(value)
}

} // verus!
