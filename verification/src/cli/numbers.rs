//! Decimal numbers and launch modes as the command line writes them.
use vstd::prelude::*;
use crate::error::{PortCellarError, Result};
use crate::text::{all_digits, chars_of, concat, concat3, is_digit, same_text};
use crate::types::LaunchMode;

verus! {

/// The value of a string of decimal digits.
pub open spec fn decimal_value(s: Seq<char>) -> int
    decreases s.len(),
{
    if s.len() == 0 {
        0
    } else {
        decimal_value(s.drop_last()) * 10 + (s.last() as int - '0' as int)
    }
}

/// The digits of an unsigned decimal, without its optional leading `+`.
pub open spec fn unsigned_digits(s: Seq<char>) -> Seq<char> {
    if s.len() > 0 && s[0] == '+' { s.drop_first() } else { s }
}

/// `u64::from_str`: an optional `+` and at least one digit, with a value that fits.
pub open spec fn parsed_u64(s: Seq<char>) -> Option<u64> {
    let d = unsigned_digits(s);
    if d.len() > 0 && all_digits(d) && decimal_value(d) <= u64::MAX {
        Some(decimal_value(d) as u64)
    } else {
        None
    }
}

proof fn lemma_decimal_nonneg_monotone(s: Seq<char>)
    requires all_digits(s),
    ensures
        decimal_value(s) >= 0,
        s.len() > 0 ==> decimal_value(s) >= decimal_value(s.drop_last()),
    decreases s.len(),
{
    if s.len() > 0 {
        assert(all_digits(s.drop_last())) by {
            assert forall|i: int| 0 <= i < s.drop_last().len() implies is_digit(#[trigger] s.drop_last()[i]) by {
                assert(s.drop_last()[i] == s[i]);
            }
        }
        lemma_decimal_nonneg_monotone(s.drop_last());
        assert(is_digit(s[s.len() - 1]));
    }
}

proof fn lemma_decimal_prefix_bound(s: Seq<char>, i: int)
    requires all_digits(s), 0 <= i <= s.len(),
    ensures decimal_value(s.take(i)) <= decimal_value(s),
    decreases s.len() - i,
{
    if i < s.len() {
        lemma_decimal_prefix_bound(s, i + 1);
        let t = s.take(i + 1);
        assert(t.drop_last() =~= s.take(i));
        assert(all_digits(t)) by {
            assert forall|k: int| 0 <= k < t.len() implies is_digit(#[trigger] t[k]) by { assert(t[k] == s[k]); }
        }
        lemma_decimal_nonneg_monotone(t);
    } else {
        assert(s.take(i) =~= s);
    }
}

/// `u32::from_str`: an optional `+` and at least one digit, with a value that fits.
pub open spec fn parsed_u32(s: Seq<char>) -> Option<u32> {
    match parsed_u64(s) {
        Some(v) => if v <= u32::MAX { Some(v as u32) } else { None },
        None => None,
    }
}

/// `u32::from_str` on `value`.
pub fn parse_u32_text(value: &str) -> (r: Option<u32>)
    ensures r == parsed_u32(value@),
{
    match parse_u64_text(value) {
        Some(v) => if v <= 0xffff_ffff { Some(v as u32) } else { None },
        None => None,
    }
}

/// `u64::from_str` on `value`.
pub fn parse_u64_text(value: &str) -> (r: Option<u64>)
    ensures r == parsed_u64(value@),
{
    let v = chars_of(value);
    let start: usize = if v.len() > 0 && v[0] == '+' { 1 } else { 0 };
    let ghost d = unsigned_digits(value@);
    assert(d =~= v@.skip(start as int));
    if start >= v.len() {
        return None;
    }
    let mut acc: u64 = 0;
    let mut overflow = false;
    let mut i: usize = start;
    while i < v.len()
        invariant
            v@ == value@,
            start <= i <= v.len(),
            d == v@.skip(start as int),
            d == unsigned_digits(value@),
            all_digits(d.take(i - start)),
            !overflow ==> acc == decimal_value(d.take(i - start)),
            overflow ==> decimal_value(d.take(i - start)) > u64::MAX || !all_digits(d),
        decreases v.len() - i,
    {
        let c = v[i];
        assert(d.take(i + 1 - start).drop_last() =~= d.take(i - start));
        assert(d[i - start] == c);
        if !('0' <= c && c <= '9') {
            proof { assert(!is_digit(d[i - start])); }
            return None;
        }
        proof {
            assert forall|k: int| 0 <= k < d.take(i + 1 - start).len() implies is_digit(#[trigger] d.take(i + 1 - start)[k]) by {
                if k < i - start { assert(d.take(i + 1 - start)[k] == d.take(i - start)[k]); }
            }
        }
        let digit = (c as u32 - '0' as u32) as u64;
        if !overflow {
            if acc > (u64::MAX - digit) / 10 {
                overflow = true;
                proof {
                    assert(acc * 10 + digit > u64::MAX) by (nonlinear_arith)
                        requires acc > (u64::MAX - digit) / 10, digit <= 9;
                }
            } else {
                proof {
                    assert(acc * 10 + digit <= u64::MAX) by (nonlinear_arith)
                        requires acc <= (u64::MAX - digit) / 10, digit <= 9;
                }
                acc = acc * 10 + digit;
            }
        } else {
            proof {
                let t = d.take(i + 1 - start);
                if all_digits(d) {
                    lemma_decimal_nonneg_monotone(t);
                }
            }
        }
        i = i + 1;
    }
    assert(d.take(i - start) =~= d);
    if overflow {
        return None;
    }
    Some(acc)
}

/// `value` as a number of seconds.
pub fn parse_timeout(value: &str) -> (r: Result<u64>)
    ensures
        match r {
            Ok(n) => parsed_u64(value@) == Some(n),
            Err(e) => parsed_u64(value@) is None && e.text() == "invalid timeout seconds: "@ + value@,
        },
{
    match parse_u64_text(value) {
        Some(n) => Ok(n),
        None => Err(PortCellarError::message(concat("invalid timeout seconds: ", value))),
    }
}

/// `value` as the number called `name`.
pub fn parse_u64(value: &str, name: &str) -> (r: Result<u64>)
    ensures
        match r {
            Ok(n) => parsed_u64(value@) == Some(n),
            Err(e) => parsed_u64(value@) is None && e.text() == "invalid "@ + name@ + ": "@ + value@,
        },
{
    match parse_u64_text(value) {
        Some(n) => Ok(n),
        None => Err(PortCellarError::message(concat(concat3("invalid ", name, ": ").as_str(), value))),
    }
}

/// The launch mode a command-line name selects.
pub open spec fn mode_named(value: Seq<char>) -> Option<LaunchMode> {
    if value == "steam"@ { Some(LaunchMode::Steam) }
    else if value == "native"@ { Some(LaunchMode::Native) }
    else if value == "direct"@ || value == "native-direct"@ { Some(LaunchMode::Direct) }
    else if value == "wine-steam"@ || value == "wine"@ { Some(LaunchMode::WineSteam) }
    else if value == "wine-direct"@ { Some(LaunchMode::WineDirect) }
    else { None }
}

/// The launch mode named `value`.
pub fn parse_mode(value: &str) -> (r: Result<LaunchMode>)
    ensures
        match r {
            Ok(m) => mode_named(value@) == Some(m),
            Err(e) => mode_named(value@) is None && e.text() == "unsupported launch mode: "@ + value@,
        },
{
    proof {
        reveal_strlit("steam");
        reveal_strlit("native");
        reveal_strlit("direct");
        reveal_strlit("native-direct");
        reveal_strlit("wine-steam");
        reveal_strlit("wine");
        reveal_strlit("wine-direct");
    }
    if same_text(value, "steam") { return Ok(LaunchMode::Steam); }
    if same_text(value, "native") { return Ok(LaunchMode::Native); }
    if same_text(value, "direct") || same_text(value, "native-direct") { return Ok(LaunchMode::Direct); }
    if same_text(value, "wine-steam") || same_text(value, "wine") { return Ok(LaunchMode::WineSteam); }
    if same_text(value, "wine-direct") { return Ok(LaunchMode::WineDirect); }
    Err(PortCellarError::message(concat("unsupported launch mode: ", value)))
}

} // verus!
