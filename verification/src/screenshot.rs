//! Naming of captured frames.
//!
//! A capture is written under a name that embeds the performance-counter
//! reading of the moment it was requested. The counter reading never
//! repeats within a run, and distinct readings give distinct names, so
//! captures never overwrite one another.

use vstd::prelude::*;
use vstd::string::StringExecFns;

verus! {

/// The character for decimal digit `d`.
pub open spec fn digit_char(d: nat) -> char
    recommends
        d < 10,
{
    ((48 + d) as u8) as char
}

/// The decimal digits of `n`, most significant first, no leading zeros
/// (a single zero for zero).
pub open spec fn decimal_digits(n: nat) -> Seq<char>
    decreases n,
{
    if n < 10 {
        seq![digit_char(n)]
    } else {
        decimal_digits(n / 10).push(digit_char(n % 10))
    }
}

/// The name a capture at counter reading `t_ns` is written under.
pub open spec fn spec_screenshot_filename(t_ns: u64) -> Seq<char> {
    "az_shot_"@ + decimal_digits(t_ns as nat) + ".png"@
}

/// The one-character string for decimal digit `d`.
fn digit_str(d: u64) -> (s: &'static str)
    requires
        d < 10,
    ensures
        s@ == seq![digit_char(d as nat)],
{
    proof {
        reveal_strlit("0");
        reveal_strlit("1");
        reveal_strlit("2");
        reveal_strlit("3");
        reveal_strlit("4");
        reveal_strlit("5");
        reveal_strlit("6");
        reveal_strlit("7");
        reveal_strlit("8");
        reveal_strlit("9");
    }
    match d {
        0 => "0",
        1 => "1",
        2 => "2",
        3 => "3",
        4 => "4",
        5 => "5",
        6 => "6",
        7 => "7",
        8 => "8",
        _ => "9",
    }
}

/// Append the decimal digits of `n` to `s`.
fn push_decimal(s: &mut String, n: u64)
    ensures
        final(s)@ == old(s)@ + decimal_digits(n as nat),
    decreases n,
{
    if n >= 10 {
        push_decimal(s, n / 10);
    }
    s.append(digit_str(n % 10));
    proof {
        if n < 10 {
            assert(n % 10 == n);
        }
        assert(s@ =~= old(s)@ + decimal_digits(n as nat));
    }
}

/// The file name for a capture requested at counter reading `t_ns`:
/// `az_shot_`, the decimal reading, `.png`.
pub fn screenshot_filename(t_ns: u64) -> (name: String)
    ensures
        name@ == spec_screenshot_filename(t_ns),
{
    let mut name = "az_shot_".to_owned();
    push_decimal(&mut name, t_ns);
    name.append(".png");
    proof {
        assert(name@ =~= spec_screenshot_filename(t_ns));
    }
    name
}

/// Digit sequences have at least one digit; numbers of ten and beyond have
/// at least two.
pub proof fn lemma_decimal_digits_len(n: nat)
    ensures
        decimal_digits(n).len() >= 1,
        n >= 10 ==> decimal_digits(n).len() >= 2,
    decreases n,
{
    if n >= 10 {
        lemma_decimal_digits_len(n / 10);
    }
}

/// Distinct numbers have distinct digit sequences.
pub proof fn lemma_decimal_digits_injective(a: nat, b: nat)
    requires
        a != b,
    ensures
        decimal_digits(a) != decimal_digits(b),
    decreases a + b,
{
    lemma_decimal_digits_len(a);
    lemma_decimal_digits_len(b);
    if a < 10 && b < 10 {
        assert(decimal_digits(a)[0] != decimal_digits(b)[0]);
    } else if a < 10 {
        assert(decimal_digits(a).len() < decimal_digits(b).len());
    } else if b < 10 {
        assert(decimal_digits(a).len() > decimal_digits(b).len());
    } else {
        if a % 10 != b % 10 {
            assert(decimal_digits(a).last() != decimal_digits(b).last());
        } else {
            assert(a / 10 != b / 10) by {
                vstd::arithmetic::div_mod::lemma_fundamental_div_mod(a as int, 10);
                vstd::arithmetic::div_mod::lemma_fundamental_div_mod(b as int, 10);
            }
            lemma_decimal_digits_injective(a / 10, b / 10);
            if decimal_digits(a) == decimal_digits(b) {
                assert(decimal_digits(a).drop_last() == decimal_digits(b).drop_last());
                assert(decimal_digits(a / 10) =~= decimal_digits(a).drop_last());
                assert(decimal_digits(b / 10) =~= decimal_digits(b).drop_last());
            }
        }
    }
}

/// Captures at distinct counter readings go to distinct files.
pub proof fn lemma_screenshot_filenames_distinct(t1: u64, t2: u64)
    requires
        t1 != t2,
    ensures
        spec_screenshot_filename(t1) != spec_screenshot_filename(t2),
{
    lemma_decimal_digits_injective(t1 as nat, t2 as nat);
    lemma_decimal_digits_len(t1 as nat);
    lemma_decimal_digits_len(t2 as nat);
    let p = "az_shot_"@;
    let s = ".png"@;
    let d1 = decimal_digits(t1 as nat);
    let d2 = decimal_digits(t2 as nat);
    if spec_screenshot_filename(t1) == spec_screenshot_filename(t2) {
        assert(spec_screenshot_filename(t1).len() == p.len() + d1.len() + s.len());
        assert(spec_screenshot_filename(t2).len() == p.len() + d2.len() + s.len());
        assert(d1.len() == d2.len());
        assert forall|i: int| 0 <= i < d1.len() implies d1[i] == d2[i] by {
            assert(spec_screenshot_filename(t1)[p.len() + i] == d1[i]);
            assert(spec_screenshot_filename(t2)[p.len() + i] == d2[i]);
        }
        assert(d1 =~= d2);
    }
}

} // verus!
