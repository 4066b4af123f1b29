use vstd::prelude::*;

use crate::state::spec_valid_tier;

verus! {

/// The decimal digit character for a value in 0..=9.
pub open spec fn spec_digit_char(d: int) -> char {
    if d == 0 {
        '0'
    } else if d == 1 {
        '1'
    } else if d == 2 {
        '2'
    } else if d == 3 {
        '3'
    } else if d == 4 {
        '4'
    } else if d == 5 {
        '5'
    } else if d == 6 {
        '6'
    } else if d == 7 {
        '7'
    } else if d == 8 {
        '8'
    } else {
        '9'
    }
}

/// The decimal digits of `n`, most significant first, with no leading zero
/// except for `n == 0` itself.
pub open spec fn spec_dec_digits(n: nat) -> Seq<char>
    decreases n,
{
    if n < 10 {
        seq![spec_digit_char(n as int)]
    } else {
        spec_dec_digits(n / 10) + seq![spec_digit_char((n % 10) as int)]
    }
}

/// Renders `n` in decimal.
pub fn u64_to_dec_string(n: u64) -> (s: String)
    ensures
        s@ == spec_dec_digits(n as nat),
    decreases n,
{
    let digit: &'static str = match n % 10 {
        0 => "0",
        1 => "1",
        2 => "2",
        3 => "3",
        4 => "4",
        5 => "5",
        6 => "6",
        7 => "7",
        8 => "8",
        _ => "9",
    };
    proof {
        reveal_strlit("0");
        reveal_strlit("1");
        reveal_strlit("2");
        reveal_strlit("3");
        reveal_strlit("4");
        reveal_strlit("5");
        reveal_strlit("6");
        reveal_strlit("7");
        reveal_strlit("8");
        reveal_strlit("9");
        assert(digit@ =~= seq![spec_digit_char((n % 10) as int)]);
    }
    if n < 10 {
        let s = String::from_str(digit);
        proof {
            assert(s@ =~= spec_dec_digits(n as nat));
        }
        s
    } else {
        let prefix = u64_to_dec_string(n / 10);
        let s = prefix.concat(digit);
        proof {
            assert(s@ =~= spec_dec_digits(n as nat));
        }
        s
    }
}

/// The display name of a tier given by its wire code.
pub open spec fn spec_tier_name(tier: u8) -> Seq<char> {
    if tier == 0 {
        "Bronze"@
    } else if tier == 1 {
        "Silver"@
    } else {
        "Gold"@
    }
}

/// The human-readable label of a minted credential's asset:
/// the tier name, a space, a number sign, and the edition in decimal.
pub open spec fn spec_pass_label(tier: u8, edition: u64) -> Seq<char> {
    spec_tier_name(tier) + " #"@ + spec_dec_digits(edition as nat)
}

/// Builds the label a freshly minted asset is named with.
pub fn pass_label(tier: u8, edition: u64) -> (label: String)
    requires
        spec_valid_tier(tier),
    ensures
        label@ == spec_pass_label(tier, edition),
{
    let name: &'static str = match tier {
        0 => "Bronze",
        1 => "Silver",
        _ => "Gold",
    };
    let mut label = String::from_str(name);
    label.append(" #");
    let digits = u64_to_dec_string(edition);
    label.append(digits.as_str());
    label
}

} // verus!
