//! Human-readable rendering of byte counts.
//!
//! A byte count is scaled to the largest unit that keeps the value below
//! 1024 — a factor of 1024 from unit to unit — and printed with two decimal
//! places, rounded half-up. The unit ladder continues beyond exabytes, but a
//! 64-bit count always stays below 1024 exabytes, so the larger rungs can
//! never be reached here.

use vstd::prelude::*;
use vstd::string::StrSliceExecFns;
use vstd::string::StringExecFns;

use crate::decimal::digit_char;
use crate::decimal::digit_str;
use crate::decimal::spec_dec;
use crate::decimal::u64_to_string;

verus! {

/// The divisor of the unit that `size` is rendered in.
pub open spec fn spec_size_div(size: u64) -> nat {
    if size < 1024 {
        1
    } else if size < 1024 * 1024 {
        1024
    } else if size < 1024 * 1024 * 1024 {
        1024 * 1024
    } else if size < 1024 * 1024 * 1024 * 1024 {
        1024 * 1024 * 1024
    } else if size < 1024 * 1024 * 1024 * 1024 * 1024 {
        1024 * 1024 * 1024 * 1024
    } else if size < 1024 * 1024 * 1024 * 1024 * 1024 * 1024 {
        1024 * 1024 * 1024 * 1024 * 1024
    } else {
        1024 * 1024 * 1024 * 1024 * 1024 * 1024
    }
}

/// The name of the unit that `size` is rendered in.
pub open spec fn spec_size_unit(size: u64) -> Seq<char> {
    if size < 1024 {
        "B"@
    } else if size < 1024 * 1024 {
        "KB"@
    } else if size < 1024 * 1024 * 1024 {
        "MB"@
    } else if size < 1024 * 1024 * 1024 * 1024 {
        "GB"@
    } else if size < 1024 * 1024 * 1024 * 1024 * 1024 {
        "TB"@
    } else if size < 1024 * 1024 * 1024 * 1024 * 1024 * 1024 {
        "PB"@
    } else {
        "EB"@
    }
}

/// `size` scaled to its unit, in hundredths, rounded half-up.
pub open spec fn spec_centi(size: u64) -> nat {
    ((200 * (size as int) + spec_size_div(size) as int) / (2 * spec_size_div(size) as int)) as nat
}

/// Two zero-padded digits for a fraction in hundredths.
pub open spec fn spec_frac2(f: nat) -> Seq<char> {
    seq![digit_char((f / 10) as int), digit_char((f % 10) as int)]
}

/// The rendering of `size`: scaled value with two decimals, a space, and the
/// unit name.
pub open spec fn spec_size_string(size: u64) -> Seq<char> {
    spec_dec(spec_centi(size) / 100) + "."@ + spec_frac2(spec_centi(size) % 100) + " "@
        + spec_size_unit(size)
}

/// Renders a byte count in its largest unit with two decimal places.
pub fn u64_to_size_string(size: u64) -> (r: String)
    ensures
        r@ == spec_size_string(size),
{
    let (div, unit): (u64, &'static str) = if size < 1024 {
        (1, "B")
    } else if size < 1024 * 1024 {
        (1024, "KB")
    } else if size < 1024 * 1024 * 1024 {
        (1024 * 1024, "MB")
    } else if size < 1024 * 1024 * 1024 * 1024 {
        (1024 * 1024 * 1024, "GB")
    } else if size < 1024 * 1024 * 1024 * 1024 * 1024 {
        (1024 * 1024 * 1024 * 1024, "TB")
    } else if size < 1024 * 1024 * 1024 * 1024 * 1024 * 1024 {
        (1024 * 1024 * 1024 * 1024 * 1024, "PB")
    } else {
        (1024 * 1024 * 1024 * 1024 * 1024 * 1024, "EB")
    };
    proof {
        assert(div as nat == spec_size_div(size));
        assert(unit@ == spec_size_unit(size));
        assert((size as nat) < 1024 * (div as nat));
    }
    let centi_wide: u128 = (200u128 * (size as u128) + (div as u128)) / (2u128 * (div as u128));
    proof {
        assert(centi_wide == spec_centi(size));
        assert(centi_wide < 102401) by (nonlinear_arith)
            requires
                centi_wide == (200 * (size as nat) + (div as nat)) / (2 * (div as nat)),
                (size as nat) < 1024 * (div as nat),
                div >= 1,
        ;
    }
    let centi: u64 = centi_wide as u64;
    let whole: u64 = centi / 100;
    let frac: u64 = centi % 100;
    let mut r = u64_to_string(whole);
    r.append(".");
    r.append(digit_str(frac / 10));
    r.append(digit_str(frac % 10));
    r.append(" ");
    r.append(unit);
    proof {
        assert(r@ =~= spec_size_string(size));
    }
    r
}

} // verus!
