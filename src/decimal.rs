use vstd::prelude::*;

verus! {

/// The decimal digit characters, indexed by their value.
pub open spec fn digits() -> Seq<char> {
    "0123456789"@
}

/// The decimal writing of `n`, most significant digit first, without leading zeros.
pub open spec fn decimal(n: nat) -> Seq<char>
    decreases n,
{
    if n < 10 {
        seq![digits()[n as int]]
    } else {
        decimal(n / 10).push(digits()[(n % 10) as int])
    }
}

/// Appends the decimal writing of `n` to `s`.
pub(crate) fn push_decimal(s: &mut String, n: u128)
    ensures
        final(s)@ == old(s)@ + decimal(n as nat),
    decreases n,
{
    if n >= 10 {
        push_decimal(s, n / 10);
    }
    let d = (n % 10) as usize;
    proof {
        reveal_strlit("0123456789");
    }
    let digit = "0123456789".substring_char(d, d + 1);
    s.append(digit);
    proof {
        assert(digit@ =~= seq![digits()[d as int]]);
        assert(final(s)@ =~= old(s)@ + decimal(n as nat));
    }
}

} // verus!
