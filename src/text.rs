//! Rendering of numbers and id lists into message text.

use vstd::prelude::*;

verus! {

/// The ten decimal digits, in order of value.
pub open spec fn digit_chars() -> Seq<char> {
    seq!['0', '1', '2', '3', '4', '5', '6', '7', '8', '9']
}

/// The decimal rendering of `n`, most significant digit first, no leading zeros.
pub open spec fn decimal(n: nat) -> Seq<char>
    decreases n,
{
    if n < 10 {
        seq![digit_chars()[n as int]]
    } else {
        decimal(n / 10).push(digit_chars()[(n % 10) as int])
    }
}

/// Appends the decimal rendering of `n` to `s`.
pub fn push_decimal(s: &mut String, n: u64)
    ensures
        final(s)@ == old(s)@ + decimal(n as nat),
    decreases n,
{
    if n >= 10 {
        push_decimal(s, n / 10);
    }
    let table = "0123456789";
    proof {
        reveal_strlit("0123456789");
        assert(table@ =~= digit_chars());
    }
    let d = (n % 10) as usize;
    let digit = table.substring_char(d, d + 1);
    proof {
        assert(digit@ =~= seq![digit_chars()[d as int]]);
        if n >= 10 {
            assert(decimal(n as nat) == decimal((n / 10) as nat).push(digit_chars()[(n % 10) as int]));
        }
    }
    s.append(digit);
    assert(s@ =~= old(s)@ + decimal(n as nat));
}

/// The ids rendered in decimal and separated by `", "`.
pub open spec fn joined_ids(ids: Seq<u32>) -> Seq<char>
    decreases ids.len(),
{
    if ids.len() == 0 {
        Seq::empty()
    } else if ids.len() == 1 {
        decimal(ids[0] as nat)
    } else {
        joined_ids(ids.drop_last()) + ", "@ + decimal(ids.last() as nat)
    }
}

/// Appends the ids, in decimal and separated by `", "`, to `s`.
pub fn push_joined_ids(s: &mut String, ids: &Vec<u32>)
    ensures
        final(s)@ == old(s)@ + joined_ids(ids@),
{
    let ghost start = s@;
    let mut i: usize = 0;
    while i < ids.len()
        invariant
            i <= ids@.len(),
            s@ == start + joined_ids(ids@.subrange(0, i as int)),
        decreases ids@.len() - i,
    {
        let ghost before = s@;
        if i > 0 {
            s.append(", ");
        }
        push_decimal(s, ids[i] as u64);
        proof {
            let next = ids@.subrange(0, i + 1);
            assert(next.drop_last() =~= ids@.subrange(0, i as int));
            if i == 0 {
                assert(before =~= start);
            }
            assert(s@ =~= start + joined_ids(next));
        }
        i = i + 1;
    }
    assert(ids@.subrange(0, ids@.len() as int) =~= ids@);
}

} // verus!
