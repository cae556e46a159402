use vstd::prelude::*;

verus! {

/// Character-wise string equality: true exactly when the two character
/// sequences are equal.
pub fn str_eq(a: &str, b: &str) -> (r: bool)
    ensures
        r == (a@ == b@),
{
    let alen = a.unicode_len();
    let blen = b.unicode_len();
    if alen != blen {
        return false;
    }
    let mut i: usize = 0;
    while i < alen
        invariant
            alen == a@.len(),
            blen == b@.len(),
            alen == blen,
            i <= alen,
            forall|j: int| 0 <= j < i ==> a@[j] == b@[j],
        decreases alen - i,
    {
        if a.get_char(i) != b.get_char(i) {
            return false;
        }
        i = i + 1;
    }
    proof {
        assert(a@ =~= b@);
    }
    true
}

/// The character for a single decimal digit.
pub open spec fn spec_digit(d: nat) -> char {
    if d == 0 {
        '0'
    } else if d == 1 {
        '1'
    } else if d == 2 {
        '2'
    } else if d == 3 {
        '3'
    } else if d == 4 {
        '4'
    } else if d == 5 {
        '5'
    } else if d == 6 {
        '6'
    } else if d == 7 {
        '7'
    } else if d == 8 {
        '8'
    } else {
        '9'
    }
}

/// The decimal digits of `n`, most significant first, with no leading zero
/// except for `n == 0` itself.
pub open spec fn spec_dec_nat(n: nat) -> Seq<char>
    decreases n,
{
    if n < 10 {
        seq![spec_digit(n)]
    } else {
        spec_dec_nat(n / 10) + seq![spec_digit(n % 10)]
    }
}

/// The decimal form of `n`, with a leading minus sign when `n` is negative.
pub open spec fn spec_dec_int(n: int) -> Seq<char> {
    if n < 0 {
        seq!['-'] + spec_dec_nat((-n) as nat)
    } else {
        spec_dec_nat(n as nat)
    }
}

/// Append one decimal digit to `s`.
fn push_digit(s: &mut String, d: u16)
    requires
        d < 10,
    ensures
        final(s)@ == old(s)@ + seq![spec_digit(d as nat)],
{
    match d {
        0 => {
            s.append("0");
            proof {
                reveal_strlit("0");
                assert("0"@ =~= seq![spec_digit(d as nat)]);
            }
        }
        1 => {
            s.append("1");
            proof {
                reveal_strlit("1");
                assert("1"@ =~= seq![spec_digit(d as nat)]);
            }
        }
        2 => {
            s.append("2");
            proof {
                reveal_strlit("2");
                assert("2"@ =~= seq![spec_digit(d as nat)]);
            }
        }
        3 => {
            s.append("3");
            proof {
                reveal_strlit("3");
                assert("3"@ =~= seq![spec_digit(d as nat)]);
            }
        }
        4 => {
            s.append("4");
            proof {
                reveal_strlit("4");
                assert("4"@ =~= seq![spec_digit(d as nat)]);
            }
        }
        5 => {
            s.append("5");
            proof {
                reveal_strlit("5");
                assert("5"@ =~= seq![spec_digit(d as nat)]);
            }
        }
        6 => {
            s.append("6");
            proof {
                reveal_strlit("6");
                assert("6"@ =~= seq![spec_digit(d as nat)]);
            }
        }
        7 => {
            s.append("7");
            proof {
                reveal_strlit("7");
                assert("7"@ =~= seq![spec_digit(d as nat)]);
            }
        }
        8 => {
            s.append("8");
            proof {
                reveal_strlit("8");
                assert("8"@ =~= seq![spec_digit(d as nat)]);
            }
        }
        _ => {
            s.append("9");
            proof {
                reveal_strlit("9");
                assert("9"@ =~= seq![spec_digit(d as nat)]);
            }
        }
    }
}

/// Append the decimal form of `n` to `s`.
pub fn push_dec_u16(s: &mut String, n: u16)
    ensures
        final(s)@ == old(s)@ + spec_dec_nat(n as nat),
    decreases n,
{
    if n >= 10 {
        push_dec_u16(s, n / 10);
        push_digit(s, n % 10);
        proof {
            assert((old(s)@ + spec_dec_nat((n / 10) as nat)) + seq![spec_digit((n % 10) as nat)]
                =~= old(s)@ + spec_dec_nat(n as nat));
        }
    } else {
        push_digit(s, n);
    }
}

/// Append the decimal form of `n` to `s`, minus sign included.
pub fn push_dec_i16(s: &mut String, n: i16)
    ensures
        final(s)@ == old(s)@ + spec_dec_int(n as int),
{
    if n < 0 {
        s.append("-");
        let m: u16 = (-(n as i32)) as u16;
        push_dec_u16(s, m);
        proof {
            reveal_strlit("-");
            assert("-"@ =~= seq!['-']);
            assert((old(s)@ + "-"@) + spec_dec_nat(m as nat) =~= old(s)@ + spec_dec_int(n as int));
        }
    } else {
        push_dec_u16(s, n as u16);
    }
}

} // verus!
