use vstd::prelude::*;
use vstd::string::StringExecFns;

use crate::errors::BuyError;

verus! {

/// The character that prints the decimal digit `d`.
pub open spec fn digit_char(d: int) -> char {
    if d == 0 {
        '0'
    } else if d == 1 {
        '1'
    } else if d == 2 {
        '2'
    } else if d == 3 {
        '3'
    } else if d == 4 {
        '4'
    } else if d == 5 {
        '5'
    } else if d == 6 {
        '6'
    } else if d == 7 {
        '7'
    } else if d == 8 {
        '8'
    } else {
        '9'
    }
}

/// The decimal rendering of `n`: most significant digit first, no sign, no
/// padding, and a single `'0'` for zero.
pub open spec fn dec_seq(n: nat) -> Seq<char>
    decreases n,
{
    if n < 10 {
        seq![digit_char(n as int)]
    } else {
        dec_seq(n / 10) + seq![digit_char((n % 10) as int)]
    }
}

/// The decimal rendering of `n` zero-padded on the left to at least two
/// digits, as the ledger's month and day fields are printed.
pub open spec fn pad2(n: nat) -> Seq<char> {
    if n < 10 {
        seq!['0'] + dec_seq(n)
    } else {
        dec_seq(n)
    }
}

/// `c` is one of the ten ASCII decimal digits.
pub open spec fn is_dec_digit(c: char) -> bool {
    '0' as int <= c as int && c as int <= '9' as int
}

/// The numeric value of the digit character `c`.
pub open spec fn digit_val(c: char) -> nat {
    (c as int - '0' as int) as nat
}

/// The value of `s` read as a base-10 numeral, most significant digit first.
pub open spec fn dec_val(s: Seq<char>) -> nat
    decreases s.len(),
{
    if s.len() == 0 {
        0
    } else {
        dec_val(s.drop_last()) * 10 + digit_val(s.last())
    }
}

/// `s` is a well-formed amount token: non-empty, decimal digits only (no
/// sign, no decimal point, no separators), and its value fits in a `u32`.
pub open spec fn valid_amount(s: Seq<char>) -> bool {
    &&& s.len() > 0
    &&& forall|i: int| 0 <= i < s.len() ==> is_dec_digit(#[trigger] s[i])
    &&& dec_val(s) <= u32::MAX
}

/// Reading a longer prefix of a numeral never decreases its value.
proof fn lemma_dec_val_prefix_mono(s: Seq<char>, j: int, k: int)
    requires
        0 <= j <= k <= s.len(),
    ensures
        dec_val(s.subrange(0, j)) <= dec_val(s.subrange(0, k)),
    decreases k - j,
{
    if j < k {
        lemma_dec_val_prefix_mono(s, j, k - 1);
        assert(s.subrange(0, k).drop_last() =~= s.subrange(0, k - 1));
        assert(s.subrange(0, k).len() > 0);
    }
}

/// The single-character string that prints the digit `d`.
fn digit_str(d: u32) -> (r: &'static str)
    requires
        d < 10,
    ensures
        r@ == seq![digit_char(d as int)],
{
    let r: &'static str = if d == 0 {
        "0"
    } else if d == 1 {
        "1"
    } else if d == 2 {
        "2"
    } else if d == 3 {
        "3"
    } else if d == 4 {
        "4"
    } else if d == 5 {
        "5"
    } else if d == 6 {
        "6"
    } else if d == 7 {
        "7"
    } else if d == 8 {
        "8"
    } else {
        "9"
    };
    proof {
        reveal_strlit("0");
        reveal_strlit("1");
        reveal_strlit("2");
        reveal_strlit("3");
        reveal_strlit("4");
        reveal_strlit("5");
        reveal_strlit("6");
        reveal_strlit("7");
        reveal_strlit("8");
        reveal_strlit("9");
        assert(r@ =~= seq![digit_char(d as int)]);
    }
    r
}

/// Appends the unpadded decimal rendering of `n` to `out`.
pub fn push_dec(out: &mut String, n: u32)
    ensures
        final(out)@ == old(out)@ + dec_seq(n as nat),
    decreases n,
{
    if n >= 10 {
        push_dec(out, n / 10);
    }
    out.append(digit_str(n % 10));
    proof {
        assert(out@ =~= old(out)@ + dec_seq(n as nat));
    }
}

/// Appends the two-digit zero-padded decimal rendering of `n` to `out`.
pub fn push_pad2(out: &mut String, n: u32)
    ensures
        final(out)@ == old(out)@ + pad2(n as nat),
{
    if n < 10 {
        out.append("0");
        proof {
            reveal_strlit("0");
        }
    }
    push_dec(out, n);
    proof {
        assert(out@ =~= old(out)@ + pad2(n as nat));
    }
}

/// Parses `s` as a non-negative base-10 integer amount. Exactly the
/// well-formed amount tokens succeed, with the value the numeral denotes;
/// an empty token, any non-digit character, and any value above `u32::MAX`
/// fail with `InvalidAmount` carrying the token.
pub fn parse_amount(s: String) -> (r: Result<u32, BuyError>)
    ensures
        valid_amount(s@) ==> r == Ok::<u32, BuyError>(dec_val(s@) as u32),
        !valid_amount(s@) ==> (r matches Err(BuyError::InvalidAmount(t)) && t@ == s@),
{
    let n = s.as_str().unicode_len();
    if n == 0 {
        return Err(BuyError::InvalidAmount(s));
    }
    let mut acc: u32 = 0;
    let mut i: usize = 0;
    while i < n
        invariant
            n == s@.len(),
            i <= n,
            forall|k: int| 0 <= k < i ==> is_dec_digit(#[trigger] s@[k]),
            acc as nat == dec_val(s@.subrange(0, i as int)),
        decreases n - i,
    {
        let c = s.as_str().get_char(i);
        let cv = c as u32;
        if cv < 48 || cv > 57 {
            proof {
                assert(!is_dec_digit(s@[i as int]));
            }
            return Err(BuyError::InvalidAmount(s));
        }
        let d = cv - 48;
        let grown = match acc.checked_mul(10) {
            Some(g) => match g.checked_add(d) {
                Some(g) => Some(g),
                None => None,
            },
            None => None,
        };
        proof {
            assert(s@.subrange(0, i as int + 1).drop_last() =~= s@.subrange(0, i as int));
            assert(s@.subrange(0, i as int + 1).last() == s@[i as int]);
            assert(dec_val(s@.subrange(0, i as int + 1)) == acc * 10 + d);
        }
        acc = match grown {
            Some(g) => g,
            None => {
                proof {
                    lemma_dec_val_prefix_mono(s@, i as int + 1, n as int);
                    assert(s@.subrange(0, n as int) =~= s@);
                    assert(dec_val(s@) > u32::MAX);
                }
                return Err(BuyError::InvalidAmount(s));
            },
        };
        i = i + 1;
    }
    proof {
        assert(s@.subrange(0, n as int) =~= s@);
    }
    Ok(acc)
}

} // verus!
