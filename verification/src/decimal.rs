//! Decimal rendering of mint amounts: the wire format carries the quantity as
//! its base-ten digit string.

use vstd::prelude::*;
use vstd::string::StringExecFns;

verus! {

/// The digit character for a value below ten.
pub open spec fn dec_digit(d: nat) -> char {
    if d == 0 {
        '0'
    } else if d == 1 {
        '1'
    } else if d == 2 {
        '2'
    } else if d == 3 {
        '3'
    } else if d == 4 {
        '4'
    } else if d == 5 {
        '5'
    } else if d == 6 {
        '6'
    } else if d == 7 {
        '7'
    } else if d == 8 {
        '8'
    } else {
        '9'
    }
}

/// The base-ten digit string of `n`, most significant digit first, with no
/// leading zeros (zero itself is "0").
pub open spec fn dec_str(n: nat) -> Seq<char>
    decreases n,
{
    if n < 10 {
        seq![dec_digit(n)]
    } else {
        dec_str(n / 10) + seq![dec_digit(n % 10)]
    }
}

/// A digit string is never empty.
pub proof fn lemma_dec_str_nonempty(n: nat)
    ensures
        dec_str(n).len() >= 1,
{
}

/// Ten raised to `k`.
pub open spec fn pow10(k: nat) -> nat
    decreases k,
{
    if k == 0 {
        1
    } else {
        10 * pow10((k - 1) as nat)
    }
}

proof fn lemma_dec_str_len_k(n: nat, k: nat)
    requires
        1 <= k,
        n < pow10(k),
    ensures
        dec_str(n).len() <= k,
    decreases k,
{
    if n < 10 {
    } else {
        assert(pow10(k) == 10 * pow10((k - 1) as nat));
        assert(2 <= k) by {
            if k == 1 {
                assert(pow10(1nat) == 10 * pow10(0nat));
            }
        }
        assert(n / 10 < pow10((k - 1) as nat)) by {
            if n / 10 >= pow10((k - 1) as nat) {
                assert(n >= 10 * (n / 10)) by {
                    vstd::arithmetic::div_mod::lemma_fundamental_div_mod(n as int, 10);
                }
                assert(10 * (n / 10) >= 10 * pow10((k - 1) as nat)) by (nonlinear_arith)
                    requires
                        n / 10 >= pow10((k - 1) as nat),
                ;
            }
        }
        lemma_dec_str_len_k(n / 10, (k - 1) as nat);
    }
}

proof fn lemma_dec_str_ascii(n: nat)
    ensures
        vstd::utf8::is_ascii_chars(dec_str(n)),
    decreases n,
{
    assert('\0' <= dec_digit(n % 10) <= '\u{7f}');
    if n < 10 {
        assert('\0' <= dec_digit(n) <= '\u{7f}');
    } else {
        lemma_dec_str_ascii(n / 10);
        let prefix = dec_str(n / 10);
        let whole = dec_str(n);
        assert forall|i: int| 0 <= i < whole.len() implies '\0' <= #[trigger] whole[i]
            <= '\u{7f}' by {
            if i < prefix.len() {
                assert(whole[i] == prefix[i]);
            }
        }
    }
}

/// The digit string of a 128-bit amount has at most 39 characters, and its
/// UTF-8 encoding is one byte per character.
pub proof fn lemma_dec_str_short(n: u128)
    ensures
        vstd::utf8::encode_utf8(dec_str(n as nat)).len() == dec_str(n as nat).len(),
        dec_str(n as nat).len() <= 39,
{
    assert(pow10(39) == 1_000_000_000_000_000_000_000_000_000_000_000_000_000) by {
        reveal_with_fuel(pow10, 40);
    }
    lemma_dec_str_len_k(n as nat, 39);
    lemma_dec_str_ascii(n as nat);
    vstd::utf8::is_ascii_chars_encode_utf8(dec_str(n as nat));
}

/// The one-character string slice for a digit value.
fn digit_str(d: u8) -> (r: &'static str)
    requires
        d < 10,
    ensures
        r@ == seq![dec_digit(d as nat)],
{
    proof {
        reveal_strlit("0");
        reveal_strlit("1");
        reveal_strlit("2");
        reveal_strlit("3");
        reveal_strlit("4");
        reveal_strlit("5");
        reveal_strlit("6");
        reveal_strlit("7");
        reveal_strlit("8");
        reveal_strlit("9");
    }
    let r = if d == 0 {
        "0"
    } else if d == 1 {
        "1"
    } else if d == 2 {
        "2"
    } else if d == 3 {
        "3"
    } else if d == 4 {
        "4"
    } else if d == 5 {
        "5"
    } else if d == 6 {
        "6"
    } else if d == 7 {
        "7"
    } else if d == 8 {
        "8"
    } else {
        "9"
    };
    assert(r@ =~= seq![dec_digit(d as nat)]);
    r
}

/// Append the digit string of `n` to `s`.
fn push_dec(n: u128, s: &mut String)
    ensures
        final(s)@ == old(s)@ + dec_str(n as nat),
    decreases n,
{
    if n >= 10 {
        assert(n / 10 < n) by {
            vstd::arithmetic::div_mod::lemma_fundamental_div_mod(n as int, 10);
        }
        push_dec(n / 10, s);
    }
    s.append(digit_str((n % 10) as u8));
    assert(final(s)@ =~= old(s)@ + dec_str(n as nat));
}

/// The base-ten rendering of `n`, as the mint message carries it.
pub fn u128_to_dec_string(n: u128) -> (r: String)
    ensures
        r@ == dec_str(n as nat),
{
    let mut s = String::new();
    push_dec(n, &mut s);
    assert(s@ =~= dec_str(n as nat));
    s
}

} // verus!
