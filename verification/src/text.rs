//! Small verified helpers for text: string equality and the decimal and
//! boolean spellings used when a runtime value is rendered.

use vstd::prelude::*;
use vstd::utf8::{encode_utf8, encode_utf8_decode_utf8};

verus! {

/// Equal character sequences have equal UTF-8 encodings, and conversely,
/// because encoding round-trips through decoding.
pub proof fn lemma_encode_utf8_injective(a: Seq<char>, b: Seq<char>)
    ensures
        (encode_utf8(a) == encode_utf8(b)) == (a == b),
{
    if encode_utf8(a) == encode_utf8(b) {
        encode_utf8_decode_utf8(a);
        encode_utf8_decode_utf8(b);
    }
}

/// String equality, decided by comparing the UTF-8 bytes of both sides.
pub fn str_eq(a: &str, b: &str) -> (r: bool)
    ensures
        r == (a@ == b@),
{
    proof {
        lemma_encode_utf8_injective(a@, b@);
    }
    let abytes = a.as_bytes();
    let bbytes = b.as_bytes();
    if abytes.len() != bbytes.len() {
        return false;
    }
    let mut i: usize = 0;
    while i < abytes.len()
        invariant
            0 <= i <= abytes@.len(),
            abytes@.len() == bbytes@.len(),
            abytes@ == encode_utf8(a@),
            bbytes@ == encode_utf8(b@),
            forall|j: int| 0 <= j < i ==> abytes@[j] == bbytes@[j],
        decreases abytes@.len() - i,
    {
        if abytes[i] != bbytes[i] {
            return false;
        }
        i += 1;
    }
    proof {
        assert(abytes@ =~= bbytes@);
    }
    true
}

/// The character spelling a single decimal digit.
pub open spec fn dec_digit(d: nat) -> char
    recommends
        d < 10,
{
    if d == 0 {
        '0'
    } else if d == 1 {
        '1'
    } else if d == 2 {
        '2'
    } else if d == 3 {
        '3'
    } else if d == 4 {
        '4'
    } else if d == 5 {
        '5'
    } else if d == 6 {
        '6'
    } else if d == 7 {
        '7'
    } else if d == 8 {
        '8'
    } else {
        '9'
    }
}

/// The usual decimal spelling of a natural number, most significant digit
/// first and without leading zeros (except for zero itself).
pub open spec fn dec_seq(n: nat) -> Seq<char>
    decreases n,
{
    if n < 10 {
        seq![dec_digit(n)]
    } else {
        dec_seq(n / 10).push(dec_digit(n % 10))
    }
}

/// Appends the character of one decimal digit to `buf`.
fn push_digit(buf: &mut String, d: u32)
    requires
        d < 10,
    ensures
        final(buf)@ == old(buf)@ + seq![dec_digit(d as nat)],
{
    proof {
        reveal_strlit("0");
        reveal_strlit("1");
        reveal_strlit("2");
        reveal_strlit("3");
        reveal_strlit("4");
        reveal_strlit("5");
        reveal_strlit("6");
        reveal_strlit("7");
        reveal_strlit("8");
        reveal_strlit("9");
    }
    if d == 0 {
        buf.append("0");
        proof {
            assert(old(buf)@ + "0"@ =~= old(buf)@ + seq![dec_digit(d as nat)]);
        }
    } else if d == 1 {
        buf.append("1");
        proof {
            assert(old(buf)@ + "1"@ =~= old(buf)@ + seq![dec_digit(d as nat)]);
        }
    } else if d == 2 {
        buf.append("2");
        proof {
            assert(old(buf)@ + "2"@ =~= old(buf)@ + seq![dec_digit(d as nat)]);
        }
    } else if d == 3 {
        buf.append("3");
        proof {
            assert(old(buf)@ + "3"@ =~= old(buf)@ + seq![dec_digit(d as nat)]);
        }
    } else if d == 4 {
        buf.append("4");
        proof {
            assert(old(buf)@ + "4"@ =~= old(buf)@ + seq![dec_digit(d as nat)]);
        }
    } else if d == 5 {
        buf.append("5");
        proof {
            assert(old(buf)@ + "5"@ =~= old(buf)@ + seq![dec_digit(d as nat)]);
        }
    } else if d == 6 {
        buf.append("6");
        proof {
            assert(old(buf)@ + "6"@ =~= old(buf)@ + seq![dec_digit(d as nat)]);
        }
    } else if d == 7 {
        buf.append("7");
        proof {
            assert(old(buf)@ + "7"@ =~= old(buf)@ + seq![dec_digit(d as nat)]);
        }
    } else if d == 8 {
        buf.append("8");
        proof {
            assert(old(buf)@ + "8"@ =~= old(buf)@ + seq![dec_digit(d as nat)]);
        }
    } else {
        buf.append("9");
        proof {
            assert(old(buf)@ + "9"@ =~= old(buf)@ + seq![dec_digit(d as nat)]);
        }
    }
}

/// Appends the decimal spelling of `n` to `buf`.
pub fn push_u32_decimal(buf: &mut String, n: u32)
    ensures
        final(buf)@ == old(buf)@ + dec_seq(n as nat),
    decreases n,
{
    if n < 10 {
        push_digit(buf, n);
    } else {
        push_u32_decimal(buf, n / 10);
        push_digit(buf, n % 10);
        proof {
            assert((old(buf)@ + dec_seq((n / 10) as nat)) + seq![dec_digit((n % 10) as nat)]
                =~= old(buf)@ + dec_seq(n as nat));
        }
    }
}

/// The decimal spelling of a 32-bit unsigned number as an owned string.
pub fn u32_decimal(n: u32) -> (s: String)
    ensures
        s@ == dec_seq(n as nat),
{
    let mut s = String::new();
    push_u32_decimal(&mut s, n);
    proof {
        assert(Seq::<char>::empty() + dec_seq(n as nat) =~= dec_seq(n as nat));
    }
    s
}

/// The spelling of a boolean value.
pub open spec fn bool_seq(b: bool) -> Seq<char> {
    if b {
        "true"@
    } else {
        "false"@
    }
}

/// Appends the spelling of a boolean value to `buf`.
pub fn push_bool(buf: &mut String, b: bool)
    ensures
        final(buf)@ == old(buf)@ + bool_seq(b),
{
    if b {
        buf.append("true");
    } else {
        buf.append("false");
    }
}

} // verus!
