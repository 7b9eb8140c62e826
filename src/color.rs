//! Reading colour bytes out of hexadecimal notation such as `#4A148C`.
use vstd::prelude::*;
use vstd::string::StringSliceAdditionalSpecFns;

verus! {

/// Value of an ASCII hexadecimal digit, either case; `None` for any other byte.
pub open spec fn hex_value(b: u8) -> Option<u8> {
    if 48 <= b <= 57 {
        Some((b - 48) as u8)
    } else if 97 <= b <= 102 {
        Some((b - 97 + 10) as u8)
    } else if 65 <= b <= 70 {
        Some((b - 65 + 10) as u8)
    } else {
        None
    }
}

/// Values of the hexadecimal digits of `s`, in order; other bytes are skipped.
pub open spec fn hex_digits(s: Seq<u8>) -> Seq<u8>
    decreases s.len(),
{
    if s.len() == 0 {
        Seq::empty()
    } else {
        match hex_value(s.last()) {
            Some(v) => hex_digits(s.drop_last()).push(v),
            None => hex_digits(s.drop_last()),
        }
    }
}

/// Bytes made of consecutive pairs of digits, high digit first; an unpaired
/// last digit is dropped.
pub open spec fn pair_digits(d: Seq<u8>) -> Seq<u8> {
    Seq::new(d.len() / 2, |i: int| (d[2 * i] * 16 + d[2 * i + 1]) as u8)
}

/// Every digit value is below sixteen.
proof fn lemma_hex_digits_small(s: Seq<u8>)
    ensures
        forall|j: int| 0 <= j < hex_digits(s).len() ==> #[trigger] hex_digits(s)[j] < 16,
    decreases s.len(),
{
    if s.len() > 0 {
        let p = hex_digits(s.drop_last());
        lemma_hex_digits_small(s.drop_last());
        if let Some(v) = hex_value(s.last()) {
            assert forall|j: int| 0 <= j < hex_digits(s).len() implies #[trigger] hex_digits(s)[j]
                < 16 by {
                if j < p.len() {
                    assert(hex_digits(s)[j] == p[j]);
                }
            }
        }
    }
}

fn hex_digit(b: u8) -> (r: Option<u8>)
    ensures
        r == hex_value(b),
{
    if b >= 48 && b <= 57 {
        Some(b - 48)
    } else if b >= 97 && b <= 102 {
        Some(b - 97 + 10)
    } else if b >= 65 && b <= 70 {
        Some(b - 65 + 10)
    } else {
        None
    }
}

/// Bytes written in hexadecimal in `hex_asm`, two digits each; characters
/// that are not hexadecimal digits are skipped.
pub fn parse_hex(hex_asm: &str) -> (r: Vec<u8>)
    ensures
        r@ == pair_digits(hex_digits(hex_asm.spec_bytes())),
{
    let bytes = hex_asm.as_bytes();
    let mut out: Vec<u8> = Vec::new();
    let mut high: Option<u8> = None;
    let mut i: usize = 0;
    while i < bytes.len()
        invariant
            i <= bytes@.len(),
            bytes@ == hex_asm.spec_bytes(),
            out@ == pair_digits(hex_digits(bytes@.subrange(0, i as int))),
            high == (if hex_digits(bytes@.subrange(0, i as int)).len() % 2 == 1 {
                Some(hex_digits(bytes@.subrange(0, i as int)).last())
            } else {
                None
            }),
        decreases bytes.len() - i,
    {
        let ghost before = bytes@.subrange(0, i as int);
        proof {
            assert(bytes@.subrange(0, i + 1).drop_last() =~= before);
            lemma_hex_digits_small(before);
        }
        match hex_digit(bytes[i]) {
            Some(v) => {
                match high {
                    None => {
                        high = Some(v);
                    },
                    Some(h) => {
                        out.push(h * 16 + v);
                        high = None;
                        proof {
                            let d = hex_digits(before);
                            assert(pair_digits(d.push(v)) =~= pair_digits(d).push((h * 16 + v) as u8));
                        }
                    },
                }
                proof {
                    let d = hex_digits(before);
                    if d.len() % 2 == 0 {
                        assert(pair_digits(d.push(v)) =~= pair_digits(d));
                    }
                }
            },
            None => {},
        }
        i = i + 1;
    }
    proof {
        assert(bytes@.subrange(0, i as int) =~= bytes@);
    }
    out
}

} // verus!
