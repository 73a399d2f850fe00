use vstd::prelude::*;
use vstd::utf8::encode_utf8;

verus! {

/// Whether a byte is an ASCII decimal digit.
pub open spec fn is_digit(b: u8) -> bool {
    48 <= b <= 57
}

/// Whether every byte of `d` is an ASCII decimal digit.
pub open spec fn all_digits(d: Seq<u8>) -> bool {
    forall|i: int| 0 <= i < d.len() ==> is_digit(#[trigger] d[i])
}

/// The number that a run of decimal digits spells, most significant first.
pub open spec fn digits_value(d: Seq<u8>) -> nat
    decreases d.len(),
{
    if d.len() == 0 {
        0
    } else {
        digits_value(d.drop_last()) * 10 + (d.last() - 48) as nat
    }
}

/// The digits of a numeral: the text after an optional leading `+`.
pub open spec fn numeral_digits(b: Seq<u8>) -> Seq<u8> {
    if b.len() > 0 && b[0] == 43 {
        b.drop_first()
    } else {
        b
    }
}

/// The unsigned 64-bit number that the bytes `b` spell in decimal: an optional
/// `+`, then one or more digits and nothing else, of a value that fits in
/// `u64`. `None` for any other text.
pub open spec fn parse_u64(b: Seq<u8>) -> Option<u64> {
    let d = numeral_digits(b);
    if d.len() > 0 && all_digits(d) && digits_value(d) <= u64::MAX {
        Some(digits_value(d) as u64)
    } else {
        None
    }
}

/// The number that a string spells in decimal, read from its UTF-8 bytes.
pub open spec fn signal_value(s: String) -> Option<u64> {
    parse_u64(encode_utf8(s@))
}

/// A prefix of a run of digits spells no more than the whole run.
proof fn lemma_prefix_value_le(d: Seq<u8>, k: int)
    requires
        0 <= k <= d.len(),
        all_digits(d),
    ensures
        digits_value(d.take(k)) <= digits_value(d),
    decreases d.len(),
{
    if k < d.len() {
        let p = d.drop_last();
        assert(p.take(k) =~= d.take(k));
        assert(all_digits(p)) by {
            assert forall|i: int| 0 <= i < p.len() implies is_digit(#[trigger] p[i]) by {
                assert(p[i] == d[i]);
            }
        }
        lemma_prefix_value_le(p, k);
    } else {
        assert(d.take(k) =~= d);
    }
}

/// Reads a public signal as an unsigned 64-bit decimal number.
pub fn parse_signal(s: &String) -> (r: Option<u64>)
    ensures
        r == signal_value(*s),
{
    let b: &[u8] = s.as_str().as_bytes();
    let ghost bytes = encode_utf8(s@);
    assert(b@ == bytes);
    let n: usize = b.len();
    let mut i: usize = 0;
    if n > 0 && b[0] == 43u8 {
        i = 1;
    }
    let start: usize = i;
    let ghost d = numeral_digits(bytes);
    assert(d =~= bytes.subrange(start as int, n as int));
    if start == n {
        return None;
    }
    let mut acc: u64 = 0;
    while i < n
        invariant
            bytes == encode_utf8(s@),
            d == numeral_digits(bytes),
            d.len() > 0,
            b@ == bytes,
            n == b@.len(),
            start <= i <= n,
            d =~= bytes.subrange(start as int, n as int),
            all_digits(d.take(i - start)),
            acc == digits_value(d.take(i - start)),
        decreases n - i,
    {
        let c: u8 = b[i];
        let ghost k: int = i - start;
        assert(d[k] == c);
        if c < 48u8 || c > 57u8 {
            assert(!all_digits(d)) by {
                assert(!is_digit(d[k]));
            }
            return None;
        }
        let digit: u64 = (c - 48u8) as u64;
        assert(d.take(k + 1).drop_last() =~= d.take(k));
        assert(digits_value(d.take(k + 1)) == acc * 10 + digit);
        assert(all_digits(d.take(k + 1))) by {
            assert forall|j: int| 0 <= j < k + 1 implies is_digit(#[trigger] d.take(k + 1)[j]) by {
                if j < k {
                    assert(d.take(k + 1)[j] == d.take(k)[j]);
                }
            }
        }
        if acc > 1844674407370955161u64 || (acc == 1844674407370955161u64 && digit > 5u64) {
            assert(acc * 10 + digit > u64::MAX) by (nonlinear_arith)
                requires
                    digit <= 9,
                    acc > 1844674407370955161u64 || (acc == 1844674407370955161u64 && digit > 5u64),
            ;
            proof {
                if all_digits(d) {
                    lemma_prefix_value_le(d, k + 1);
                }
            }
            return None;
        }
        assert(acc * 10 + digit <= u64::MAX) by (nonlinear_arith)
            requires
                digit <= 9,
                !(acc > 1844674407370955161u64 || (acc == 1844674407370955161u64 && digit > 5u64)),
        ;
        acc = acc * 10 + digit;
        i = i + 1;
    }
    assert(d.take(n - start) =~= d);
    Some(acc)
}

} // verus!
