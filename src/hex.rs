//! Short hexadecimal color notation (`rgb` and `rgba`, one digit per channel).
use vstd::prelude::*;

verus! {

/// The value of one hexadecimal digit, either case.
pub open spec fn hex_digit_value(c: char) -> Option<nat> {
    let n = c as u32;
    if 48 <= n <= 57 {
        Some((n - 48) as nat)
    } else if 97 <= n <= 102 {
        Some((n - 87) as nat)
    } else if 65 <= n <= 70 {
        Some((n - 55) as nat)
    } else {
        None
    }
}

/// The value of a run of hexadecimal digits, most significant first.
pub open spec fn hex_digits_value(s: Seq<char>) -> Option<nat>
    decreases s.len(),
{
    if s.len() == 0 {
        Some(0)
    } else {
        match (hex_digits_value(s.drop_last()), hex_digit_value(s.last())) {
            (Some(v), Some(d)) => Some(v * 16 + d),
            _ => None,
        }
    }
}

/// A hexadecimal number: an optional `+`, then at least one digit.
pub open spec fn hex_number_value(s: Seq<char>) -> Option<nat> {
    let digits = if s.len() > 0 && s[0] == '+' {
        s.drop_first()
    } else {
        s
    };
    if digits.len() == 0 {
        None
    } else {
        hex_digits_value(digits)
    }
}

/// A channel written as one digit `n` stands for `n * 17` (`f` is 255).
pub open spec fn expand_nibbles(r: nat, g: nat, b: nat, a: nat) -> nat {
    17 * r + 17 * 256 * g + 17 * 65536 * b + 17 * 16777216 * a
}

/// The packed color (red in the lowest byte) that a short hexadecimal string
/// names: four digits are red, green, blue and alpha; three digits are red,
/// green and blue with an opaque alpha. Any other string names no color.
pub open spec fn spec_hex_color(s: Seq<char>) -> Option<u32> {
    match hex_number_value(s) {
        None => None,
        Some(v) => if s.len() == 4 {
            Some(expand_nibbles(v / 4096 % 16, v / 256 % 16, v / 16 % 16, v % 16) as u32)
        } else if s.len() == 3 {
            Some(expand_nibbles(v / 256 % 16, v / 16 % 16, v % 16, 15) as u32)
        } else {
            None
        },
    }
}

spec fn pow16(k: nat) -> nat
    decreases k,
{
    if k == 0 {
        1
    } else {
        16 * pow16((k - 1) as nat)
    }
}

fn hex_digit(c: char) -> (r: Option<u32>)
    ensures
        match hex_digit_value(c) {
            Some(d) => r == Some(d as u32) && d < 16,
            None => r is None,
        },
{
    let n = c as u32;
    if 48 <= n && n <= 57 {
        Some(n - 48)
    } else if 97 <= n && n <= 102 {
        Some(n - 87)
    } else if 65 <= n && n <= 70 {
        Some(n - 55)
    } else {
        None
    }
}

/// Reads a color written as `rgb` or `rgba` hexadecimal digits, one per channel;
/// `None` for any other string.
pub fn hex_color_to_u32(x: &str) -> (r: Option<u32>)
    ensures
        r == spec_hex_color(x@),
{
    let n = x.unicode_len();
    if n != 3 && n != 4 {
        return None;
    }
    let start: usize = if x.get_char(0) == '+' {
        1
    } else {
        0
    };
    let ghost digits = if x@.len() > 0 && x@[0] == '+' {
        x@.drop_first()
    } else {
        x@
    };
    assert(digits =~= x@.subrange(start as int, n as int));
    proof {
        lemma_pow16_bound(0);
    }
    let mut v: u32 = 0;
    let mut i: usize = start;
    while i < n
        invariant
            start <= i <= n,
            n == x@.len(),
            n <= 4,
            start <= 1,
            digits == x@.subrange(start as int, n as int),
            digits == (if x@.len() > 0 && x@[0] == '+' {
                x@.drop_first()
            } else {
                x@
            }),
            hex_digits_value(x@.subrange(start as int, i as int)) == Some(v as nat),
            v < pow16((i - start) as nat),
            pow16((i - start) as nat) <= pow16(4),
        decreases n - i,
    {
        let c = x.get_char(i);
        let ghost prefix = x@.subrange(start as int, i as int);
        let ghost next = x@.subrange(start as int, i + 1);
        assert(next.drop_last() =~= prefix);
        assert(next.last() == c);
        let d = match hex_digit(c) {
            Some(d) => d,
            None => {
                assert(hex_digits_value(next) is None);
                proof {
                    assert(digits.subrange(0, (i + 1 - start) as int) =~= next);
                    lemma_invalid_prefix(digits, (i + 1 - start) as int);
                }
                assert(hex_digits_value(digits) is None);
                return None;
            },
        };
        assert(pow16((i + 1 - start) as nat) == 16 * pow16((i - start) as nat));
        proof {
            lemma_pow16_bound((i + 1 - start) as nat);
        }
        assert(v * 16 + d < 16 * pow16((i - start) as nat)) by (nonlinear_arith)
            requires
                v < pow16((i - start) as nat),
                d < 16,
        ;
        v = v * 16 + d;
        i = i + 1;
    }
    assert(x@.subrange(start as int, i as int) =~= digits);
    if n - start == 0 {
        return None;
    }
    let result = if n == 4 {
        17 * (v / 4096 % 16) + 17 * 256 * (v / 256 % 16) + 17 * 65536 * (v / 16 % 16) + 17
            * 16777216 * (v % 16)
    } else {
        17 * (v / 256 % 16) + 17 * 256 * (v / 16 % 16) + 17 * 65536 * (v % 16) + 17 * 16777216
            * 15
    };
    Some(result)
}

proof fn lemma_pow16_bound(k: nat)
    requires
        k <= 4,
    ensures
        pow16(k) <= pow16(4),
        pow16(4) == 65536,
    decreases 4 - k,
{
    assert(pow16(0) == 1);
    assert(pow16(1) == 16);
    assert(pow16(2) == 256);
    assert(pow16(3) == 4096);
    assert(pow16(4) == 65536);
    if k < 4 {
        lemma_pow16_bound(k + 1);
    }
}

/// A run of digits with an invalid prefix has no value.
proof fn lemma_invalid_prefix(s: Seq<char>, k: int)
    requires
        0 <= k <= s.len(),
        hex_digits_value(s.subrange(0, k)) is None,
    ensures
        hex_digits_value(s) is None,
    decreases s.len() - k,
{
    if k < s.len() {
        let t = s.subrange(0, k + 1);
        assert(t.drop_last() =~= s.subrange(0, k));
        lemma_invalid_prefix(s, k + 1);
    } else {
        assert(s.subrange(0, k) =~= s);
    }
}

} // verus!
