//! Compression statistics: per-file savings, human-readable sizes, and the
//! batch report accumulator.
//!
//! The savings ratio is held in permille (tenths of a percent) so that it
//! stays exact integer arithmetic; rendering to the one-decimal percent the
//! operator sees is a pure formatting step.

use vstd::prelude::*;
use vstd::arithmetic::mul::lemma_mul_inequality;
use vstd::arithmetic::div_mod::{
    lemma_div_is_ordered, lemma_div_multiples_vanish, lemma_div_pos_is_pos, lemma_div_of0,
    lemma_div_nonincreasing, lemma_div_is_ordered_by_denominator,
};
use crate::text;

verus! {

/// The savings ratio in permille: `(1 - compressed/original) * 1000`,
/// truncated toward zero, and `0` when the original is empty.
pub open spec fn savings_permille(original: int, compressed: int) -> int {
    if original == 0 {
        0
    } else if compressed <= original {
        ((original - compressed) * 1000) / original
    } else {
        -(((compressed - original) * 1000) / original)
    }
}

/// The savings ratio never exceeds 1000 permille (100%); it is 0 when the
/// original was empty or nothing was saved, and exactly 1000 when a
/// nonempty original compressed to nothing.
pub proof fn lemma_savings_bounds(original: int, compressed: int)
    requires
        original >= 0,
        compressed >= 0,
    ensures
        savings_permille(original, compressed) <= 1000,
        savings_permille(original, compressed) >= -1000 * compressed,
        original == 0 ==> savings_permille(original, compressed) == 0,
        compressed == original ==> savings_permille(original, compressed) == 0,
        compressed == 0 && original > 0 ==> savings_permille(original, compressed) == 1000,
{
    if original > 0 {
        if compressed <= original {
            lemma_mul_inequality(original - compressed, original, 1000);
            lemma_div_is_ordered((original - compressed) * 1000, original * 1000, original);
            lemma_div_multiples_vanish(1000, original);
            assert(original * 1000 == 1000 * original);
            lemma_div_pos_is_pos((original - compressed) * 1000, original);
        } else {
            lemma_div_pos_is_pos((compressed - original) * 1000, original);
            lemma_div_nonincreasing((compressed - original) * 1000, original);
            lemma_mul_inequality(compressed - original, compressed, 1000);
        }
        if compressed == original {
            lemma_div_of0(original);
        }
    }
}

/// Statistics of one compression: sizes before and after, and the derived
/// savings ratio.
#[derive(Debug, Clone, Copy)]
pub struct CompressionStats {
    pub original_bytes: u64,
    pub compressed_bytes: u64,
    pub savings_permille: i128,
}

impl CompressionStats {
    /// Derives the stats from the two byte counts.
    pub fn new(original_bytes: u64, compressed_bytes: u64) -> (r: Self)
        ensures
            r.original_bytes == original_bytes,
            r.compressed_bytes == compressed_bytes,
            r.savings_permille == savings_permille(original_bytes as int, compressed_bytes as int),
    {
        let p: i128 = if original_bytes == 0 {
            0
        } else if compressed_bytes <= original_bytes {
            let diff = (original_bytes - compressed_bytes) as u128;
            proof {
                lemma_div_nonincreasing(diff * 1000, original_bytes as int);
                lemma_div_pos_is_pos(diff * 1000, original_bytes as int);
            }
            ((diff * 1000) / (original_bytes as u128)) as i128
        } else {
            let diff = (compressed_bytes - original_bytes) as u128;
            proof {
                lemma_div_nonincreasing(diff * 1000, original_bytes as int);
                lemma_div_pos_is_pos(diff * 1000, original_bytes as int);
            }
            -(((diff * 1000) / (original_bytes as u128)) as i128)
        };
        CompressionStats { original_bytes, compressed_bytes, savings_permille: p }
    }
}

/// Rounding to the nearest multiple, ties to the even quotient.
pub open spec fn round_half_even(n: int, d: int) -> int {
    let q = n / d;
    let r = n % d;
    if 2 * r < d {
        q
    } else if 2 * r > d {
        q + 1
    } else if q % 2 == 0 {
        q
    } else {
        q + 1
    }
}

/// What `format_size` prints: bytes below 1 kB, whole kilobytes below a
/// megabyte, and megabytes with one decimal above.
pub open spec fn format_size_spec(bytes: int) -> Seq<char> {
    if bytes >= 1_000_000 {
        let t = round_half_even(bytes, 100_000);
        text::dec_rep((t / 10) as nat) + seq!['.', text::digit_char(t % 10), ' ', 'M', 'B']
    } else if bytes >= 1_000 {
        text::dec_rep(round_half_even(bytes, 1_000) as nat) + seq![' ', 'K', 'B']
    } else {
        text::dec_rep(bytes as nat) + seq![' ', 'B']
    }
}

fn round_half_even_u64(n: u64, d: u64) -> (r: u64)
    requires
        2 <= d <= 1_000_000,
    ensures
        r == round_half_even(n as int, d as int),
{
    let q = n / d;
    let rem = n % d;
    proof {
        lemma_div_is_ordered_by_denominator(n as int, 2, d as int);
    }
    if 2 * rem < d {
        q
    } else if 2 * rem > d {
        q + 1
    } else if q % 2 == 0 {
        q
    } else {
        q + 1
    }
}

/// A permille value rendered as a percent with one decimal: `123` permille
/// is the text `12.3`, `-37` is `-3.7`.
pub open spec fn permille_chars(p: int) -> Seq<char> {
    if p < 0 {
        seq!['-'] + text::dec_rep(((-p) / 10) as nat) + seq![
            '.',
            text::digit_char((-p) % 10),
        ]
    } else {
        text::dec_rep((p / 10) as nat) + seq!['.', text::digit_char(p % 10)]
    }
}

/// Renders a permille value as a one-decimal percent.
pub fn permille_text(p: i128) -> (r: String)
    requires
        p > i128::MIN,
    ensures
        r@ == permille_chars(p as int),
{
    let mut out: Vec<char> = Vec::new();
    if p < 0 {
        out.push('-');
        let m = (-p) as u128;
        text::push_dec_wide(m / 10, &mut out);
        out.push('.');
        out.push(text::digit_to_char((m % 10) as u64));
    } else {
        let m = p as u128;
        text::push_dec_wide(m / 10, &mut out);
        out.push('.');
        out.push(text::digit_to_char((m % 10) as u64));
    }
    proof {
        assert(out@ =~= permille_chars(p as int));
    }
    text::chars_to_string(&out)
}

/// Human-readable byte count: `500 B`, `2 KB`, `2.4 MB`.
pub fn format_size(bytes: u64) -> (r: String)
    ensures
        r@ == format_size_spec(bytes as int),
{
    let mut out: Vec<char> = Vec::new();
    if bytes >= 1_000_000 {
        let t = round_half_even_u64(bytes, 100_000);
        text::push_dec(t / 10, &mut out);
        out.push('.');
        out.push(text::digit_to_char(t % 10));
        out.push(' ');
        out.push('M');
        out.push('B');
        proof {
            assert(out@ =~= format_size_spec(bytes as int));
        }
    } else if bytes >= 1_000 {
        let k = round_half_even_u64(bytes, 1_000);
        text::push_dec(k, &mut out);
        out.push(' ');
        out.push('K');
        out.push('B');
        proof {
            assert(out@ =~= format_size_spec(bytes as int));
        }
    } else {
        text::push_dec(bytes, &mut out);
        out.push(' ');
        out.push('B');
        proof {
            assert(out@ =~= format_size_spec(bytes as int));
        }
    }
    text::chars_to_string(&out)
}

} // verus!
