//! Formatting a byte buffer for diagnostic dumping: rows of 20 bytes, two
//! uppercase hex digits per byte, each byte followed by a space. Writing
//! the rows out is left to the caller.
use vstd::prelude::*;

use crate::hex::{push_char, push_hex_pair, upper_hex_digit};

verus! {

/// One dump row for a byte sequence: `XX ` for each byte.
pub open spec fn dump_row(b: Seq<u8>) -> Seq<char> {
    Seq::new(3 * b.len(), |i: int| if i % 3 == 0 {
        upper_hex_digit(b[i / 3] / 16)
    } else if i % 3 == 1 {
        upper_hex_digit(b[i / 3] % 16)
    } else {
        ' '
    })
}

/// How many rows of 20 a buffer of `n` bytes fills.
pub open spec fn dump_row_count(n: int) -> int {
    (n + 19) / 20
}

/// A dump row grows by exactly three characters per byte.
proof fn lemma_dump_row_push(t: Seq<u8>, x: u8)
    ensures
        dump_row(t.push(x)) == dump_row(t).push(upper_hex_digit(x / 16)).push(
            upper_hex_digit(x % 16),
        ).push(' '),
{
    let lhs = dump_row(t.push(x));
    let rhs = dump_row(t).push(upper_hex_digit(x / 16)).push(upper_hex_digit(x % 16)).push(' ');
    assert forall|i: int| 0 <= i < lhs.len() implies lhs[i] == rhs[i] by {
        assert(0 <= i / 3 <= t.len() && (i < 3 * t.len() ==> i / 3 < t.len()) && (i >= 3 * t.len()
            ==> i / 3 == t.len())) by (nonlinear_arith)
            requires
                0 <= i < 3 * (t.len() + 1),
        ;
    }
    assert(lhs =~= rhs);
}

/// The rows of the diagnostic dump of a buffer: bytes taken 20 at a time,
/// each row formatted as uppercase space-separated hex pairs.
pub fn byte_dump_rows(bytes: &[u8]) -> (r: Vec<String>)
    ensures
        r@.len() == dump_row_count(bytes@.len() as int),
        forall|j: int|
            0 <= j < r@.len() ==> (#[trigger] r@[j])@ == dump_row(
                bytes@.subrange(
                    20 * j,
                    if 20 * j + 20 <= bytes@.len() {
                        20 * j + 20
                    } else {
                        bytes@.len() as int
                    },
                ),
            ),
{
    let n = bytes.len();
    let m = n / 20 + (if n % 20 == 0 {
        0
    } else {
        1
    });
    proof {
        assert(m == (n as int + 19) / 20) by (nonlinear_arith)
            requires
                m == n as int / 20 + (if n as int % 20 == 0 {
                    0int
                } else {
                    1int
                }),
        ;
    }
    let mut rows: Vec<String> = Vec::new();
    let mut j: usize = 0;
    while j < m
        invariant
            j <= m,
            n == bytes@.len(),
            m == (n as int + 19) / 20,
            rows@.len() == j,
            forall|jj: int|
                0 <= jj < j ==> (#[trigger] rows@[jj])@ == dump_row(
                    bytes@.subrange(
                        20 * jj,
                        if 20 * jj + 20 <= n {
                            20 * jj + 20
                        } else {
                            n as int
                        },
                    ),
                ),
        decreases m - j,
    {
        proof {
            assert(20 * (j as int) < n as int) by (nonlinear_arith)
                requires
                    j < m,
                    m == (n as int + 19) / 20,
            ;
        }
        let lo = 20 * j;
        let hi = if n - lo > 20 {
            lo + 20
        } else {
            n
        };
        let ghost chunk = bytes@.subrange(lo as int, hi as int);
        let mut row = String::new();
        let mut i: usize = lo;
        while i < hi
            invariant
                lo <= i <= hi <= n,
                n == bytes@.len(),
                chunk == bytes@.subrange(lo as int, hi as int),
                row@ == dump_row(chunk.take(i - lo)),
            decreases hi - i,
        {
            let b = bytes[i];
            proof {
                assert(chunk[i - lo] == bytes@[i as int]);
                assert(chunk.take(i + 1 - lo) =~= chunk.take(i - lo).push(chunk[i - lo]));
                lemma_dump_row_push(chunk.take(i - lo), b);
            }
            push_hex_pair(&mut row, b);
            push_char(&mut row, ' ');
            i += 1;
        }
        proof {
            assert(chunk.take(hi - lo) =~= chunk);
        }
        rows.push(row);
        j += 1;
    }
    rows
}

} // verus!
