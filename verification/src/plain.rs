//! The plain value encoder: appends the raw fixed-width bytes of the
//! column's present rows to the shared output buffer.

use vstd::prelude::*;

use crate::model::{null_count_of, plain_bytes};
use vstd::pervasive::cloned;

verus! {

/// A byte clone is the byte itself.
proof fn lemma_u8_cloned_eq(a: u8, b: u8)
    requires
        cloned::<u8>(a, b),
    ensures
        a == b,
{
}

/// Appends the plain encoding of the column to `buffer`: the raw bytes of
/// every present row, in row order, nothing else. The buffer is only ever
/// grown, never truncated or rewound.
pub fn encode_plain<const N: usize>(data: &[[u8; N]], buffer: &mut Vec<u8>)
    ensures
        final(buffer)@ == old(buffer)@ + plain_bytes(data@),
{
    let n = data.len();
    for i in 0..n
        invariant
            n == data@.len(),
            buffer@ == old(buffer)@ + plain_bytes(data@.take(i as int)),
    {
        let row: &[u8; N] = &data[i];
        if crate::validity::is_valid_row(row) {
            let ghost before = buffer@;
            buffer.extend_from_slice(row.as_slice());
            proof {
                assert forall|j: int| 0 <= j < N implies buffer@[before.len() + j] == row@[j] by {
                    lemma_u8_cloned_eq(row@[j], buffer@[before.len() + j]);
                }
                assert(buffer@ =~= before + row@);
            }
        }
        proof {
            let prefix = data@.take(i + 1);
            assert(prefix.drop_last() =~= data@.take(i as int));
            assert(buffer@ =~= old(buffer)@ + plain_bytes(prefix));
        }
    }
    proof {
        assert(data@.take(n as int) =~= data@);
    }
}

/// The plain value region holds exactly one fixed-width slot per present
/// row: its byte length is the non-null row count times the width, and the
/// null and non-null counts always add up to the column's length.
pub proof fn lemma_value_region_length<const N: usize>(rows: Seq<[u8; N]>)
    ensures
        null_count_of(rows) <= rows.len(),
        plain_bytes(rows).len() == (rows.len() - null_count_of(rows)) * N,
    decreases rows.len(),
{
    if rows.len() == 0 {
        assert((rows.len() - null_count_of(rows)) * N == 0) by (nonlinear_arith)
            requires
                rows.len() == 0 && null_count_of(rows) == 0,
        ;
    } else {
        let prefix = rows.drop_last();
        lemma_value_region_length::<N>(prefix);
        let shorter = rows.len() - 1 - null_count_of(prefix);
        assert((shorter + 1) * N == shorter * N + N) by (nonlinear_arith);
        assert(plain_bytes(rows).len() == (rows.len() - null_count_of(rows)) * N);
    }
}

/// Reading the plain region back in fixed-width steps reproduces the
/// column: with every row present, the bytes from `i * N` to `(i + 1) * N`
/// are exactly the `i`-th row's bytes, in original order.
pub proof fn lemma_plain_round_trip<const N: usize>(rows: Seq<[u8; N]>)
    ensures
        plain_bytes(rows).len() == rows.len() * N,
        forall|i: int|
            0 <= i < rows.len() ==> rows[i]@ == plain_bytes(rows).subrange(i * N, i * N + N),
    decreases rows.len(),
{
    lemma_value_region_length::<N>(rows);
    crate::model::lemma_null_count_zero::<N>(rows);
    if rows.len() > 0 {
        let prefix = rows.drop_last();
        lemma_plain_round_trip::<N>(prefix);
        let len = rows.len() as int;
        assert(plain_bytes(rows).len() == len * N);
        assert(plain_bytes(rows) == plain_bytes(prefix) + rows.last()@);
        assert forall|i: int| 0 <= i < rows.len() implies rows[i]@ == plain_bytes(rows).subrange(
            i * N,
            i * N + N,
        ) by {
            assert(0 <= i * N && i * N + N == (i + 1) * N && (i + 1) * N <= len * N && (len - 1) * N
                + N == len * N) by (nonlinear_arith)
                requires
                    0 <= i < len,
            ;
            if i < len - 1 {
                assert((i + 1) * N <= (len - 1) * N) by (nonlinear_arith)
                    requires
                        0 <= i < len - 1,
                ;
                assert(plain_bytes(rows).subrange(i * N, i * N + N) =~= plain_bytes(
                    prefix,
                ).subrange(i * N, i * N + N));
                assert(prefix[i] == rows[i]);
                assert(rows[i]@ == plain_bytes(prefix).subrange(i * N, i * N + N));
            } else {
                assert(i * N == (len - 1) * N);
                assert(plain_bytes(rows).subrange(i * N, i * N + N) =~= rows.last()@);
                assert(rows[i] == rows.last());
            }
        }
    }
}

} // verus!
