//! The validity deriver: one pass over the column yielding the validity
//! stream and the running null count.

use vstd::prelude::*;

use crate::model::{null_count_of, row_is_valid, validity_of};

verus! {

/// Executable twin of [`row_is_valid`], the extension point for null
/// classification: every row is currently reported present.
pub fn is_valid_row<const N: usize>(row: &[u8; N]) -> (b: bool)
    ensures
        b == row_is_valid(*row),
{
    true
}

/// Walks the column once and reports, per row, whether the value is
/// present, together with the number of rows found null. The column itself
/// is never changed.
pub fn derive_validity<const N: usize>(data: &[[u8; N]]) -> (r: (Vec<bool>, usize))
    ensures
        r.0@ == validity_of(data@),
        r.1 == null_count_of(data@),
        r.0@.len() == data@.len(),
        r.1 <= data@.len(),
{
    let n = data.len();
    let mut bits: Vec<bool> = Vec::new();
    let mut nulls: usize = 0;
    for i in 0..n
        invariant
            n == data@.len(),
            bits@ == validity_of(data@.take(i as int)),
            nulls == null_count_of(data@.take(i as int)),
            nulls <= i,
    {
        let v = is_valid_row(&data[i]);
        if !v {
            nulls = nulls + 1;
        }
        bits.push(v);
        proof {
            let prefix = data@.take(i + 1);
            assert(prefix.drop_last() =~= data@.take(i as int));
            assert(bits@ =~= validity_of(prefix));
        }
    }
    proof {
        assert(data@.take(n as int) =~= data@);
    }
    (bits, nulls)
}

} // verus!
