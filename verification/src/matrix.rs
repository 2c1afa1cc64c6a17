//! Sums over blocks of bytes, added up in parallel.

use vstd::prelude::*;

verus! {

/// The sum of the bytes.
pub open spec fn total(bytes: Seq<u8>) -> nat
    decreases bytes.len(),
{
    if bytes.len() == 0 {
        0
    } else {
        total(bytes.drop_last()) + bytes.last() as nat
    }
}

/// `a` and the byte `b` added up.
pub fn add_byte(a: u64, b: u8) -> (r: u64)
    requires
        a + b <= u64::MAX,
    ensures
        r == a + b,
{
    a + b as u64
}

/// Adds up the bytes with `rayon`: the block is cut into parts, each part
/// is folded with `add_byte`, and the parts' sums are added. The result is
/// the sum of the bytes, whichever way the block was cut.
#[verifier::external_body]
fn par_sum(bytes: &[u8]) -> (r: u64)
    requires
        255 * bytes@.len() <= u64::MAX,
    ensures
        r == total(bytes@),
{
    let parts = rayon::iter::ParallelIterator::fold_with(
        rayon::iter::IntoParallelIterator::into_par_iter(bytes),
        0_u64,
        |a: u64, b: &u8| add_byte(a, *b),
    );
    rayon::iter::ParallelIterator::sum::<u64>(parts)
}

/// The sum of the bytes of `matrix`.
pub fn sum(matrix: &[u8]) -> (r: u64)
    requires
        255 * matrix@.len() <= u64::MAX,
    ensures
        r == total(matrix@),
{
    par_sum(matrix)
}

} // verus!
