//! Which cached positions each new query position may attend to.
//!
//! With `kv_len` keys of which the last `q_len` belong to the new positions,
//! query `i` sits at absolute position `i + kv_len - q_len` and sees every key
//! at or before it.

use vstd::prelude::*;

verus! {

/// Whether query `i` of `q_len` new positions may attend to key `j` of
/// `kv_len` cached ones.
pub open spec fn visible(i: int, j: int, q_len: int, kv_len: int) -> bool {
    j + q_len <= i + kv_len
}

/// Row-major position of entry `(i, j)` in a matrix with rows of `width`.
pub open spec fn flat_index(i: int, j: int, width: int) -> int {
    i * width + j
}

/// Whether query `i` may attend to key `j`.
pub fn is_visible(i: usize, j: usize, q_len: usize, kv_len: usize) -> (r: bool)
    ensures
        r == visible(i as int, j as int, q_len as int, kv_len as int),
{
    if j >= i {
        kv_len >= q_len && j - i <= kv_len - q_len
    } else {
        q_len <= kv_len || q_len - kv_len <= i - j
    }
}

/// The causal mask of `q_len` new positions against `kv_len` cached ones,
/// row by row: entry `(i, j)` says whether query `i` may attend to key `j`.
pub fn causal_mask(q_len: usize, kv_len: usize) -> (r: Vec<bool>)
    requires
        q_len * kv_len <= usize::MAX,
    ensures
        r@.len() == q_len * kv_len,
        forall|i: int, j: int|
            0 <= i < q_len && 0 <= j < kv_len ==> #[trigger] r@[flat_index(i, j, kv_len as int)]
                == visible(i, j, q_len as int, kv_len as int),
{
    let mut mask: Vec<bool> = Vec::new();
    let mut i: usize = 0;
    while i < q_len
        invariant
            i <= q_len,
            q_len * kv_len <= usize::MAX,
            mask@.len() == i * kv_len,
            forall|a: int, b: int|
                0 <= a < i && 0 <= b < kv_len ==> #[trigger] mask@[flat_index(a, b, kv_len as int)]
                    == visible(a, b, q_len as int, kv_len as int),
        decreases q_len - i,
    {
        proof {
            assert((i + 1) * kv_len <= q_len * kv_len) by (nonlinear_arith)
                requires
                    i < q_len,
            ;
            assert((i + 1) * kv_len == i * kv_len + kv_len) by (nonlinear_arith);
        }
        let mut j: usize = 0;
        while j < kv_len
            invariant
                i < q_len,
                j <= kv_len,
                (i + 1) * kv_len <= usize::MAX,
                (i + 1) * kv_len == i * kv_len + kv_len,
                mask@.len() == i * kv_len + j,
                forall|a: int, b: int|
                    0 <= a < i && 0 <= b < kv_len ==> #[trigger] mask@[flat_index(a, b, kv_len as int)]
                        == visible(a, b, q_len as int, kv_len as int),
                forall|b: int|
                    0 <= b < j ==> #[trigger] mask@[flat_index(i as int, b, kv_len as int)]
                        == visible(i as int, b, q_len as int, kv_len as int),
            decreases kv_len - j,
        {
            let ghost before = mask@;
            let v = is_visible(i, j, q_len, kv_len);
            mask.push(v);
            proof {
                assert forall|a: int, b: int|
                    0 <= a < i && 0 <= b < kv_len implies #[trigger] mask@[flat_index(a, b, kv_len as int)]
                        == visible(a, b, q_len as int, kv_len as int) by {
                    assert(flat_index(a, b, kv_len as int) < i * kv_len) by (nonlinear_arith)
                        requires
                            a < i,
                            b < kv_len,
                            flat_index(a, b, kv_len as int) == a * kv_len + b,
                    ;
                    assert(mask@[flat_index(a, b, kv_len as int)] == before[flat_index(a, b, kv_len as int)]);
                }
                assert forall|b: int|
                    0 <= b < j + 1 implies #[trigger] mask@[flat_index(i as int, b, kv_len as int)]
                        == visible(i as int, b, q_len as int, kv_len as int) by {
                    if b < j {
                        assert(mask@[flat_index(i as int, b, kv_len as int)] == before[flat_index(i as int, b, kv_len as int)]);
                    }
                }
            }
            j = j + 1;
        }
        i = i + 1;
    }
    mask
}

} // verus!
