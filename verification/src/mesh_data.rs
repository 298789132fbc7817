//! Vertex data of a render command, split into per-vertex pairs.

use vstd::prelude::*;

verus! {

/// The `i`-th pair of an interleaved `x0, y0, x1, y1, ...` buffer.
pub open spec fn pair_at<T>(flat: Seq<T>, i: int) -> (T, T) {
    (flat[2 * i], flat[2 * i + 1])
}

/// Pair `i` is made of elements `2i` and `2i + 1`, whatever the length of
/// the buffer, and consecutive pairs cover consecutive elements.
pub proof fn lemma_pair_at_elements<T>(flat: Seq<T>, i: int)
    ensures
        pair_at(flat, i).0 == flat[2 * i],
        pair_at(flat, i).1 == flat[2 * i + 1],
        pair_at(flat, i + 1).0 == flat[2 * i + 2],
{
}

/// Splits the first `n` pairs out of an interleaved `x0, y0, x1, y1, ...`
/// buffer (positions or texture coordinates of a render command).
pub fn vertex_pairs<T: Copy>(flat: &[T], n: usize) -> (r: Vec<(T, T)>)
    requires
        2 * n <= flat@.len(),
    ensures
        r@.len() == n,
        forall|i: int| 0 <= i < n ==> #[trigger] r@[i] == pair_at(flat@, i),
        forall|i: int|
            0 <= i < n ==> #[trigger] r@[i].0 == flat@[2 * i] && r@[i].1 == flat@[2 * i + 1],
{
    let mut out: Vec<(T, T)> = Vec::with_capacity(n);
    let len = flat.len();
    let mut i: usize = 0;
    while i < n
        invariant
            len == flat@.len(),
            2 * n <= flat@.len(),
            i <= n,
            out@.len() == i,
            forall|j: int| 0 <= j < i ==> #[trigger] out@[j] == pair_at(flat@, j),
        decreases n - i,
    {
        let x = flat[i * 2];
        let y = flat[i * 2 + 1];
        out.push((x, y));
        i = i + 1;
    }
    out
}

} // verus!
