use crate::grid::{cell_sample, flipped, grid_pos, is_sample_grid};
use crate::rand_box::{byte_draw, fresh_rng, size_draw, RandBox};
use rand::rngs::StdRng;
use vstd::arithmetic::div_mod::{lemma_fundamental_div_mod, lemma_div_pos_is_pos, lemma_mod_bound};
use vstd::prelude::*;

verus! {

/// One draw asked of a generator: a `u8` or a `usize` from `[lo, hi)`.
pub enum DrawRequest {
    Byte(u8, u8),
    Size(usize, usize),
}

/// The values that a generator in state `rng` gives for the draws `reqs`,
/// made one after another. A request with an empty range gives `None` and
/// leaves the state as it was.
pub open spec fn replay(rng: StdRng, reqs: Seq<DrawRequest>) -> Seq<Option<int>>
    decreases reqs.len(),
{
    if reqs.len() == 0 {
        Seq::empty()
    } else {
        let rest = reqs.subrange(1, reqs.len() as int);
        match reqs[0] {
            DrawRequest::Byte(lo, hi) => {
                if lo < hi {
                    let (v, next) = byte_draw(rng, lo, hi);
                    seq![Some(v as int)] + replay(next, rest)
                } else {
                    seq![None] + replay(rng, rest)
                }
            },
            DrawRequest::Size(lo, hi) => {
                if lo < hi {
                    let (v, next) = size_draw(rng, lo, hi);
                    seq![Some(v as int)] + replay(next, rest)
                } else {
                    seq![None] + replay(rng, rest)
                }
            },
        }
    }
}

/// Two sources built from the same seed text hold the same generator state
/// and the same two noise fields, so every later evaluation agrees.
pub proof fn lemma_same_seed_same_source(a: RandBox, b: RandBox, hash: Seq<char>)
    requires
        a.seeded_by(hash),
        b.seeded_by(hash),
    ensures
        a.rng == b.rng,
        a.perlin == b.perlin,
        a.simplex == b.simplex,
{
}

/// After `reset`, a source gives for any sequence of draws the same values
/// that it gave after construction from its seed text.
pub proof fn lemma_reset_replays(constructed: RandBox, restarted: RandBox, reqs: Seq<DrawRequest>)
    requires
        constructed.seeded_by(restarted.hash@),
        restarted.rng == fresh_rng(restarted.hash@),
    ensures
        replay(constructed.rng, reqs) == replay(restarted.rng, reqs),
{
}

/// A grid with no flip and no rotation samples cell `(col, row)` at `(col, row)`.
pub proof fn lemma_grid_identity(width: int, height: int, col: int, row: int)
    requires
        0 <= col < width,
        0 <= row < height,
    ensures
        cell_sample(width, height, col, row, false, false, false) == (col, row),
{
}

/// Flipping an index twice across the same span gives the index back, and a
/// flip maps `[0, n)` onto itself.
pub proof fn lemma_flip_involution(n: int, c: int)
    ensures
        flipped(n, flipped(n, c, true), true) == c,
        0 <= c < n ==> 0 <= flipped(n, c, true) < n,
{
}

/// The grid layout is determined by its parameters: two cell lists that both
/// lay out the same grid are equal.
pub proof fn lemma_sample_grid_unique(
    a: Seq<(i64, i64)>,
    b: Seq<(i64, i64)>,
    width: int,
    height: int,
    flip_x: bool,
    flip_y: bool,
    rotate: bool,
)
    requires
        0 <= width,
        0 <= height,
        is_sample_grid(a, width, height, flip_x, flip_y, rotate),
        is_sample_grid(b, width, height, flip_x, flip_y, rotate),
    ensures
        a == b,
{
    assert forall|i: int| 0 <= i < a.len() implies a[i] == b[i] by {
        let row = i / width;
        let col = i % width;
        assert(width > 0) by (nonlinear_arith)
            requires
                0 <= i < width * height,
                0 <= height,
        ;
        lemma_fundamental_div_mod(i, width);
        lemma_mod_bound(i, width);
        lemma_div_pos_is_pos(i, width);
        assert(i == grid_pos(width, row, col));
        assert(row < height) by (nonlinear_arith)
            requires
                i == row * width + col,
                0 <= col,
                i < width * height,
                width > 0,
        ;
        let sa = a[grid_pos(width, row, col)];
        let sb = b[grid_pos(width, row, col)];
        assert((sa.0 as int, sa.1 as int) == (sb.0 as int, sb.1 as int));
    }
    assert(a =~= b);
}

} // verus!
