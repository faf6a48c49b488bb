//! Block averages: the frame is tiled by `bs`-sized squares starting at the
//! top-left corner (the last row and column of tiles are clipped to the
//! frame), and each tile is summarised by the integer mean of its pixels.
use vstd::prelude::*;
use crate::image::{channel, opaque, Color, Image};

verus! {

/// Sum of channel `ch` over the `n` consecutive pixels starting at `start`.
pub open spec fn row_sum(s: Seq<Color>, start: int, n: nat, ch: int) -> int
    decreases n,
{
    if n == 0 {
        0
    } else {
        row_sum(s, start, (n - 1) as nat, ch) + channel(s[start + n - 1], ch)
    }
}

/// Sum of channel `ch` over the `bw` by `bh` rectangle whose top-left pixel is
/// `(x0, y0)` in a frame `w` pixels wide.
pub open spec fn rect_sum(s: Seq<Color>, w: int, x0: int, y0: int, bw: nat, bh: nat, ch: int) -> int
    decreases bh,
{
    if bh == 0 {
        0
    } else {
        rect_sum(s, w, x0, y0, bw, (bh - 1) as nat, ch) + row_sum(s, (y0 + bh - 1) * w + x0, bw, ch)
    }
}

/// Length of the tile that starts at `start`: `size`, clipped at `limit`.
pub open spec fn extent(start: int, size: int, limit: int) -> int {
    if start + size <= limit {
        size
    } else {
        limit - start
    }
}

/// Integer mean of channel `ch` over the tile with top-left corner `(x0, y0)`.
pub open spec fn tile_mean(s: Seq<Color>, w: int, h: int, bs: int, x0: int, y0: int, ch: int) -> int {
    let bw = extent(x0, bs, w);
    let bh = extent(y0, bs, h);
    rect_sum(s, w, x0, y0, bw as nat, bh as nat, ch) / (bw * bh)
}

/// The opaque colour of the tile with top-left corner `(x0, y0)`.
pub open spec fn tile_color(s: Seq<Color>, w: int, h: int, bs: int, x0: int, y0: int) -> Color {
    opaque(
        tile_mean(s, w, h, bs, x0, y0, 0) as u8,
        tile_mean(s, w, h, bs, x0, y0, 1) as u8,
        tile_mean(s, w, h, bs, x0, y0, 2) as u8,
    )
}

/// First coordinate of the tile that holds coordinate `v`.
pub open spec fn tile_origin(v: int, bs: int) -> int {
    (v / bs) * bs
}

/// The colour of the tile that holds pixel `(x, y)`.
pub open spec fn block_average(s: Seq<Color>, w: int, h: int, bs: int, x: int, y: int) -> Color {
    tile_color(s, w, h, bs, tile_origin(x, bs), tile_origin(y, bs))
}

/// Each channel of each pixel is at most 255, so a run of `n` pixels sums
/// to at most `255 * n`.
pub proof fn lemma_row_sum_bounds(s: Seq<Color>, start: int, n: nat, ch: int)
    requires
        0 <= start,
        start + n <= s.len(),
    ensures
        0 <= row_sum(s, start, n, ch) <= 255 * n,
    decreases n,
{
    if n > 0 {
        lemma_row_sum_bounds(s, start, (n - 1) as nat, ch);
    }
}

/// Index of pixel `(x, y)` lies inside the frame.
pub proof fn lemma_pixel_index(w: int, h: int, x: int, y: int)
    requires
        0 <= x < w,
        0 <= y < h,
    ensures
        0 <= y * w + x < w * h,
        y * w + x + 1 <= w * h,
{
    assert(y * w + x < w * h) by (nonlinear_arith)
        requires
            0 <= x < w,
            0 <= y < h,
    ;
    assert(0 <= y * w) by (nonlinear_arith)
        requires
            0 <= x < w,
            0 <= y < h,
    ;
}

/// Each row of a tile lies inside the frame.
pub proof fn lemma_tile_row_in_frame(w: int, h: int, x0: int, y: int, bw: int)
    requires
        0 <= x0,
        0 < bw,
        x0 + bw <= w,
        0 <= y < h,
    ensures
        0 <= y * w + x0,
        y * w + x0 + bw <= w * h,
{
    lemma_pixel_index(w, h, x0 + bw - 1, y);
    lemma_pixel_index(w, h, x0, y);
}

/// A tile inside the frame sums to at most `255` times its pixel count.
pub proof fn lemma_rect_sum_bounds(
    s: Seq<Color>,
    w: int,
    h: int,
    x0: int,
    y0: int,
    bw: nat,
    bh: nat,
    ch: int,
)
    requires
        s.len() == w * h,
        0 <= x0,
        0 < bw,
        x0 + bw <= w,
        0 <= y0,
        y0 + bh <= h,
    ensures
        0 <= rect_sum(s, w, x0, y0, bw, bh, ch) <= 255 * (bw * bh),
    decreases bh,
{
    if bh > 0 {
        lemma_rect_sum_bounds(s, w, h, x0, y0, bw, (bh - 1) as nat, ch);
        lemma_tile_row_in_frame(w, h, x0, y0 + bh - 1, bw as int);
        lemma_row_sum_bounds(s, (y0 + bh - 1) * w + x0, bw, ch);
        assert(255 * (bw * (bh - 1)) + 255 * bw == 255 * (bw * bh)) by (nonlinear_arith);
    }
}

/// A run of `n` pixels that all have colour `c` sums to `n` times its channel.
pub proof fn lemma_row_sum_constant(s: Seq<Color>, start: int, n: nat, ch: int, c: Color)
    requires
        forall|k: int| 0 <= k < n ==> #[trigger] s[start + k] == c,
    ensures
        row_sum(s, start, n, ch) == n * channel(c, ch),
    decreases n,
{
    if n > 0 {
        let m = (n - 1) as nat;
        let v = channel(c, ch);
        lemma_row_sum_constant(s, start, m, ch, c);
        assert(s[start + m] == c);
        assert(row_sum(s, start, n, ch) == row_sum(s, start, m, ch) + channel(s[start + m], ch));
        assert(m * v + v == n * v) by (nonlinear_arith)
            requires
                m == n - 1,
        ;
    } else {
        assert(n * channel(c, ch) == 0) by (nonlinear_arith)
            requires
                n == 0,
        ;
    }
}

/// A tile whose pixels all have colour `c` sums to its pixel count times
/// the channel.
pub proof fn lemma_rect_sum_constant(
    s: Seq<Color>,
    w: int,
    x0: int,
    y0: int,
    bw: nat,
    bh: nat,
    ch: int,
    c: Color,
)
    requires
        forall|dy: int, dx: int|
            0 <= dy < bh && 0 <= dx < bw ==> #[trigger] s[(y0 + dy) * w + x0 + dx] == c,
    ensures
        rect_sum(s, w, x0, y0, bw, bh, ch) == (bw * bh) * channel(c, ch),
    decreases bh,
{
    if bh > 0 {
        let m = (bh - 1) as nat;
        let v = channel(c, ch);
        lemma_rect_sum_constant(s, w, x0, y0, bw, m, ch, c);
        let start = (y0 + m) * w + x0;
        assert forall|k: int| 0 <= k < bw implies #[trigger] s[start + k] == c by {
            assert(s[(y0 + m) * w + x0 + k] == c);
        }
        lemma_row_sum_constant(s, start, bw, ch, c);
        assert(rect_sum(s, w, x0, y0, bw, bh, ch) == rect_sum(s, w, x0, y0, bw, m, ch) + row_sum(
            s,
            start,
            bw,
            ch,
        ));
        assert((bw * m) * v + bw * v == (bw * bh) * v) by (nonlinear_arith)
            requires
                m == bh - 1,
        ;
    } else {
        assert((bw * bh) * channel(c, ch) == 0) by (nonlinear_arith)
            requires
                bh == 0,
        ;
    }
}

/// The colour of the tile with top-left corner `(x0, y0)`, computed by
/// summing its pixels channel by channel.
pub fn tile_color_of(img: &Image, bs: usize, x0: usize, y0: usize) -> (c: Color)
    requires
        img.wf(),
        bs > 0,
        x0 < img.width,
        y0 < img.height,
    ensures
        c == tile_color(img.pixels@, img.width as int, img.height as int, bs as int, x0 as int, y0 as int),
{
    let w: usize = img.width;
    let h: usize = img.height;
    let ghost s = img.pixels@;
    let pixel_count: usize = img.pixels.len();
    assert(w * h == pixel_count);
    let bw: usize = if w - x0 >= bs { bs } else { w - x0 };
    let bh: usize = if h - y0 >= bs { bs } else { h - y0 };
    assert(bw == extent(x0 as int, bs as int, w as int));
    assert(bh == extent(y0 as int, bs as int, h as int));
    assert(bw * bh <= w * h) by (nonlinear_arith)
        requires
            0 < bw <= w,
            0 < bh <= h,
    ;
    let mut rs: u128 = 0;
    let mut gs: u128 = 0;
    let mut bsum: u128 = 0;
    let mut by: usize = 0;
    while by < bh
        invariant
            img.wf(),
            s == img.pixels@,
            w == img.width,
            h == img.height,
            x0 + bw <= w,
            y0 + bh <= h,
            0 < bw,
            bw * bh <= w * h,
            w * h <= usize::MAX,
            by <= bh,
            rs == rect_sum(s, w as int, x0 as int, y0 as int, bw as nat, by as nat, 0),
            gs == rect_sum(s, w as int, x0 as int, y0 as int, bw as nat, by as nat, 1),
            bsum == rect_sum(s, w as int, x0 as int, y0 as int, bw as nat, by as nat, 2),
        decreases bh - by,
    {
        proof {
            lemma_tile_row_in_frame(w as int, h as int, x0 as int, (y0 + by) as int, bw as int);
            lemma_rect_sum_bounds(s, w as int, h as int, x0 as int, y0 as int, bw as nat, by as nat, 0);
            lemma_rect_sum_bounds(s, w as int, h as int, x0 as int, y0 as int, bw as nat, by as nat, 1);
            lemma_rect_sum_bounds(s, w as int, h as int, x0 as int, y0 as int, bw as nat, by as nat, 2);
            assert(bw * by <= bw * bh) by (nonlinear_arith)
                requires
                    by <= bh,
                    0 < bw,
            ;
        }
        let row: usize = (y0 + by) * w + x0;
        let ghost rs0 = rs;
        let ghost gs0 = gs;
        let ghost bs0 = bsum;
        let mut bx: usize = 0;
        while bx < bw
            invariant
                img.wf(),
                s == img.pixels@,
                bx <= bw,
                row + bw <= s.len(),
                rs0 <= 255 * (bw * bh),
                gs0 <= 255 * (bw * bh),
                bs0 <= 255 * (bw * bh),
                bw * bh <= usize::MAX,
                s.len() <= usize::MAX,
                rs == rs0 + row_sum(s, row as int, bx as nat, 0),
                gs == gs0 + row_sum(s, row as int, bx as nat, 1),
                bsum == bs0 + row_sum(s, row as int, bx as nat, 2),
            decreases bw - bx,
        {
            proof {
                lemma_row_sum_bounds(s, row as int, bx as nat, 0);
                lemma_row_sum_bounds(s, row as int, bx as nat, 1);
                lemma_row_sum_bounds(s, row as int, bx as nat, 2);
            }
            let p: Color = img.pixels[row + bx];
            rs = rs + p.r as u128;
            gs = gs + p.g as u128;
            bsum = bsum + p.b as u128;
            bx = bx + 1;
        }
        by = by + 1;
    }
    assert(0 < bw * bh <= usize::MAX * usize::MAX) by (nonlinear_arith)
        requires
            0 < bw <= usize::MAX,
            0 < bh <= usize::MAX,
    ;
    let n: u128 = (bw as u128) * (bh as u128);
    Color {
        r: #[verifier::truncate] ((rs / n) as u8),
        g: #[verifier::truncate] ((gs / n) as u8),
        b: #[verifier::truncate] ((bsum / n) as u8),
        a: 255,
    }
}

/// Number of tiles of size `bs` needed to cover a length `n`.
pub open spec fn tile_count(n: int, bs: int) -> int {
    if n % bs == 0 {
        n / bs
    } else {
        n / bs + 1
    }
}

/// Tiles are numbered from zero: tile `j` starts inside the frame exactly
/// when `j` is below the tile count, and the tile of a coordinate inside the
/// frame has such a number.
pub proof fn lemma_tile_count(n: int, bs: int, j: int, v: int)
    requires
        0 < bs,
        0 < n,
        0 <= j,
        0 <= v < n,
    ensures
        j < tile_count(n, bs) ==> j * bs < n,
        v / bs < tile_count(n, bs),
        0 <= v / bs,
        tile_count(n, bs) <= n,
{
    let q = n / bs;
    let r = n % bs;
    assert(n == bs * q + r && 0 <= r < bs && 0 <= q) by (nonlinear_arith)
        requires
            0 < bs,
            0 < n,
            q == n / bs,
            r == n % bs,
    ;
    if j < tile_count(n, bs) {
        if r == 0 {
            assert(j * bs < n) by (nonlinear_arith)
                requires
                    j < q,
                    n == bs * q,
                    0 < bs,
                    0 <= j,
            ;
        } else {
            assert(j * bs < n) by (nonlinear_arith)
                requires
                    j <= q,
                    n == bs * q + r,
                    0 < r,
                    0 < bs,
                    0 <= j,
            ;
        }
    }
    let vq = v / bs;
    assert(vq * bs <= v && 0 <= vq) by (nonlinear_arith)
        requires
            0 < bs,
            0 <= v,
            vq == v / bs,
    ;
    if r == 0 {
        assert(vq < q) by (nonlinear_arith)
            requires
                vq * bs <= v,
                v < n,
                n == bs * q,
                0 < bs,
        ;
    } else {
        assert(vq <= q) by (nonlinear_arith)
            requires
                vq * bs <= v,
                v < n,
                n == bs * q + r,
                r < bs,
                0 < bs,
        ;
    }
    assert(q <= n) by (nonlinear_arith)
        requires
            n == bs * q + r,
            0 <= r,
            1 <= bs,
            0 < n,
    ;
    if r != 0 {
        assert(q < n) by (nonlinear_arith)
            requires
                n == bs * q + r,
                0 < r,
                1 <= bs,
                0 <= q,
        ;
    }
}

/// `n` split into `count` tiles of size `bs`, computed without overflow.
fn count_tiles(n: usize, bs: usize) -> (c: usize)
    requires
        0 < bs,
        0 < n,
    ensures
        c == tile_count(n as int, bs as int),
{
    proof {
        lemma_tile_count(n as int, bs as int, 0, 0);
    }
    if n % bs == 0 {
        n / bs
    } else {
        n / bs + 1
    }
}

/// Row `i / w`, column `i % w` of a position in a `w * h` frame.
pub proof fn lemma_position(i: int, w: int, h: int)
    requires
        0 <= i < w * h,
        0 < w,
    ensures
        0 <= i % w < w,
        0 <= i / w < h,
{
    assert(0 <= i % w < w) by (nonlinear_arith)
        requires
            0 < w,
    ;
    assert(0 <= i / w < h) by (nonlinear_arith)
        requires
            0 < w,
            0 <= i < w * h,
    ;
}

/// For every pixel, the colour of the tile of size `bs` that holds it.
pub fn block_averages(img: &Image, bs: usize) -> (out: Vec<Color>)
    requires
        img.wf(),
        bs > 0,
    ensures
        out@.len() == img.pixels@.len(),
        forall|i: int|
            0 <= i < out@.len() ==> #[trigger] out@[i] == block_average(
                img.pixels@,
                img.width as int,
                img.height as int,
                bs as int,
                i % (img.width as int),
                i / (img.width as int),
            ),
{
    let w: usize = img.width;
    let h: usize = img.height;
    let ghost s = img.pixels@;
    if w == 0 || h == 0 {
        assert(w * h == 0) by (nonlinear_arith)
            requires
                w == 0 || h == 0,
        ;
        return Vec::new();
    }
    let len: usize = img.pixels.len();
    let ncols: usize = count_tiles(w, bs);
    let nrows: usize = count_tiles(h, bs);
    let mut tiles: Vec<Vec<Color>> = Vec::new();
    let mut k: usize = 0;
    while k < nrows
        invariant
            img.wf(),
            s == img.pixels@,
            w == img.width,
            h == img.height,
            0 < w,
            0 < h,
            0 < bs,
            ncols == tile_count(w as int, bs as int),
            nrows == tile_count(h as int, bs as int),
            k <= nrows,
            tiles@.len() == k,
            forall|kk: int|
                0 <= kk < k ==> (#[trigger] tiles@[kk])@.len() == ncols,
            forall|kk: int, j: int|
                0 <= kk < k && 0 <= j < ncols ==> #[trigger] tiles@[kk]@[j] == tile_color(
                    s,
                    w as int,
                    h as int,
                    bs as int,
                    j * bs,
                    kk * bs,
                ),
        decreases nrows - k,
    {
        proof {
            lemma_tile_count(h as int, bs as int, k as int, 0);
        }
        let y0: usize = k * bs;
        let mut row: Vec<Color> = Vec::new();
        let mut j: usize = 0;
        while j < ncols
            invariant
                img.wf(),
                s == img.pixels@,
                w == img.width,
                h == img.height,
                0 < w,
                0 < bs,
                ncols == tile_count(w as int, bs as int),
                y0 == k * bs,
                y0 < h,
                j <= ncols,
                row@.len() == j,
                forall|jj: int|
                    0 <= jj < j ==> #[trigger] row@[jj] == tile_color(
                        s,
                        w as int,
                        h as int,
                        bs as int,
                        jj * bs,
                        y0 as int,
                    ),
            decreases ncols - j,
        {
            proof {
                lemma_tile_count(w as int, bs as int, j as int, 0);
            }
            let x0: usize = j * bs;
            let c: Color = tile_color_of(img, bs, x0, y0);
            row.push(c);
            j = j + 1;
        }
        tiles.push(row);
        k = k + 1;
    }
    let mut out: Vec<Color> = Vec::new();
    let mut i: usize = 0;
    while i < len
        invariant
            img.wf(),
            s == img.pixels@,
            w == img.width,
            h == img.height,
            len == s.len(),
            0 < w,
            0 < h,
            0 < bs,
            ncols == tile_count(w as int, bs as int),
            nrows == tile_count(h as int, bs as int),
            tiles@.len() == nrows,
            forall|kk: int|
                0 <= kk < nrows ==> (#[trigger] tiles@[kk])@.len() == ncols,
            forall|kk: int, j: int|
                0 <= kk < nrows && 0 <= j < ncols ==> #[trigger] tiles@[kk]@[j] == tile_color(
                    s,
                    w as int,
                    h as int,
                    bs as int,
                    j * bs,
                    kk * bs,
                ),
            i <= len,
            out@.len() == i,
            forall|ii: int|
                0 <= ii < i ==> #[trigger] out@[ii] == block_average(
                    s,
                    w as int,
                    h as int,
                    bs as int,
                    ii % (w as int),
                    ii / (w as int),
                ),
        decreases len - i,
    {
        let x: usize = i % w;
        let y: usize = i / w;
        proof {
            lemma_position(i as int, w as int, h as int);
            lemma_tile_count(w as int, bs as int, 0, x as int);
            lemma_tile_count(h as int, bs as int, 0, y as int);
        }
        let c: Color = tiles[y / bs][x / bs];
        out.push(c);
        i = i + 1;
    }
    out
}

} // verus!
