//! Ordered dithering: a deterministic per-dot brightness threshold, equal to
//! the classical order-3 Bayer matrix without storing it.

use vstd::prelude::*;

verus! {

/// Order of the Bayer matrix: the threshold pattern repeats every `1 << M`
/// dots in both axes.
const M: usize = 3;

/// The order-3 Bayer value for `(x, y)` with both coordinates already below
/// 8: the bits of `x` and of `x ^ y` interleaved in reverse order, most
/// significant relevant bit first.
pub open spec fn bayer8(x: u8, y: u8) -> u8
    recommends
        x < 8,
        y < 8,
{
    let xc = x;
    let yc = x ^ y;
    ((xc >> 2) & 1) | (((yc >> 2) & 1) << 1) | (((xc >> 1) & 1) << 2) | (((yc >> 1) & 1) << 3) | (
    (xc & 1) << 4) | ((yc & 1) << 5)
}

/// The Bayer threshold matrix value for `(x, y)`, reduced modulo the matrix
/// period.
pub open spec fn threshold_spec(x: int, y: int) -> u8 {
    bayer8((x % 8) as u8, (y % 8) as u8)
}

/// Every threshold lies below the maximum brightness.
pub proof fn lemma_threshold_bound(x: int, y: int)
    ensures
        threshold_spec(x, y) < 64,
{
    let xb = (x % 8) as u8;
    let yb = (y % 8) as u8;
    assert(bayer8(xb, yb) < 64) by (bit_vector);
}

/// The threshold pattern repeats every 8 dots in both axes.
pub proof fn lemma_threshold_periodic(x: int, y: int)
    ensures
        threshold_spec(x + 8, y) == threshold_spec(x, y),
        threshold_spec(x, y + 8) == threshold_spec(x, y),
{
    assert((x + 8) % 8 == x % 8);
    assert((y + 8) % 8 == y % 8);
}

/// Get the (2^M) x (2^M) Bayer threshold matrix value for (x, y).
pub fn threshold(x: usize, y: usize) -> (r: usize)
    ensures
        r == threshold_spec(x as int, y as int),
        r < 64,
{
    let n: usize = 1 << M;
    proof {
        assert(1usize << 3usize == 8usize) by (bit_vector);
    }
    let x = x % n;
    let y = y % n;

    let mut v: usize = 0;
    let mut mask: usize = if M > 0 {
        M - 1
    } else {
        0
    };
    let xc = x;
    let yc = x ^ y;
    let mut bit: usize = 0;

    // This loop does an "interleave in reverse order" of x and (x ^ y).
    while bit < 2 * M
        invariant
            x < 8,
            y < 8,
            yc == x ^ y,
            xc == x,
            bit == 0 || bit == 2 || bit == 4 || bit == 6,
            mask == (if bit < 4 {
                2 - bit / 2
            } else {
                0int
            }),
            v == (if bit == 0 {
                0usize
            } else if bit == 2 {
                ((xc >> 2) & 1) | (((yc >> 2) & 1) << 1usize)
            } else if bit == 4 {
                (((xc >> 2) & 1) | (((yc >> 2) & 1) << 1usize)) | ((((xc >> 1) & 1) << 2usize) | ((
                (yc >> 1) & 1) << 3usize))
            } else {
                (((xc >> 2) & 1) | (((yc >> 2) & 1) << 1usize)) | ((((xc >> 1) & 1) << 2usize) | ((
                (yc >> 1) & 1) << 3usize)) | (((xc & 1) << 4usize) | ((yc & 1) << 5usize))
            }),
        decreases 2 * M - bit,
    {
        let ghost v0 = v;
        let ghost m0 = mask;
        let ghost b0 = bit;
        v |= ((xc >> mask) & 1) << bit;
        bit += 1;
        v |= ((yc >> mask) & 1) << bit;
        bit += 1;
        mask = if mask > 0 {
            mask - 1
        } else {
            0
        };
        proof {
            if b0 == 0 {
                assert(v == ((xc >> 2) & 1) | (((yc >> 2) & 1) << 1usize)) by (bit_vector)
                    requires
                        v == (v0 | (((xc >> m0) & 1) << b0)) | (((yc >> m0) & 1) << (b0 + 1)),
                        v0 == 0usize,
                        m0 == 2usize,
                        b0 == 0usize,
                ;
            } else if b0 == 2 {
                assert(v == (((xc >> 2) & 1) | (((yc >> 2) & 1) << 1usize)) | ((((xc >> 1) & 1)
                    << 2usize) | (((yc >> 1) & 1) << 3usize))) by (bit_vector)
                    requires
                        v == (v0 | (((xc >> m0) & 1) << b0)) | (((yc >> m0) & 1) << (b0 + 1)),
                        v0 == ((xc >> 2) & 1) | (((yc >> 2) & 1) << 1usize),
                        m0 == 1usize,
                        b0 == 2usize,
                ;
            } else {
                assert(v == (((xc >> 2) & 1) | (((yc >> 2) & 1) << 1usize)) | ((((xc >> 1) & 1)
                    << 2usize) | (((yc >> 1) & 1) << 3usize)) | (((xc & 1) << 4usize) | ((yc & 1)
                    << 5usize))) by (bit_vector)
                    requires
                        v == (v0 | (((xc >> m0) & 1) << b0)) | (((yc >> m0) & 1) << (b0 + 1)),
                        v0 == (((xc >> 2) & 1) | (((yc >> 2) & 1) << 1usize)) | ((((xc >> 1) & 1)
                            << 2usize) | (((yc >> 1) & 1) << 3usize)),
                        m0 == 0usize,
                        b0 == 4usize,
                ;
            }
        }
    }
    proof {
        assert(v == bayer8(x as u8, y as u8) && v < 64) by (bit_vector)
            requires
                x < 8usize,
                y < 8usize,
                yc == x ^ y,
                xc == x,
                v == (((xc >> 2) & 1) | (((yc >> 2) & 1) << 1usize)) | ((((xc >> 1) & 1) << 2usize)
                    | (((yc >> 1) & 1) << 3usize)) | (((xc & 1) << 4usize) | ((yc & 1) << 5usize)),
        ;
    }
    v
}

/// Get the highest threshold value for M: the maximum brightness, 64.
pub fn max_brightness() -> (r: usize)
    ensures
        r == 64,
{
    let p: usize = 1 << M;
    proof {
        assert(1usize << 3usize == 8usize) by (bit_vector);
    }
    p * p
}

} // verus!
