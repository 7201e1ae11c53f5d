//! Layout of a render: image size, how the samples are split over worker
//! threads, and the order in which pixels are accumulated and written.
//!
//! Pixels are addressed by `(i, j)`, column `i` from the left and row `j`
//! from the bottom. Output runs row by row from the top row down, each row
//! from left to right; a pixel's accumulator cell is its position in that
//! output.

use vstd::prelude::*;
use vstd::arithmetic::div_mod::lemma_fundamental_div_mod_converse;

verus! {

/// Position in the output of pixel `(i, j)` of an image `width` pixels wide
/// and `height` pixels high.
pub open spec fn scan_position(width: int, height: int, i: int, j: int) -> int {
    (height - 1 - j) * width + i
}

/// The pixel `(i, j)` at position `k` of the output.
pub open spec fn scan_pixel_at(width: int, height: int, k: int) -> (int, int) {
    (k % width, height - 1 - k / width)
}

/// Output positions and pixels correspond one to one: every pixel is
/// written exactly once, the top row first.
pub proof fn lemma_scan_order_is_bijective(width: int, height: int)
    requires
        width > 0,
        height > 0,
    ensures
        forall|i: int, j: int|
            #![trigger scan_position(width, height, i, j)]
            0 <= i < width && 0 <= j < height ==> {
                let k = scan_position(width, height, i, j);
                &&& 0 <= k < width * height
                &&& scan_pixel_at(width, height, k) == (i, j)
            },
        forall|k: int|
            #![trigger scan_pixel_at(width, height, k)]
            0 <= k < width * height ==> {
                let (i, j) = scan_pixel_at(width, height, k);
                &&& 0 <= i < width
                &&& 0 <= j < height
                &&& scan_position(width, height, i, j) == k
            },
{
    assert forall|i: int, j: int|
        #![trigger scan_position(width, height, i, j)]
        0 <= i < width && 0 <= j < height implies {
            let k = scan_position(width, height, i, j);
            &&& 0 <= k < width * height
            &&& scan_pixel_at(width, height, k) == (i, j)
        } by {
        lemma_position_in_range(width, height, i, j);
        let k = scan_position(width, height, i, j);
        lemma_fundamental_div_mod_converse(k, width, height - 1 - j, i);
    }
    assert forall|k: int|
        #![trigger scan_pixel_at(width, height, k)]
        0 <= k < width * height implies {
            let (i, j) = scan_pixel_at(width, height, k);
            &&& 0 <= i < width
            &&& 0 <= j < height
            &&& scan_position(width, height, i, j) == k
        } by {
        lemma_pixel_in_range(width, height, k);
    }
}

proof fn lemma_position_in_range(width: int, height: int, i: int, j: int)
    requires
        width > 0,
        0 <= i < width,
        0 <= j < height,
    ensures
        0 <= scan_position(width, height, i, j) < width * height,
{
    let r = height - 1 - j;
    assert(0 <= r * width) by (nonlinear_arith)
        requires
            r >= 0,
            width > 0,
    ;
    assert(r * width + i < width * height) by (nonlinear_arith)
        requires
            r == height - 1 - j,
            0 <= i < width,
            0 <= j,
    ;
}

proof fn lemma_pixel_in_range(width: int, height: int, k: int)
    requires
        width > 0,
        height > 0,
        0 <= k < width * height,
    ensures
        0 <= k / width < height,
        scan_position(width, height, k % width, height - 1 - k / width) == k,
{
    let q = k / width;
    assert(k == width * q + k % width && 0 <= k % width < width) by (nonlinear_arith)
        requires
            width > 0,
            q == k / width,
    ;
    assert(0 <= q < height) by (nonlinear_arith)
        requires
            width > 0,
            0 <= k < width * height,
            k == width * q + k % width,
            0 <= k % width < width,
    ;
    assert(scan_position(width, height, k % width, height - 1 - q) == q * width + k % width);
    assert(q * width == width * q) by (nonlinear_arith);
}

/// The layout of one render.
#[derive(Clone, Copy, Debug, PartialEq, Eq, Structural)]
pub struct RenderPlan {
    pub width: usize,
    pub height: usize,
    /// Full passes over every pixel that each thread renders.
    pub samples_per_thread: usize,
    pub thread_count: usize,
}

impl RenderPlan {
    /// All counts are positive, and the pixel and sample totals fit a `usize`.
    pub open spec fn wf(&self) -> bool {
        &&& self.width > 0
        &&& self.height > 0
        &&& self.samples_per_thread > 0
        &&& self.thread_count > 0
        &&& self.width * self.height <= usize::MAX
        &&& self.samples_per_thread * self.thread_count <= usize::MAX
    }

    /// A plan with the given counts, or `None` where one is zero or a total
    /// does not fit a `usize`.
    pub fn new(width: usize, height: usize, samples_per_thread: usize, thread_count: usize) -> (p:
        Option<RenderPlan>)
        ensures
            p is Some <==> (RenderPlan { width, height, samples_per_thread, thread_count }).wf(),
            p is Some ==> p == Some(RenderPlan { width, height, samples_per_thread, thread_count }),
    {
        if width == 0 || height == 0 || samples_per_thread == 0 || thread_count == 0 {
            return None;
        }
        match (width.checked_mul(height), samples_per_thread.checked_mul(thread_count)) {
            (Some(_), Some(_)) => Some(RenderPlan { width, height, samples_per_thread, thread_count }),
            _ => None,
        }
    }

    /// Number of pixels, and of accumulator cells.
    pub fn pixel_count(&self) -> (n: usize)
        requires
            self.wf(),
        ensures
            n == self.width * self.height,
    {
        self.width * self.height
    }

    /// Number of samples that every pixel's mean is taken over.
    pub fn total_samples(&self) -> (n: usize)
        requires
            self.wf(),
        ensures
            n == self.samples_per_thread * self.thread_count,
    {
        self.samples_per_thread * self.thread_count
    }

    /// Output position, and accumulator cell, of pixel `(i, j)`.
    pub fn cell_index(&self, i: usize, j: usize) -> (k: usize)
        requires
            self.wf(),
            i < self.width,
            j < self.height,
        ensures
            k == scan_position(self.width as int, self.height as int, i as int, j as int),
            k < self.width * self.height,
    {
        proof {
            lemma_position_in_range(self.width as int, self.height as int, i as int, j as int);
        }
        (self.height - 1 - j) * self.width + i
    }

    /// The pixel `(i, j)` at output position `k`.
    pub fn pixel_at(&self, k: usize) -> (p: (usize, usize))
        requires
            self.wf(),
            k < self.width * self.height,
        ensures
            (p.0 as int, p.1 as int) == scan_pixel_at(self.width as int, self.height as int, k as int),
            p.0 < self.width,
            p.1 < self.height,
    {
        proof {
            lemma_pixel_in_range(self.width as int, self.height as int, k as int);
        }
        (k % self.width, self.height - 1 - k / self.width)
    }
}

} // verus!
