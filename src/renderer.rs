use vstd::prelude::*;

verus! {

/// Splits a linear framebuffer index into pixel coordinates `(x, y)` for rows of `width`
/// pixels.
pub fn get_xy(index: u32, width: u32) -> (r: (u32, u32))
    requires
        width > 0,
    ensures
        r.0 == index % width,
        r.1 == index / width,
        r.0 < width,
        r.1 * width + r.0 == index,
{
    let x = index % width;
    let y = index / width;
    proof {
        vstd::arithmetic::div_mod::lemma_fundamental_div_mod(index as int, width as int);
        assert(y * width == width * y) by (nonlinear_arith);
    }
    (x, y)
}

/// A half-open run `[start, end)` of framebuffer cells owned by one worker.
#[derive(Debug, Clone, Copy, PartialEq, Eq)]
pub struct PixelRange {
    pub start: usize,
    pub end: usize,
}

impl PixelRange {
    pub open spec fn contains(self, p: int) -> bool {
        self.start <= p < self.end
    }

    pub open spec fn size(self) -> int {
        self.end - self.start
    }
}

/// Number of cells that worker `k` of `workers` receives out of `len`: the cells are dealt
/// out evenly, the first `len % workers` workers taking one extra.
pub open spec fn chunk_len(len: nat, workers: nat, k: nat) -> nat
    recommends
        workers > 0,
{
    len / workers + if k < len % workers { 1nat } else { 0nat }
}

/// `ranges` cuts `[0, len)` into consecutive, non-overlapping pieces, in order.
pub open spec fn is_partition(ranges: Seq<PixelRange>, len: nat) -> bool {
    &&& ranges.len() > 0
    &&& ranges[0].start == 0
    &&& ranges.last().end == len
    &&& forall|k: int| 0 <= k < ranges.len() ==> (#[trigger] ranges[k]).start <= ranges[k].end
    &&& forall|k: int| 0 <= k < ranges.len() - 1 ==> (#[trigger] ranges[k]).end == ranges[k + 1].start
}

/// Later pieces of a partition start no earlier than earlier pieces end.
proof fn lemma_partition_ordered(ranges: Seq<PixelRange>, len: nat, i: int, j: int)
    requires
        is_partition(ranges, len),
        0 <= i < j < ranges.len(),
    ensures
        ranges[i].end <= ranges[j].start,
    decreases j - i,
{
    if j > i + 1 {
        lemma_partition_ordered(ranges, len, i, j - 1);
        assert(ranges[j - 1].start <= ranges[j - 1].end);
        assert(ranges[j - 1].end == ranges[j].start);
    } else {
        assert(ranges[i].end == ranges[i + 1].start);
    }
}

/// A cell before the end of piece `k` lies in piece `k` or in an earlier one.
proof fn lemma_partition_reaches(ranges: Seq<PixelRange>, len: nat, k: int, p: int)
    requires
        is_partition(ranges, len),
        0 <= k < ranges.len(),
        0 <= p < ranges[k].end,
    ensures
        exists|j: int| 0 <= j <= k && (#[trigger] ranges[j]).contains(p),
    decreases k,
{
    if p >= ranges[k].start {
        assert(ranges[k].contains(p));
    } else {
        assert(k > 0);
        assert(ranges[k - 1].end == ranges[k].start);
        lemma_partition_reaches(ranges, len, k - 1, p);
        let j = choose|j: int| 0 <= j <= k - 1 && (#[trigger] ranges[j]).contains(p);
        assert(ranges[j].contains(p));
    }
}

/// Every pixel of a partitioned framebuffer belongs to exactly one worker's range.
pub proof fn lemma_partition_covers_once(ranges: Seq<PixelRange>, len: nat, p: int)
    requires
        is_partition(ranges, len),
        0 <= p < len,
    ensures
        exists|k: int| 0 <= k < ranges.len() && (#[trigger] ranges[k]).contains(p),
        forall|k1: int, k2: int|
            0 <= k1 < ranges.len() && 0 <= k2 < ranges.len() && (#[trigger] ranges[k1]).contains(p)
                && (#[trigger] ranges[k2]).contains(p) ==> k1 == k2,
{
    lemma_partition_reaches(ranges, len, ranges.len() - 1, p);
    assert forall|k1: int, k2: int|
        0 <= k1 < ranges.len() && 0 <= k2 < ranges.len() && (#[trigger] ranges[k1]).contains(p)
            && (#[trigger] ranges[k2]).contains(p) implies k1 == k2 by {
        if k1 < k2 {
            lemma_partition_ordered(ranges, len, k1, k2);
        } else if k2 < k1 {
            lemma_partition_ordered(ranges, len, k2, k1);
        }
    }
}

/// Every pixel `(x, y)` of a `width` x `height` image is rendered by exactly one worker of a
/// partition of its framebuffer: the one whose range holds the cell `y * width + x`, from which
/// [`get_xy`] gives back `(x, y)`.
pub proof fn lemma_partition_covers_each_pixel(
    ranges: Seq<PixelRange>,
    width: nat,
    height: nat,
    x: nat,
    y: nat,
)
    requires
        is_partition(ranges, width * height),
        x < width,
        y < height,
    ensures
        y * width + x < width * height,
        ((y * width + x) as int) % (width as int) == x,
        ((y * width + x) as int) / (width as int) == y,
        exists|k: int| 0 <= k < ranges.len() && (#[trigger] ranges[k]).contains((y * width + x) as int),
        forall|k1: int, k2: int|
            0 <= k1 < ranges.len() && 0 <= k2 < ranges.len() && (#[trigger] ranges[k1]).contains(
                (y * width + x) as int,
            ) && (#[trigger] ranges[k2]).contains((y * width + x) as int) ==> k1 == k2,
{
    let p = y * width + x;
    assert(p < width * height) by (nonlinear_arith)
        requires
            p == y * width + x,
            x < width,
            y < height,
    ;
    vstd::arithmetic::div_mod::lemma_fundamental_div_mod_converse(
        p as int,
        width as int,
        y as int,
        x as int,
    );
    lemma_partition_covers_once(ranges, width * height, p as int);
}

/// Drives the rendering of a scene; its pixel-level work is split between workers.
pub struct Renderer;

impl Renderer {
    /// Whether `worker` reports progress after `sample`: only the first worker does, so that
    /// reports do not interleave, and only every fifth sample.
    pub fn reports_progress(worker: usize, sample: u32) -> (r: bool)
        ensures
            r == (worker == 0 && sample % 5 == 0),
    {
        worker == 0 && sample % 5 == 0
    }

    /// Splits `pixel_count` framebuffer cells between `workers` workers: one contiguous range
    /// per worker, in order, the sizes differing by at most one.
    pub fn partition(pixel_count: usize, workers: usize) -> (r: Vec<PixelRange>)
        requires
            workers > 0,
        ensures
            r@.len() == workers,
            is_partition(r@, pixel_count as nat),
            forall|k: int|
                0 <= k < workers ==> (#[trigger] r@[k]).size() == chunk_len(
                    pixel_count as nat,
                    workers as nat,
                    k as nat,
                ),
    {
        let base = pixel_count / workers;
        let extra = pixel_count % workers;
        proof {
            vstd::arithmetic::div_mod::lemma_fundamental_div_mod(pixel_count as int, workers as int);
        }
        let mut ranges: Vec<PixelRange> = Vec::new();
        let mut start: usize = 0;
        let mut k: usize = 0;
        while k < workers
            invariant
                0 <= k <= workers,
                base == pixel_count / workers,
                extra == pixel_count % workers,
                pixel_count == workers * base + extra,
                extra < workers,
                ranges@.len() == k,
                start == k * base + if k < extra { k as int } else { extra as int },
                k > 0 ==> ranges@[0].start == 0,
                k > 0 ==> ranges@[k - 1].end == start,
                k == 0 ==> start == 0,
                forall|i: int| 0 <= i < k ==> (#[trigger] ranges@[i]).start <= ranges@[i].end,
                forall|i: int|
                    0 <= i < k ==> (#[trigger] ranges@[i]).size() == chunk_len(
                        pixel_count as nat,
                        workers as nat,
                        i as nat,
                    ),
                forall|i: int| 0 <= i < k - 1 ==> (#[trigger] ranges@[i]).end == ranges@[i + 1].start,
            decreases workers - k,
        {
            proof {
                let kk = (k + 1) as int;
                assert(kk * base <= workers * base) by (nonlinear_arith)
                    requires
                        kk <= workers,
                        base >= 0,
                ;
                assert(kk * base == k * base + base) by (nonlinear_arith)
                    requires
                        kk == k + 1,
                ;
                assert(base <= workers * base) by (nonlinear_arith)
                    requires
                        workers >= 1,
                        base >= 0,
                ;
            }
            let size = if k < extra { base + 1 } else { base };
            let end = start + size;
            ranges.push(PixelRange { start, end });
            start = end;
            k = k + 1;
        }
        ranges
    }
}

} // verus!
