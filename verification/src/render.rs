//! The render kernel around the orbit arithmetic: request validation and the
//! painting of escape counts into a row-major ARGB buffer, one parallel task
//! per row.

use vstd::prelude::*;
use crate::colormap::{color_for, get_color};
use rayon::iter::{IndexedParallelIterator, ParallelIterator};
use rayon::slice::ParallelSliceMut;

verus! {

/// Why a render request is refused. A refused request writes nothing.
#[derive(Clone, Copy, Debug, PartialEq, Eq, Structural)]
pub enum RenderError {
    /// A pixel dimension is zero or negative, or the zoom factor is zero.
    InvalidViewport,
    /// There is no output buffer.
    NullOutput,
    /// The pixel count does not fit the platform's unsigned size type.
    Overflow,
    /// The output buffer holds fewer slots than the viewport has pixels.
    BufferTooSmall,
    /// Fewer escape counts were supplied than the viewport has pixels.
    MissingCounts,
}

/// Liveness probe: a fixed constant that tells a loader the kernel is linked.
pub fn test() -> (probe: u32)
    ensures
        probe == 6,
{
    6
}

/// The iteration cap that a signed request stands for: its magnitude.
pub open spec fn cap_of(max_iter: i32) -> u32 {
    if max_iter >= 0 {
        max_iter as u32
    } else {
        (-(max_iter as int)) as u32
    }
}

/// The iteration cap that a signed request stands for. Negative requests are
/// not refused; their magnitude is used.
pub fn iteration_cap(max_iter: i32) -> (cap: u32)
    ensures
        cap == cap_of(max_iter),
        cap as int == max_iter as int || cap as int == -(max_iter as int),
{
    if max_iter >= 0 {
        max_iter as u32
    } else {
        (-(max_iter as i64)) as u32
    }
}

/// What validation makes of a request: the number of pixels to write, or the
/// first reason, in the order of the checks, why nothing is written.
pub open spec fn request_outcome(
    zoom: u64,
    width_px: i32,
    height_px: i32,
    has_output: bool,
    dst_len: usize,
) -> Result<usize, RenderError> {
    if width_px <= 0 || height_px <= 0 {
        Err(RenderError::InvalidViewport)
    } else if zoom == 0 {
        Err(RenderError::InvalidViewport)
    } else if !has_output {
        Err(RenderError::NullOutput)
    } else if width_px * height_px > usize::MAX {
        Err(RenderError::Overflow)
    } else if dst_len < width_px * height_px {
        Err(RenderError::BufferTooSmall)
    } else {
        Ok((width_px * height_px) as usize)
    }
}

/// Validates a render request before any pixel is touched and returns the
/// number of pixels that the viewport covers. `has_output` tells whether the
/// caller handed over an output buffer at all, `dst_len` how many slots it
/// declared. The checks are made in a fixed order: the pixel dimensions, the
/// zoom factor, the presence of the buffer, the size of the pixel count, the
/// capacity of the buffer.
pub fn required_pixels(
    zoom: u64,
    width_px: i32,
    height_px: i32,
    has_output: bool,
    dst_len: usize,
) -> (outcome: Result<usize, RenderError>)
    ensures
        outcome == request_outcome(zoom, width_px, height_px, has_output, dst_len),
        outcome matches Ok(n) ==> 0 < n <= dst_len && n == width_px * height_px,
{
    if width_px <= 0 || height_px <= 0 {
        return Err(RenderError::InvalidViewport);
    }
    if zoom == 0 {
        return Err(RenderError::InvalidViewport);
    }
    if !has_output {
        return Err(RenderError::NullOutput);
    }
    let width: usize = width_px as usize;
    let height: usize = height_px as usize;
    let expected: usize = match width.checked_mul(height) {
        Some(v) => v,
        None => {
            return Err(RenderError::Overflow);
        },
    };
    if dst_len < expected {
        return Err(RenderError::BufferTooSmall);
    }
    assert(0 < width_px * height_px) by (nonlinear_arith)
        requires
            0 < width_px,
            0 < height_px,
    ;
    Ok(expected)
}

/// Two-tone colouring: opaque black for a point that reached the cap, opaque
/// green for one that escaped.
pub fn color_baseline(iter: u32, max_iter: u32) -> (color: u32)
    ensures
        iter >= max_iter ==> color == 0xFF00_0000u32,
        iter < max_iter ==> color == 0xFF00_FF00u32,
{
    if iter >= max_iter {
        0xFF00_0000
    } else {
        0xFF00_FF00
    }
}

/// Position of pixel `(px, py)` in a row-major buffer of rows `width` wide.
pub open spec fn pixel_index(width: int, px: int, py: int) -> int {
    py * width + px
}

/// The buffer `before` after its first `n` slots have been painted with the
/// colours of the first `n` escape counts; the other slots keep their value.
pub open spec fn rendered(before: Seq<u32>, counts: Seq<u32>, n: int, cap: u32) -> Seq<u32> {
    Seq::new(
        before.len(),
        |i: int|
            if 0 <= i < n {
                color_for(counts[i], cap)
            } else {
                before[i]
            },
    )
}

/// What a frame render makes of its arguments: the number of pixels painted,
/// or the reason why the buffer is left alone.
pub open spec fn render_outcome(
    zoom: u64,
    width_px: i32,
    height_px: i32,
    counts_len: usize,
    dst_len: usize,
) -> Result<usize, RenderError> {
    match request_outcome(zoom, width_px, height_px, true, dst_len) {
        Err(e) => Err(e),
        Ok(n) => if counts_len < n {
            Err(RenderError::MissingCounts)
        } else {
            Ok(n)
        },
    }
}

/// Position of pixel `(px, py)` in the row-major buffer of a viewport that is
/// `width` pixels wide and `height` pixels high; `None` for a pixel outside
/// the viewport or a position that does not fit `usize`.
pub fn index_of(width: usize, height: usize, px: usize, py: usize) -> (index: Option<usize>)
    ensures
        index is Some <==> px < width && py < height && pixel_index(
            width as int,
            px as int,
            py as int,
        ) <= usize::MAX,
        index is Some ==> index->0 == pixel_index(width as int, px as int, py as int),
{
    if px >= width || py >= height {
        return None;
    }
    match py.checked_mul(width) {
        Some(start) => start.checked_add(px),
        None => {
            assert(py * width <= py * width + px);
            None
        },
    }
}

/// Every pixel of the viewport has a slot among the first `width * height`.
pub proof fn lemma_pixel_index_in_frame(width: int, height: int, px: int, py: int)
    requires
        0 <= px < width,
        0 <= py < height,
    ensures
        0 <= pixel_index(width, px, py) < width * height,
        py * width <= pixel_index(width, px, py) < (py + 1) * width,
{
    assert(0 <= py * width && (py + 1) * width <= height * width && (py + 1) * width == py * width
        + width && height * width == width * height) by (nonlinear_arith)
        requires
            0 <= py < height,
            0 < width,
    ;
}

/// Whether a frame's counts reach to the end of a row: row `py` of a frame
/// `width` pixels wide, `row_len` slots long, has a count for every slot.
pub open spec fn row_has_counts(counts_len: int, width: int, py: int, row_len: int) -> bool {
    py * width + row_len <= counts_len
}

/// Paints one row of a frame: slot `px` of `row` gets the colour of the count
/// of pixel `(px, py)`, which is `counts[py * width + px]`. A row is the unit
/// of parallel work: it reads the frame's counts and writes its own slots,
/// nothing else. Where the counts do not reach to the end of the row, the row
/// is left alone.
pub fn paint_row(
    counts: &[u32],
    cap: u32,
    width: usize,
    py: usize,
    row: &mut [u32],
) -> (result: Result<(), RenderError>)
    ensures
        final(row).len() == old(row).len(),
        result is Ok <==> row_has_counts(
            counts.len() as int,
            width as int,
            py as int,
            old(row).len() as int,
        ),
        result is Err ==> result == Err::<(), RenderError>(RenderError::MissingCounts),
        result is Err ==> final(row)@ == old(row)@,
        result is Ok ==> forall|px: int|
            0 <= px < final(row).len() ==> final(row)[px] == color_for(
                counts[pixel_index(width as int, px, py as int)],
                cap,
            ),
{
    let n: usize = row.len();
    assert(0 <= py * width) by (nonlinear_arith);
    let start: usize = match py.checked_mul(width) {
        Some(start) => start,
        None => {
            return Err(RenderError::MissingCounts);
        },
    };
    let end: usize = match start.checked_add(n) {
        Some(end) => end,
        None => {
            return Err(RenderError::MissingCounts);
        },
    };
    if end > counts.len() {
        return Err(RenderError::MissingCounts);
    }
    let mut px: usize = 0;
    while px < n
        invariant
            px <= n,
            n == row.len(),
            start == py * width,
            start + n <= counts.len(),
            forall|k: int|
                0 <= k < px ==> row[k] == color_for(counts[pixel_index(width as int, k, py as int)], cap),
        decreases n - px,
    {
        let color: u32 = get_color(counts[start + px], cap);
        row[px] = color;
        px += 1;
    }
    Ok(())
}

/// `par_chunks_mut`, `enumerate` and `for_each` of rayon: cuts the buffer
/// into rows of `width` slots each (the last one may be shorter), numbers
/// them from zero in the order in which they lie in the buffer, and has the
/// worker pool call `paint_row` once on every row with its number, each row
/// being written by its own task alone. The call returns when every row is
/// done. Taken on trust: that the rows do not overlap, that row `py` begins
/// at slot `py * width`, that together they cover the buffer and that none is
/// left out. What `paint_row` does to a row is proved.
#[verifier::external_body]
fn paint_rows(counts: &[u32], cap: u32, width: usize, dst: &mut [u32])
    requires
        width > 0,
        counts.len() >= old(dst).len(),
    ensures
        final(dst)@ == rendered(old(dst)@, counts@, old(dst).len() as int, cap),
{
    dst.par_chunks_mut(width).enumerate().for_each(
        |(py, row)| {
            let _ = paint_row(counts, cap, width, py, row);
        },
    );
}

/// Renders a frame from the escape counts of its pixels, given in row-major
/// order from the top-left pixel: slot `py * width_px + px` of `dst` gets the
/// colour of the count at the same position, under the cap `|max_iter|`.
/// Rows are painted in parallel. A request that fails validation leaves `dst`
/// untouched.
pub fn mandelbrot_baseline_render_u32(
    zoom: u64,
    width_px: i32,
    height_px: i32,
    max_iter: i32,
    counts: &[u32],
    dst: &mut [u32],
) -> (result: Result<(), RenderError>)
    ensures
        final(dst).len() == old(dst).len(),
        result is Ok <==> render_outcome(
            zoom,
            width_px,
            height_px,
            counts.len(),
            old(dst).len(),
        ) is Ok,
        result is Err ==> result->Err_0 == render_outcome(
            zoom,
            width_px,
            height_px,
            counts.len(),
            old(dst).len(),
        )->Err_0,
        result is Err ==> final(dst)@ == old(dst)@,
        result is Ok ==> final(dst)@ == rendered(
            old(dst)@,
            counts@,
            width_px * height_px,
            cap_of(max_iter),
        ),
        width_px <= 0 || height_px <= 0 || zoom == 0 || old(dst).len() < width_px * height_px
            ==> result is Err,
{
    let n: usize = match required_pixels(zoom, width_px, height_px, true, dst.len()) {
        Ok(n) => n,
        Err(e) => {
            return Err(e);
        },
    };
    if counts.len() < n {
        return Err(RenderError::MissingCounts);
    }
    let cap: u32 = iteration_cap(max_iter);
    let (frame, _) = dst.split_at_mut(n);
    paint_rows(counts, cap, width_px as usize, frame);
    assert(final(dst)@ =~= rendered(old(dst)@, counts@, n as int, cap));
    Ok(())
}

/// Whether slot `i` belongs to row `py` of a frame `width` pixels wide.
pub open spec fn in_row(width: int, py: int, i: int) -> bool {
    py * width <= i < (py + 1) * width
}

/// The buffer `before` after row `py` alone has been painted.
pub open spec fn with_row_painted(
    before: Seq<u32>,
    counts: Seq<u32>,
    cap: u32,
    width: int,
    py: int,
) -> Seq<u32> {
    Seq::new(
        before.len(),
        |i: int|
            if in_row(width, py, i) {
                color_for(counts[i], cap)
            } else {
                before[i]
            },
    )
}

/// The buffer `before` after the rows that `order` names have been painted
/// one after the other, in that order.
pub open spec fn rows_painted(
    before: Seq<u32>,
    counts: Seq<u32>,
    cap: u32,
    width: int,
    order: Seq<int>,
) -> Seq<u32>
    decreases order.len(),
{
    if order.len() == 0 {
        before
    } else {
        with_row_painted(
            rows_painted(before, counts, cap, width, order.drop_last()),
            counts,
            cap,
            width,
            order.last(),
        )
    }
}

/// Whether one of the rows that `order` names holds slot `i`.
pub open spec fn covered(width: int, order: Seq<int>, i: int) -> bool {
    exists|k: int| 0 <= k < order.len() && in_row(width, #[trigger] order[k], i)
}

/// Slot by slot, what a schedule of row paints leaves behind: the colour of
/// the slot's own count where a painted row holds the slot, the old value
/// elsewhere.
pub proof fn lemma_rows_painted_slot(
    before: Seq<u32>,
    counts: Seq<u32>,
    cap: u32,
    width: int,
    order: Seq<int>,
    i: int,
)
    requires
        0 <= i < before.len(),
    ensures
        rows_painted(before, counts, cap, width, order).len() == before.len(),
        covered(width, order, i) ==> rows_painted(before, counts, cap, width, order)[i]
            == color_for(counts[i], cap),
        !covered(width, order, i) ==> rows_painted(before, counts, cap, width, order)[i]
            == before[i],
    decreases order.len(),
{
    if order.len() > 0 {
        let earlier = order.drop_last();
        lemma_rows_painted_slot(before, counts, cap, width, earlier, i);
        if in_row(width, order.last(), i) {
            assert(in_row(width, order[order.len() - 1], i));
        } else if covered(width, earlier, i) {
            let k = choose|k: int| 0 <= k < earlier.len() && in_row(width, #[trigger] earlier[k], i);
            assert(order[k] == earlier[k]);
        } else if covered(width, order, i) {
            let k = choose|k: int| 0 <= k < order.len() && in_row(width, #[trigger] order[k], i);
            assert(earlier[k] == order[k]);
        }
    }
}

/// Painting one row of a frame changes that row's slots, to the colours that
/// `paint_row` gives them, and no other slot.
pub proof fn lemma_row_is_independent(
    before: Seq<u32>,
    counts: Seq<u32>,
    cap: u32,
    width: int,
    py: int,
)
    requires
        0 < width,
        0 <= py,
    ensures
        with_row_painted(before, counts, cap, width, py).len() == before.len(),
        forall|px: int|
            0 <= px < width && pixel_index(width, px, py) < before.len() ==> with_row_painted(
                before,
                counts,
                cap,
                width,
                py,
            )[#[trigger] pixel_index(width, px, py)] == color_for(
                counts[pixel_index(width, px, py)],
                cap,
            ),
        forall|i: int|
            0 <= i < before.len() && !in_row(width, py, i) ==> with_row_painted(
                before,
                counts,
                cap,
                width,
                py,
            )[i] == before[i],
{
    assert(0 <= py * width && (py + 1) * width == py * width + width) by (nonlinear_arith)
        requires
            0 < width,
            0 <= py,
    ;
}

/// The order in which rows are painted does not matter: every schedule that
/// names each row of the frame at least once, in whatever order and however
/// often, leaves the buffer that a frame render leaves.
pub proof fn lemma_row_order_is_irrelevant(
    before: Seq<u32>,
    counts: Seq<u32>,
    cap: u32,
    width: int,
    height: int,
    order: Seq<int>,
)
    requires
        0 < width,
        0 < height,
        forall|k: int| 0 <= k < order.len() ==> 0 <= #[trigger] order[k] < height,
        forall|py: int| 0 <= py < height ==> order.contains(py),
    ensures
        rows_painted(before, counts, cap, width, order) == rendered(
            before,
            counts,
            width * height,
            cap,
        ),
{
    let painted = rows_painted(before, counts, cap, width, order);
    let frame = rendered(before, counts, width * height, cap);
    assert forall|i: int| 0 <= i < before.len() implies painted.len() == before.len()
        && painted[i] == frame[i] by {
        lemma_rows_painted_slot(before, counts, cap, width, order, i);
        if i < width * height {
            let py = i / width;
            assert(0 <= py < height && py * width <= i < (py + 1) * width) by (nonlinear_arith)
                requires
                    0 <= i < width * height,
                    0 < width,
                    py == i / width,
            ;
            assert(order.contains(py));
            let k = choose|k: int| 0 <= k < order.len() && order[k] == py;
            assert(in_row(width, order[k], i));
        } else if covered(width, order, i) {
            let k = choose|k: int| 0 <= k < order.len() && in_row(width, #[trigger] order[k], i);
            let py = order[k];
            assert((py + 1) * width <= width * height) by (nonlinear_arith)
                requires
                    0 <= py < height,
                    0 < width,
            ;
        }
    }
    lemma_rows_painted_len(before, counts, cap, width, order);
    assert(painted =~= frame);
}

/// A schedule of row paints never changes the length of the buffer.
pub proof fn lemma_rows_painted_len(
    before: Seq<u32>,
    counts: Seq<u32>,
    cap: u32,
    width: int,
    order: Seq<int>,
)
    ensures
        rows_painted(before, counts, cap, width, order).len() == before.len(),
    decreases order.len(),
{
    if order.len() > 0 {
        lemma_rows_painted_len(before, counts, cap, width, order.drop_last());
    }
}

/// Rendering is repeatable and never reads the buffer: the painted pixels
/// depend on the counts and the cap alone, whatever the buffer held before,
/// and rendering once more over the result changes nothing.
pub proof fn lemma_render_is_repeatable(
    first: Seq<u32>,
    second: Seq<u32>,
    counts: Seq<u32>,
    n: int,
    cap: u32,
)
    requires
        0 <= n <= first.len(),
        n <= second.len(),
    ensures
        rendered(first, counts, n, cap).take(n) == rendered(second, counts, n, cap).take(n),
        rendered(rendered(first, counts, n, cap), counts, n, cap) == rendered(
            first,
            counts,
            n,
            cap,
        ),
        rendered(first, counts, n, cap).skip(n) == first.skip(n),
{
    assert(rendered(first, counts, n, cap).take(n) =~= rendered(second, counts, n, cap).take(n));
    assert(rendered(rendered(first, counts, n, cap), counts, n, cap) =~= rendered(
        first,
        counts,
        n,
        cap,
    ));
    assert(rendered(first, counts, n, cap).skip(n) =~= first.skip(n));
}

} // verus!
