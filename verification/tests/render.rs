use rust_fractal::colormap::{get_color, BLACK};
use rust_fractal::orbit::EscapeCounter;
use rust_fractal::render::{
    color_baseline, index_of, iteration_cap, mandelbrot_baseline_render_u32, paint_row,
    required_pixels, RenderError,
};

/// Escape-time iteration in double precision, counted by the library.
fn escape_count(x0: f64, y0: f64, max_iter: u32) -> u32 {
    let mut counter = EscapeCounter::new(max_iter);
    let mut x = 0.0f64;
    let mut y = 0.0f64;
    while counter.running() {
        let xx = x * x - y * y + x0;
        let yy = 2.0 * x * y + y0;
        x = xx;
        y = yy;
        counter.record((x * x + y * y) > 4.0);
    }
    counter.count()
}

/// The same iteration, counted by hand.
fn escape_count_by_hand(x0: f64, y0: f64, max_iter: u32) -> u32 {
    let mut x = 0.0f64;
    let mut y = 0.0f64;
    let mut i = 0u32;
    while i < max_iter {
        let xx = x * x - y * y + x0;
        let yy = 2.0 * x * y + y0;
        x = xx;
        y = yy;
        if (x * x + y * y) > 4.0 {
            break;
        }
        i += 1;
    }
    i
}

/// Escape counts of a viewport, row by row from the top-left pixel.
fn counts_of(
    center_x: f32,
    center_y: f32,
    zoom: u64,
    width_px: i32,
    height_px: i32,
    max_iter: i32,
) -> Vec<u32> {
    let cap = iteration_cap(max_iter);
    let inv_zoom = 1.0f64 / (zoom as f64);
    let half_w = (width_px as f64) * 0.5;
    let half_h = (height_px as f64) * 0.5;
    let cx = center_x as f64;
    let cy = center_y as f64;
    let mut counts = Vec::new();
    for py in 0..height_px {
        let y_world = cy + (-(py as f64 - half_h) * inv_zoom);
        for px in 0..width_px {
            let x_world = cx + ((px as f64 - half_w) * inv_zoom);
            counts.push(escape_count(x_world, y_world, cap));
        }
    }
    counts
}

#[test]
fn probe_is_constant() {
    assert_eq!(rust_fractal::render::test(), 6);
}

#[test]
fn cap_is_the_magnitude() {
    assert_eq!(iteration_cap(0), 0);
    assert_eq!(iteration_cap(50), 50);
    assert_eq!(iteration_cap(-50), 50);
    assert_eq!(iteration_cap(i32::MAX), 2_147_483_647);
    assert_eq!(iteration_cap(i32::MIN), 2_147_483_648);
    assert_eq!(iteration_cap(-1), 1);
}

#[test]
fn valid_request_gives_pixel_count() {
    assert_eq!(required_pixels(200, 4, 4, true, 16), Ok(16));
    assert_eq!(required_pixels(1, 1, 1, true, 1), Ok(1));
    assert_eq!(required_pixels(u64::MAX, 640, 480, true, 1_000_000), Ok(307_200));
    assert_eq!(required_pixels(1, 3, 5, true, 15), Ok(15));
}

#[test]
fn invalid_viewport_is_refused() {
    assert_eq!(required_pixels(1, 0, 4, true, 16), Err(RenderError::InvalidViewport));
    assert_eq!(required_pixels(1, 4, 0, true, 16), Err(RenderError::InvalidViewport));
    assert_eq!(required_pixels(1, -4, 4, true, 16), Err(RenderError::InvalidViewport));
    assert_eq!(required_pixels(1, 4, i32::MIN, true, 16), Err(RenderError::InvalidViewport));
    assert_eq!(required_pixels(0, 4, 4, true, 16), Err(RenderError::InvalidViewport));
}

#[test]
fn missing_output_is_refused() {
    assert_eq!(required_pixels(1, 4, 4, false, 16), Err(RenderError::NullOutput));
    // the viewport is checked first
    assert_eq!(required_pixels(0, 4, 4, false, 16), Err(RenderError::InvalidViewport));
    // the output is checked before its size
    assert_eq!(required_pixels(1, 4, 4, false, 0), Err(RenderError::NullOutput));
}

#[test]
fn small_buffer_is_refused() {
    assert_eq!(required_pixels(1, 4, 4, true, 15), Err(RenderError::BufferTooSmall));
    assert_eq!(required_pixels(1, 4, 4, true, 0), Err(RenderError::BufferTooSmall));
    assert_eq!(required_pixels(1, 1, 1, true, 0), Err(RenderError::BufferTooSmall));
}

#[test]
fn pixel_count_overflow_is_refused() {
    let outcome = required_pixels(1, i32::MAX, i32::MAX, true, usize::MAX);
    let product = (i32::MAX as u128) * (i32::MAX as u128);
    if product > usize::MAX as u128 {
        assert_eq!(outcome, Err(RenderError::Overflow));
    } else {
        assert_eq!(outcome, Ok(product as usize));
    }
}

#[test]
fn baseline_colouring_is_two_tone() {
    assert_eq!(color_baseline(10, 10), 0xFF00_0000);
    assert_eq!(color_baseline(11, 10), 0xFF00_0000);
    assert_eq!(color_baseline(9, 10), 0xFF00_FF00);
    assert_eq!(color_baseline(0, 0), 0xFF00_0000);
    assert_eq!(color_baseline(0, 1), 0xFF00_FF00);
}

#[test]
fn index_is_row_major() {
    assert_eq!(index_of(4, 3, 0, 0), Some(0));
    assert_eq!(index_of(4, 3, 3, 0), Some(3));
    assert_eq!(index_of(4, 3, 0, 1), Some(4));
    assert_eq!(index_of(4, 3, 3, 2), Some(11));
    assert_eq!(index_of(4, 3, 4, 0), None);
    assert_eq!(index_of(4, 3, 0, 3), None);
    assert_eq!(index_of(0, 0, 0, 0), None);
    assert_eq!(index_of(usize::MAX, usize::MAX, 1, usize::MAX - 1), None);
    assert_eq!(index_of(usize::MAX, 1, usize::MAX - 1, 0), Some(usize::MAX - 1));
}

#[test]
fn counter_counts_like_the_plain_loop() {
    let points = [
        (0.0, 0.0),
        (-0.5, 0.5),
        (-1.5, 1.0),
        (0.3, 0.5),
        (-0.75, 0.1),
        (2.5, 2.5),
        (-2.0, 0.0),
        (0.25, 0.0),
        (0.26, 0.0),
        (-0.1, 0.651),
    ];
    for (x0, y0) in points {
        for cap in [0u32, 1, 2, 10, 50, 1000] {
            assert_eq!(escape_count(x0, y0, cap), escape_count_by_hand(x0, y0, cap));
        }
    }
}

#[test]
fn counter_stops_at_first_escape() {
    let mut counter = EscapeCounter::new(5);
    assert!(counter.running());
    assert_eq!(counter.count(), 0);
    counter.record(false);
    counter.record(false);
    assert!(counter.running());
    assert_eq!(counter.count(), 2);
    counter.record(true);
    assert!(!counter.running());
    assert_eq!(counter.count(), 2);
    counter.record(false);
    counter.record(true);
    assert_eq!(counter.count(), 2);
}

#[test]
fn counter_stops_at_the_cap() {
    let mut counter = EscapeCounter::new(3);
    counter.record(false);
    counter.record(false);
    counter.record(false);
    assert!(!counter.running());
    assert_eq!(counter.count(), 3);
    counter.record(true);
    assert_eq!(counter.count(), 3);
    let idle = EscapeCounter::new(0);
    assert!(!idle.running());
    assert_eq!(idle.count(), 0);
}

#[test]
fn counter_escape_at_first_step_counts_zero() {
    let mut counter = EscapeCounter::new(4);
    counter.record(true);
    assert!(!counter.running());
    assert_eq!(counter.count(), 0);
}

#[test]
fn escape_count_never_exceeds_the_cap() {
    for cap in [0u32, 1, 7, 100] {
        for ix in -25..=25 {
            for iy in -25..=25 {
                let count = escape_count(ix as f64 * 0.1, iy as f64 * 0.1, cap);
                assert!(count <= cap);
            }
        }
    }
}

#[test]
fn origin_never_escapes_and_is_black() {
    for cap in [1u32, 2, 10, 1000, 100_000] {
        let count = escape_count(0.0, 0.0, cap);
        assert_eq!(count, cap);
        assert_eq!(get_color(count, cap), BLACK);
        assert_eq!(get_color(count, cap), 0xFF00_0000);
    }
}

#[test]
fn row_is_painted_from_its_counts() {
    let counts = [0u32, 1, 49, 50, 75, 100];
    let mut row = [7u32; 6];
    assert_eq!(paint_row(&counts, 100, 6, 0, &mut row), Ok(()));
    assert_eq!(row, [0xFF00_0000, 0xFF00_0005, 0xFF00_00F9, 0xFF00_00FF, 0xFF00_40FF, BLACK]);
}

#[test]
fn row_reads_the_counts_of_its_own_pixels() {
    // a frame of three rows, two pixels wide
    let counts = [50u32, 100, 150, 200, 250, 300];
    let mut row = [0u32; 2];
    assert_eq!(paint_row(&counts, 1000, 2, 0, &mut row), Ok(()));
    assert_eq!(row, [0xFF00_00FF, 0xFF00_80FF]);
    assert_eq!(paint_row(&counts, 1000, 2, 1, &mut row), Ok(()));
    assert_eq!(row, [0xFF00_FF80, 0xFF80_8000]);
    assert_eq!(paint_row(&counts, 1000, 2, 2, &mut row), Ok(()));
    assert_eq!(row, [0xFFFF_8000, 0xFFFF_FF80]);
    // a short last row
    let mut last = [0u32; 1];
    assert_eq!(paint_row(&counts, 1000, 5, 1, &mut last), Ok(()));
    assert_eq!(last, [0xFFFF_FF80]);
    let mut empty: [u32; 0] = [];
    assert_eq!(paint_row(&counts, 1000, 2, 3, &mut empty), Ok(()));
}

#[test]
fn row_without_enough_counts_is_left_alone() {
    let counts = [50u32, 100, 150];
    let mut row = [11u32, 22];
    assert_eq!(paint_row(&counts, 1000, 2, 1, &mut row), Err(RenderError::MissingCounts));
    assert_eq!(row, [11, 22]);
    assert_eq!(paint_row(&counts, 1000, 2, 2, &mut row), Err(RenderError::MissingCounts));
    assert_eq!(row, [11, 22]);
    assert_eq!(paint_row(&[], 1000, 2, 0, &mut row), Err(RenderError::MissingCounts));
    assert_eq!(row, [11, 22]);
    // a row whose first slot lies beyond any buffer
    assert_eq!(
        paint_row(&counts, 1000, usize::MAX, 2, &mut row),
        Err(RenderError::MissingCounts)
    );
    assert_eq!(paint_row(&counts, 1000, usize::MAX, 1, &mut row), Err(RenderError::MissingCounts));
    assert_eq!(row, [11, 22]);
}

#[test]
fn frame_is_painted_in_row_major_order() {
    let counts: Vec<u32> = (0..12u32).map(|i| i * 25).collect();
    let mut dst = vec![1u32; 12];
    assert_eq!(mandelbrot_baseline_render_u32(1, 4, 3, 1000, &counts, &mut dst), Ok(()));
    for py in 0..3usize {
        for px in 0..4usize {
            let i = index_of(4, 3, px, py).unwrap();
            assert_eq!(i, py * 4 + px);
            assert_eq!(dst[i], get_color(counts[i], 1000));
        }
    }
    assert_eq!(dst[0], 0xFF00_0000);
    assert_eq!(dst[2], 0xFF00_00FF);
    assert_eq!(dst[3], 0xFF00_40FF);
}

#[test]
fn frame_leaves_slots_past_the_viewport_alone() {
    let counts = vec![50u32; 10];
    let mut dst = vec![9u32; 10];
    assert_eq!(mandelbrot_baseline_render_u32(1, 2, 3, 100, &counts, &mut dst), Ok(()));
    assert_eq!(&dst[..6], &[0xFF00_00FFu32; 6]);
    assert_eq!(&dst[6..], &[9u32; 4]);
}

#[test]
fn frame_uses_the_magnitude_of_a_negative_cap() {
    let counts = vec![10u32, 50, 60];
    let mut plus = vec![0u32; 3];
    let mut minus = vec![0u32; 3];
    assert_eq!(mandelbrot_baseline_render_u32(1, 3, 1, 60, &counts, &mut plus), Ok(()));
    assert_eq!(mandelbrot_baseline_render_u32(1, 3, 1, -60, &counts, &mut minus), Ok(()));
    assert_eq!(plus, minus);
    assert_eq!(plus, vec![0xFF00_0033, 0xFF00_00FF, BLACK]);
}

#[test]
fn frame_with_zero_cap_is_black() {
    let counts = vec![0u32; 4];
    let mut dst = vec![5u32; 4];
    assert_eq!(mandelbrot_baseline_render_u32(1, 2, 2, 0, &counts, &mut dst), Ok(()));
    assert_eq!(dst, vec![BLACK; 4]);
}

#[test]
fn boundary_requests_leave_the_buffer_untouched() {
    let counts = vec![1u32; 16];
    let before: Vec<u32> = (100..116).collect();

    let mut dst = before.clone();
    assert_eq!(
        mandelbrot_baseline_render_u32(200, 0, 4, 50, &counts, &mut dst),
        Err(RenderError::InvalidViewport)
    );
    assert_eq!(dst, before);

    assert_eq!(
        mandelbrot_baseline_render_u32(200, 4, 0, 50, &counts, &mut dst),
        Err(RenderError::InvalidViewport)
    );
    assert_eq!(dst, before);

    assert_eq!(
        mandelbrot_baseline_render_u32(200, -1, -1, 50, &counts, &mut dst),
        Err(RenderError::InvalidViewport)
    );
    assert_eq!(dst, before);

    assert_eq!(
        mandelbrot_baseline_render_u32(0, 4, 4, 50, &counts, &mut dst),
        Err(RenderError::InvalidViewport)
    );
    assert_eq!(dst, before);

    assert_eq!(
        mandelbrot_baseline_render_u32(200, 4, 4, 50, &counts, &mut dst[..15]),
        Err(RenderError::BufferTooSmall)
    );
    assert_eq!(dst, before);

    assert_eq!(
        mandelbrot_baseline_render_u32(200, 5, 4, 50, &counts, &mut dst),
        Err(RenderError::BufferTooSmall)
    );
    assert_eq!(dst, before);

    let mut empty: Vec<u32> = Vec::new();
    assert_eq!(
        mandelbrot_baseline_render_u32(200, 4, 4, 50, &counts, &mut empty),
        Err(RenderError::BufferTooSmall)
    );
    assert!(empty.is_empty());
}

#[test]
fn frame_without_enough_counts_is_left_alone() {
    let counts = vec![1u32; 15];
    let before: Vec<u32> = (0..16).collect();
    let mut dst = before.clone();
    assert_eq!(
        mandelbrot_baseline_render_u32(1, 4, 4, 50, &counts, &mut dst),
        Err(RenderError::MissingCounts)
    );
    assert_eq!(dst, before);
}

#[test]
fn repeated_renders_are_identical() {
    let counts = counts_of(-0.5, 0.0, 3, 9, 7, 80);
    let mut first = vec![0u32; 63];
    let mut second = vec![0xDEAD_BEEFu32; 63];
    assert_eq!(mandelbrot_baseline_render_u32(3, 9, 7, 80, &counts, &mut first), Ok(()));
    assert_eq!(mandelbrot_baseline_render_u32(3, 9, 7, 80, &counts, &mut second), Ok(()));
    assert_eq!(first, second);
    let kept = first.clone();
    assert_eq!(mandelbrot_baseline_render_u32(3, 9, 7, 80, &counts, &mut first), Ok(()));
    assert_eq!(first, kept);
    assert_eq!(counts_of(-0.5, 0.0, 3, 9, 7, 80), counts);
}

#[test]
fn rows_painted_in_any_order_give_the_frame() {
    let (width, height) = (9usize, 7usize);
    let counts = counts_of(-0.5, 0.0, 3, 9, 7, 80);
    let mut frame = vec![0u32; width * height];
    assert_eq!(mandelbrot_baseline_render_u32(3, 9, 7, 80, &counts, &mut frame), Ok(()));

    let orders: [[usize; 7]; 3] =
        [[0, 1, 2, 3, 4, 5, 6], [6, 5, 4, 3, 2, 1, 0], [3, 0, 6, 1, 5, 2, 4]];
    for order in orders {
        let mut by_rows = vec![0u32; width * height];
        for py in order {
            let lo = py * width;
            let hi = lo + width;
            assert_eq!(paint_row(&counts, 80, width, py, &mut by_rows[lo..hi]), Ok(()));
        }
        assert_eq!(by_rows, frame);
    }

    // a row painted twice changes nothing
    let mut twice = frame.clone();
    assert_eq!(paint_row(&counts, 80, width, 2, &mut twice[18..27]), Ok(()));
    assert_eq!(twice, frame);
}

#[test]
fn scenario_small_viewport_inside_the_cardioid() {
    let counts = counts_of(-0.5, 0.0, 200, 4, 4, 50);
    assert_eq!(counts, vec![50u32; 16]);
    let mut dst = vec![0u32; 16];
    assert_eq!(mandelbrot_baseline_render_u32(200, 4, 4, 50, &counts, &mut dst), Ok(()));
    assert_eq!(dst, vec![0xFF00_0000u32; 16]);
}

#[test]
fn scenario_wide_viewport_has_escaping_corners() {
    // one pixel is half a world unit: the corners lie outside the set
    let counts = counts_of(-0.5, 0.0, 2, 4, 4, 50);
    let mut dst = vec![0u32; 16];
    assert_eq!(mandelbrot_baseline_render_u32(2, 4, 4, 50, &counts, &mut dst), Ok(()));
    // top-left pixel: world (-1.5, 1.0), escapes at the second step
    assert_eq!(counts[0], 1);
    assert_eq!(dst[0], 0xFF00_0005);
    // bottom-left pixel: world (-1.5, -0.5)
    let bottom_left = index_of(4, 4, 0, 3).unwrap();
    assert!(counts[bottom_left] >= 1 && counts[bottom_left] < 50);
    assert_ne!(dst[bottom_left], BLACK);
    // pixel (2, 2): world (-0.5, 0.0), inside the main cardioid
    let center = index_of(4, 4, 2, 2).unwrap();
    assert_eq!(counts[center], 50);
    assert_eq!(dst[center], BLACK);
    for i in 0..16 {
        assert_eq!(dst[i], get_color(counts[i], 50));
        assert_eq!(dst[i] >> 24, 0xFF);
    }
}

#[test]
fn scenario_single_pixel() {
    let counts = counts_of(0.0, 0.0, 1, 1, 1, 10);
    assert_eq!(counts, vec![10]);
    let mut dst = vec![0u32; 1];
    assert_eq!(mandelbrot_baseline_render_u32(1, 1, 1, 10, &counts, &mut dst), Ok(()));
    assert_eq!(dst, vec![0xFF00_0000]);
}
