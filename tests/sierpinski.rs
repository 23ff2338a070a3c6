use sierpinski::barycentric::{plot, Barycentric, OutOfBoundsError, WEIGHT_TOTAL};
use sierpinski::canvas::Canvas;
use sierpinski::engine::Sierpinski;
use sierpinski::geometry::{DegenerateGeometryError, Point, Triangle, UNITS_PER_PIXEL};

fn equilateral(length: u32) -> Triangle {
    Triangle::new(length).expect("a positive side gives a triangle")
}

#[test]
fn point_arithmetic() {
    let p = Point::new(3, -4);
    let q = Point::from((10, 20));
    assert_eq!(q, Point { x: 10, y: 20 });
    assert_eq!(p.add(q), Point { x: 13, y: 16 });
    assert_eq!(q.sub(p), Point { x: 7, y: 24 });
    assert_eq!(p.mul(-3), Point { x: -9, y: 12 });
}

#[test]
fn equilateral_side_100_vertices() {
    let t = equilateral(100);
    assert_eq!(UNITS_PER_PIXEL, 1024);
    assert_eq!(t.a, Point { x: 0, y: 0 });
    assert_eq!(t.b, Point { x: 102400, y: 0 });
    // 100 * sqrt(3) / 2 = 86.6025... pixels
    assert_eq!(t.c, Point { x: 51200, y: 88681 });
}

#[test]
fn equilateral_small_sides() {
    let t = equilateral(1);
    assert_eq!(t.b, Point { x: 1024, y: 0 });
    assert_eq!(t.c, Point { x: 512, y: 886 });
    let t = equilateral(200);
    assert_eq!(t.c, Point { x: 102400, y: 177362 });
}

#[test]
fn zero_side_is_degenerate() {
    assert_eq!(Triangle::new(0), Err(DegenerateGeometryError));
    assert!(Sierpinski::init(0, 10, 1).is_err());
}

#[test]
fn collinear_points_are_degenerate() {
    assert_eq!(Triangle::from_tuples((0, 0), (1, 1), (2, 2)), Err(DegenerateGeometryError));
    assert_eq!(
        Triangle::from_tuples((0, 0), (1024, 1024), (2048, 2048)),
        Err(DegenerateGeometryError)
    );
    let p = Point::new(5, 5);
    assert_eq!(Triangle::from_points(p, p, Point::new(9, 1)), Err(DegenerateGeometryError));
}

#[test]
fn three_free_points_make_a_triangle() {
    let t = Triangle::from_tuples((0, 0), (10, 0), (0, 10)).unwrap();
    assert_eq!(t.a, Point { x: 0, y: 0 });
    assert_eq!(t.b, Point { x: 10, y: 0 });
    assert_eq!(t.c, Point { x: 0, y: 10 });
}

#[test]
fn half_way_moves() {
    let half = WEIGHT_TOTAL / 2;
    let a = Barycentric { wa: WEIGHT_TOTAL, wb: 0, wc: 0 };
    assert_eq!(a.toward(1), Barycentric { wa: half, wb: half, wc: 0 });
    assert_eq!(a.toward(0), a);
    let p = Barycentric { wa: 3, wb: 5, wc: WEIGHT_TOTAL - 8 };
    assert_eq!(p.toward(2), Barycentric { wa: 1, wb: 2, wc: WEIGHT_TOTAL - 3 });
    assert_eq!(p.toward(0), Barycentric { wa: WEIGHT_TOTAL - 2 - (WEIGHT_TOTAL - 8) / 2, wb: 2, wc: (WEIGHT_TOTAL - 8) / 2 });
}

#[test]
fn barycentric_from_draws() {
    let p = Barycentric::from_draws(100, 200);
    assert_eq!(p, Barycentric { wa: WEIGHT_TOTAL - 300, wb: 100, wc: 200 });
    let b = Barycentric::from_draws(WEIGHT_TOTAL, 0);
    assert_eq!(b, Barycentric { wa: 0, wb: WEIGHT_TOTAL, wc: 0 });
}

#[test]
fn plot_marks_the_floor_pixel() {
    let t = equilateral(100);
    let mut canvas = Canvas::new(100, 100).unwrap();
    let half = WEIGHT_TOTAL / 2;
    // midpoint of a and c: (25.6, 43.30...) pixels
    let p = Barycentric { wa: half, wb: 0, wc: half };
    assert_eq!(plot(&mut canvas, &t, p), Ok((25, 43)));
    assert_eq!(canvas.pixel(25, 43), Some((255, 255, 255)));
    assert_eq!(canvas.pixel(26, 43), Some((0, 0, 0)));
    assert_eq!(canvas.pixel(100, 43), None);
    assert_eq!(canvas.pixel(25, 44), Some((0, 0, 0)));
}

#[test]
fn plot_outside_the_canvas_is_skipped() {
    let t = equilateral(100);
    let mut canvas = Canvas::new(50, 50).unwrap();
    // vertex b sits at (100, 0) pixels, beyond a 50-pixel canvas
    let b = Barycentric { wa: 0, wb: WEIGHT_TOTAL, wc: 0 };
    assert_eq!(plot(&mut canvas, &t, b), Err(OutOfBoundsError));
    let t = Triangle::from_tuples((-4096, -4096), (4096, 0), (0, 4096)).unwrap();
    let a = Barycentric { wa: WEIGHT_TOTAL, wb: 0, wc: 0 };
    assert_eq!(plot(&mut canvas, &t, a), Err(OutOfBoundsError));
    let raw = canvas.into_raw();
    assert_eq!(raw.len(), 3 * 50 * 50);
    assert!(raw.iter().all(|&v| v == 0));
}

#[test]
fn raw_buffer_is_row_major_rgb() {
    let t = Triangle::from_tuples((0, 0), (4096, 0), (0, 4096)).unwrap();
    let mut canvas = Canvas::new(3, 2).unwrap();
    assert_eq!(canvas.dimensions(), (3, 2));
    // weights giving x = 1.5 pixels, y = 1 pixel
    let p = Barycentric { wa: 3 * (WEIGHT_TOTAL / 8), wb: 3 * (WEIGHT_TOTAL / 8), wc: WEIGHT_TOTAL / 4 };
    assert_eq!(plot(&mut canvas, &t, p), Ok((1, 1)));
    let raw = canvas.into_raw();
    let mut expected = vec![0u8; 18];
    expected[12] = 255;
    expected[13] = 255;
    expected[14] = 255;
    assert_eq!(raw, expected);
}

#[test]
fn zero_iterations_leave_the_canvas_blank() {
    let game = Sierpinski::init(64, 0, 42).unwrap();
    assert!(game.is_finished());
    let canvas = game.gen_fractal();
    assert_eq!(canvas.dimensions(), (64, 64));
    assert!(canvas.into_raw().iter().all(|&v| v == 0));
}

fn pixel_run(seed: u64, size: u32, n: u32) -> Vec<Result<(u32, u32), OutOfBoundsError>> {
    let mut game = Sierpinski::init(size, n, seed).unwrap();
    let mut canvas = Canvas::new(size, size).unwrap();
    let mut out = Vec::new();
    while !game.is_finished() {
        out.push(game.step(&mut canvas));
    }
    out
}

#[test]
fn same_seed_same_pixels() {
    let first = pixel_run(2024, 100, 1000);
    let second = pixel_run(2024, 100, 1000);
    assert_eq!(first.len(), 1000);
    assert_eq!(first, second);
    let a = Sierpinski::init(100, 5000, 9).unwrap().gen_fractal().into_raw();
    let b = Sierpinski::init(100, 5000, 9).unwrap().gen_fractal().into_raw();
    assert_eq!(a, b);
    let c = Sierpinski::init(100, 5000, 10).unwrap().gen_fractal().into_raw();
    assert_ne!(a, c);
}

#[test]
fn equilateral_100_thousand_points_in_box() {
    let pixels = pixel_run(7, 100, 1000);
    for r in &pixels {
        if let Ok((x, y)) = r {
            assert!(*x <= 100 && *y <= 87);
        }
    }
    assert!(pixels.iter().filter(|r| r.is_ok()).count() >= 990);
}

#[test]
fn progress_counts_moves() {
    let mut game = Sierpinski::init(10, 3, 5).unwrap();
    let mut canvas = Canvas::new(10, 10).unwrap();
    assert_eq!(game.iterations(), 3);
    assert_eq!(game.iteration(), 0);
    let _ = game.step(&mut canvas);
    assert_eq!(game.iteration(), 1);
    assert!(!game.is_finished());
    let _ = game.step_toward(&mut canvas, 0);
    let _ = game.step_toward(&mut canvas, 0);
    assert_eq!(game.iteration(), 3);
    assert!(game.is_finished());
}

#[test]
fn moves_stay_in_the_triangle_and_off_the_center() {
    let mut game = Sierpinski::init(200, 20000, 11).unwrap();
    let mut canvas = Canvas::new(200, 200).unwrap();
    let start = game.point();
    assert_eq!(start.wa as u128 + start.wb as u128 + start.wc as u128, WEIGHT_TOTAL as u128);
    while !game.is_finished() {
        let _ = game.step(&mut canvas);
        let p = game.point();
        assert_eq!(p.wa as u128 + p.wb as u128 + p.wc as u128, WEIGHT_TOTAL as u128);
        let half = WEIGHT_TOTAL / 2;
        assert!(p.wa >= half || p.wb >= half || p.wc >= half);
    }
}

#[test]
fn central_gap_stays_empty_on_the_canvas() {
    let size: u32 = 200;
    let raw = Sierpinski::init(size, 50000, 3).unwrap().gen_fractal().into_raw();
    let t = equilateral(size);
    let (s, h) = (t.b.x as f64 / 1024.0, t.c.y as f64 / 1024.0);
    let mut inside = 0;
    for y in 0..size {
        for x in 0..size {
            // pixel centre, well inside the inverted triangle of the midpoints
            let (cx, cy) = (x as f64 + 0.5, y as f64 + 0.5);
            let margin = 3.0;
            let below_top = cy < h / 2.0 - margin;
            let above_left = cy > (cx - s / 2.0) * (h / (s / 2.0)) * -1.0 + margin && cx < s / 2.0;
            let above_right = cy > (cx - s / 2.0) * (h / (s / 2.0)) + margin && cx >= s / 2.0;
            if below_top && (above_left || above_right) && cy > margin {
                let i = 3 * (y as usize * size as usize + x as usize);
                if raw[i] == 255 {
                    inside += 1;
                }
            }
        }
    }
    assert!(inside <= 2);
}

#[test]
fn vertex_draws_are_fair() {
    let mut game = Sierpinski::init(10, 0, 123).unwrap();
    let mut counts = [0u32; 3];
    let n = 30000;
    for _ in 0..n {
        let k = game.get_random_vertex();
        counts[k as usize] += 1;
    }
    for c in counts {
        let f = c as f64 / n as f64;
        assert!((f - 1.0 / 3.0).abs() < 0.02);
    }
}

#[test]
fn random_points_lie_in_the_triangle() {
    let mut game = Sierpinski::init(10, 0, 77).unwrap();
    let mut above_half = 0;
    let n = 20000;
    for _ in 0..n {
        let (r1, r2) = game.random_barycentric_coordinates();
        assert!(r1 <= WEIGHT_TOTAL && r2 <= WEIGHT_TOTAL - r1);
        let p = game.get_triangle_random_point();
        assert_eq!(p.wa as u128 + p.wb as u128 + p.wc as u128, WEIGHT_TOTAL as u128);
        if r1 > WEIGHT_TOTAL / 2 {
            above_half += 1;
        }
    }
    // the first coordinate is uniform on its whole range
    let f = above_half as f64 / n as f64;
    assert!((f - 0.5).abs() < 0.02);
}

#[test]
fn explicit_triangle_on_a_wide_canvas() {
    let t = Triangle::from_tuples((0, 0), (300 * 1024, 0), (150 * 1024, 100 * 1024)).unwrap();
    let game = Sierpinski::new(t, 301, 101, 2000, 5);
    let canvas = game.gen_fractal();
    assert_eq!(canvas.dimensions(), (301, 101));
    let raw = canvas.into_raw();
    let lit = raw.chunks(3).filter(|c| c[0] == 255).count();
    assert!(lit > 100);
}

#[test]
fn canvas_too_large_is_refused() {
    if usize::MAX as u128 == u64::MAX as u128 {
        assert!(Canvas::new(u32::MAX, u32::MAX).is_none());
    }
    let c = Canvas::new(4, 2).unwrap();
    assert_eq!(c.dimensions(), (4, 2));
    assert_eq!(c.pixel(3, 1), Some((0, 0, 0)));
    assert_eq!(c.pixel(4, 1), None);
    assert_eq!(c.into_raw(), vec![0u8; 24]);
}
