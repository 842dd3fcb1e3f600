use hough_lines::GreyImage;
use hough_lines::LineCandidate;
use hough_lines::TrigTable;
use hough_lines::create_lines;
use hough_lines::hough_transform;
use hough_lines::line_segment_endpoints;
use hough_lines::max_vote;
use hough_lines::render_houghspace;
use hough_lines::total_votes;
use hough_lines::transform_to_image_space;

fn table() -> TrigTable {
    TrigTable::standard().unwrap()
}

/// The synthetic image of the known-geometry scenario: an 11 x 1 row with
/// only the pixels (0, 0) and (10, 0) above threshold.
fn two_point_image() -> GreyImage {
    let mut data = vec![0u8; 11];
    data[0] = 255;
    data[10] = 255;
    GreyImage::new(11, 1, data).unwrap()
}

#[test]
fn degenerate_image_yields_empty_results() {
    // A 1x1 image whose single pixel is below the intensity threshold:
    // an all-zero accumulator and no reconstructed lines.
    let img = GreyImage::new(1, 1, vec![10u8]).unwrap();
    let tbl = table();
    let acc = hough_transform(&img, 250, &tbl);
    assert_eq!(acc.rho_resolution(), 2);
    assert_eq!(max_vote(&acc), 0);
    assert_eq!(total_votes(&acc), 0);
    let lines = transform_to_image_space(&acc, 1);
    assert!(lines.is_empty());
    // The rendering of an accumulator with no votes is all zeros.
    let vis = render_houghspace(&acc);
    assert_eq!(vis.width(), 180);
    assert_eq!(vis.height(), 2);
    for y in 0..vis.height() {
        for x in 0..vis.width() {
            assert_eq!(vis.get(x, y), 0);
        }
    }
}

#[test]
fn zero_area_image_yields_zero_sized_accumulator() {
    let img = GreyImage::new(0, 5, vec![]).unwrap();
    let tbl = table();
    let acc = hough_transform(&img, 250, &tbl);
    assert_eq!(acc.rho_resolution(), 0);
    assert_eq!(total_votes(&acc), 0);
    assert!(transform_to_image_space(&acc, 0).is_empty());
    let vis = render_houghspace(&acc);
    assert_eq!(vis.width(), 180);
    assert_eq!(vis.height(), 0);
}

#[test]
fn known_geometry_two_points_on_horizontal_line() {
    // (0,0) and (10,0) both lie on the horizontal line theta = 90, rho = 0.
    let img = two_point_image();
    let tbl = table();
    let acc = hough_transform(&img, 250, &tbl);
    // max_rho = ceil(hypot(11, 1)) = 12; rho = 0 scales to column 6.
    assert_eq!(acc.rho_resolution(), 12);
    assert_eq!(acc.count_at(90, 6), 2);
    let lines = transform_to_image_space(&acc, 2);
    // The two points also share the near-horizontal lines whose scaled
    // distance falls in the same column: every angle 85..=95 reaches two
    // votes, the exactly-horizontal one among them.
    assert_eq!(lines.len(), 11);
    for (i, line) in lines.iter().enumerate() {
        assert_eq!(line.theta, 85 + i);
        assert_eq!(line.rho, 0);
    }
    assert!(lines.iter().any(|l| l.theta == 90 && l.rho == 0));
    // The horizontal line's segment runs along y = 0.
    let seg = line_segment_endpoints(LineCandidate { theta: 90, rho: 0 }, &tbl, 11);
    assert_eq!(seg.x0_milli, 0);
    assert_eq!(seg.y0_milli, 0);
    assert_eq!(seg.x1_milli, 11000);
    assert_eq!(seg.y1_milli, 0);
}

#[test]
fn threshold_boundary_is_inclusive() {
    let img = two_point_image();
    let tbl = table();
    let acc = hough_transform(&img, 250, &tbl);
    assert_eq!(acc.count_at(90, 6), 2);
    // A cell exactly at the vote threshold is included...
    let at = transform_to_image_space(&acc, 2);
    assert!(at.iter().any(|l| l.theta == 90 && l.rho == 0));
    // ...and one below it is excluded (no cell reaches three votes).
    let above = transform_to_image_space(&acc, 3);
    assert!(above.is_empty());
}

#[test]
fn vote_conservation_two_points() {
    let img = two_point_image();
    let tbl = table();
    let acc = hough_transform(&img, 250, &tbl);
    // Two qualifying pixels, 180 votes each.
    assert_eq!(total_votes(&acc), 2 * 180);
}

#[test]
fn saturated_image_votes_everywhere() {
    // Every pixel of a 4x4 image qualifies: the build completes, each of
    // the 16 pixels casts one vote at each of the 180 angles, and every
    // angle row of the accumulator carries all 16 of its votes.
    let img = GreyImage::new(4, 4, vec![255u8; 16]).unwrap();
    let tbl = table();
    let acc = hough_transform(&img, 250, &tbl);
    assert_eq!(total_votes(&acc), 16 * 180);
    let m = acc.rho_resolution();
    for t in 0..180 {
        let mut row = 0u64;
        for r in 0..m {
            row += acc.count_at(t, r) as u64;
        }
        assert_eq!(row, 16);
    }
    assert!(max_vote(&acc) >= 1);
}

#[test]
fn build_and_reconstruct_are_deterministic() {
    let img = two_point_image();
    let tbl = table();
    let acc1 = hough_transform(&img, 250, &tbl);
    let acc2 = hough_transform(&img, 250, &tbl);
    assert_eq!(acc1.rho_resolution(), acc2.rho_resolution());
    let m = acc1.rho_resolution();
    for t in 0..180 {
        for r in 0..m {
            assert_eq!(acc1.count_at(t, r), acc2.count_at(t, r));
        }
    }
    let lines1 = transform_to_image_space(&acc1, 2);
    let lines2 = transform_to_image_space(&acc2, 2);
    assert_eq!(lines1, lines2);
}

#[test]
fn render_normalizes_by_maximum() {
    let img = two_point_image();
    let tbl = table();
    let acc = hough_transform(&img, 250, &tbl);
    assert_eq!(max_vote(&acc), 2);
    let vis = render_houghspace(&acc);
    assert_eq!(vis.width(), 180);
    assert_eq!(vis.height(), 12);
    // Rows are flipped vertically: column r renders at row m - 1 - r.
    // The two-vote cell (90, 6) renders at full intensity.
    assert_eq!(vis.get(90, 5), 255);
    // At theta = 0 the two points vote into columns 6 (rho 0) and 11
    // (rho 10): single votes render as round(255/2) = 128.
    assert_eq!(acc.count_at(0, 6), 1);
    assert_eq!(acc.count_at(0, 11), 1);
    assert_eq!(vis.get(0, 5), 128);
    assert_eq!(vis.get(0, 0), 128);
    // An empty cell renders as zero.
    assert_eq!(acc.count_at(0, 0), 0);
    assert_eq!(vis.get(0, 11), 0);
}

#[test]
fn create_lines_enumerates_all_angles() {
    let tbl = table();
    let at_origin = create_lines(0, 0, &tbl);
    assert_eq!(at_origin.len(), 180);
    for (t, (theta, rho_q)) in at_origin.iter().enumerate() {
        assert_eq!(*theta, t);
        assert_eq!(*rho_q, 0);
    }
    let unit_x = create_lines(1, 0, &tbl);
    assert_eq!(unit_x.len(), 180);
    // rho of the line through (1, 0) is cos(theta).
    assert_eq!(unit_x[0], (0, 1048576));
    assert_eq!(unit_x[45], (45, 741455));
    assert_eq!(unit_x[90], (90, 0));
    assert_eq!(unit_x[135], (135, -741455));
}

#[test]
fn oblique_segment_endpoints_solve_for_y() {
    let tbl = table();
    // theta = 45, rho = 2: y = (2 - x*cos45) / sin45 at x = 1 and x = 10.
    let seg = line_segment_endpoints(LineCandidate { theta: 45, rho: 2 }, &tbl, 10);
    assert_eq!(seg.x0_milli, 1000);
    assert_eq!(seg.x1_milli, 10000);
    // y(1) = (2 - cos45)/sin45 = 1.828..., in milli-pixels rounded down.
    let c = 741455f64;
    let s = 741455f64;
    let q = 1048576f64;
    let y0 = ((2.0 * q - c) * 1000.0 / s).floor() as i64;
    let y1 = ((2.0 * q - 10.0 * c) * 1000.0 / s).floor() as i64;
    assert_eq!(seg.y0_milli, y0);
    assert_eq!(seg.y1_milli, y1);
    assert!(seg.y0_milli > 1800 && seg.y0_milli < 1900);
    assert!(seg.y1_milli < 0);
}

#[test]
fn reconstruct_maps_candidates_to_segments() {
    let img = two_point_image();
    let tbl = table();
    let acc = hough_transform(&img, 250, &tbl);
    let segs = hough_lines::reconstruct(&acc, 2, &tbl, 11);
    let lines = transform_to_image_space(&acc, 2);
    assert_eq!(segs.len(), lines.len());
    assert_eq!(segs.len(), 11);
    // The sixth candidate is the exactly horizontal line theta = 90.
    assert_eq!(lines[5].theta, 90);
    let horizontal = segs[5];
    assert_eq!(horizontal.x0_milli, 0);
    assert_eq!(horizontal.y0_milli, 0);
    assert_eq!(horizontal.x1_milli, 11000);
    assert_eq!(horizontal.y1_milli, 0);
    // Each segment agrees with converting its candidate directly.
    for (line, seg) in lines.iter().zip(segs.iter()) {
        let direct = line_segment_endpoints(*line, &tbl, 11);
        assert_eq!(*seg, direct);
    }
}

#[test]
fn image_new_checks_dimensions() {
    assert!(GreyImage::new(2, 2, vec![0u8; 3]).is_none());
    assert!(GreyImage::new(2, 2, vec![0u8; 4]).is_some());
    assert!(GreyImage::new(50000, 1, vec![]).is_none());
    let img = GreyImage::new(2, 2, vec![1, 2, 3, 4]).unwrap();
    assert_eq!(img.get(0, 0), 1);
    assert_eq!(img.get(1, 0), 2);
    assert_eq!(img.get(0, 1), 3);
    assert_eq!(img.get(1, 1), 4);
}
