use hough_lines::TrigTable;
use hough_lines::TRIG_SCALE;
use hough_lines::calculate_max_rho_value;
use hough_lines::scale_rho;
use hough_lines::unscale_rho;

const Q: i64 = TRIG_SCALE;

#[test]
fn max_rho_is_ceil_of_diagonal() {
    assert_eq!(calculate_max_rho_value(3, 4), 5);
    assert_eq!(calculate_max_rho_value(4, 3), 5);
    assert_eq!(calculate_max_rho_value(1, 1), 2);
    assert_eq!(calculate_max_rho_value(11, 1), 12);
    assert_eq!(calculate_max_rho_value(100, 1), 101);
    assert_eq!(calculate_max_rho_value(0, 0), 0);
    assert_eq!(calculate_max_rho_value(32768, 32768), 46341);
}

#[test]
fn scale_rho_centers_symmetric_range() {
    // max_rho = 12: rho 0 lands in the middle column.
    assert_eq!(scale_rho(0, 12), 6);
    assert_eq!(scale_rho(12 * Q, 12), 12);
    assert_eq!(scale_rho(-12 * Q, 12), 0);
}

#[test]
fn round_trip_scaling_within_one_pixel() {
    let m: usize = 12;
    // rho = 0, +max_rho, -max_rho and a fractional midpoint (3.5 pixels):
    // unscaling the scaled column recovers rho to within one pixel.
    let cases: [i64; 4] = [0, 12 * Q, -12 * Q, 7 * Q / 2];
    for &rho_q in cases.iter() {
        let sc = scale_rho(rho_q, m);
        let back = unscale_rho(sc, m);
        let err_q = back * Q - rho_q;
        assert!(-Q <= err_q && err_q <= Q);
    }
}

#[test]
fn round_trip_exact_values() {
    let m: usize = 12;
    assert_eq!(unscale_rho(scale_rho(0, m), m), 0);
    assert_eq!(unscale_rho(scale_rho(12 * Q, m), m), 12);
    assert_eq!(unscale_rho(scale_rho(-12 * Q, m), m), -12);
    // 3.5 pixels rounds to column 8, which unscales to 4.
    assert_eq!(unscale_rho(scale_rho(7 * Q / 2, m), m), 4);
}

#[test]
fn standard_table_is_accepted() {
    let table = TrigTable::standard();
    assert!(table.is_some());
    let table = table.unwrap();
    assert_eq!(table.cos_at(0), Q);
    assert_eq!(table.sin_at(0), 0);
    assert_eq!(table.cos_at(90), 0);
    assert_eq!(table.sin_at(90), Q);
    assert_eq!(table.cos_at(60), Q / 2);
    assert_eq!(table.sin_at(30), Q / 2 - 1);
}

#[test]
fn standard_table_matches_float_cosine() {
    let table = TrigTable::standard().unwrap();
    for t in 0..180usize {
        let rad = (t as f64) * std::f64::consts::PI / 180.0;
        let c = (rad.cos() * (Q as f64)).trunc() as i64;
        let s = (rad.sin() * (Q as f64)).trunc() as i64;
        assert_eq!(table.cos_at(t), c, "cosine entry {}", t);
        assert_eq!(table.sin_at(t), s, "sine entry {}", t);
    }
}

#[test]
fn table_rejects_wrong_length() {
    let cos_q = vec![0i64; 179];
    let sin_q = vec![1i64; 179];
    assert!(TrigTable::new(cos_q, sin_q).is_none());
}

#[test]
fn table_rejects_entry_outside_circle() {
    let mut cos_q = vec![0i64; 180];
    let sin_q = vec![1i64; 180];
    cos_q[0] = Q;
    // (Q, 1) lies outside the circle of radius Q.
    assert!(TrigTable::new(cos_q, sin_q).is_none());
}

#[test]
fn table_rejects_zero_sine_off_axis() {
    let mut cos_q = vec![0i64; 180];
    let mut sin_q = vec![1i64; 180];
    cos_q[0] = Q;
    sin_q[0] = 0;
    sin_q[17] = 0;
    assert!(TrigTable::new(cos_q, sin_q).is_none());
}

#[test]
fn table_accepts_entries_within_bounds() {
    let mut cos_q = vec![0i64; 180];
    let mut sin_q = vec![1i64; 180];
    cos_q[0] = Q;
    sin_q[0] = 0;
    let table = TrigTable::new(cos_q, sin_q);
    assert!(table.is_some());
    assert_eq!(table.unwrap().cos_at(0), Q);
}
