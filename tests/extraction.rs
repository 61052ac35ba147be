use rotseq::extraction::{select_extraction, Extraction};

fn extraction_for(m: [f64; 9]) -> Extraction {
    let trace = m[0] + m[4] + m[8];
    select_extraction(trace > 0.0, m[0] >= m[4], m[0] >= m[8], m[4] >= m[8])
}

#[test]
fn identity_uses_trace_formula() {
    let m = [1.0, 0.0, 0.0, 0.0, 1.0, 0.0, 0.0, 0.0, 1.0];
    assert_eq!(extraction_for(m), Extraction::Trace);
}

#[test]
fn half_turn_about_x_uses_x_formula() {
    let m = [1.0, 0.0, 0.0, 0.0, -1.0, 0.0, 0.0, 0.0, -1.0];
    assert_eq!(extraction_for(m), Extraction::DiagonalX);
}

#[test]
fn half_turn_about_y_uses_y_formula() {
    let m = [-1.0, 0.0, 0.0, 0.0, 1.0, 0.0, 0.0, 0.0, -1.0];
    assert_eq!(extraction_for(m), Extraction::DiagonalY);
}

#[test]
fn half_turn_about_z_uses_z_formula() {
    let m = [-1.0, 0.0, 0.0, 0.0, -1.0, 0.0, 0.0, 0.0, 1.0];
    assert_eq!(extraction_for(m), Extraction::DiagonalZ);
}

#[test]
fn ties_go_to_the_earlier_axis() {
    assert_eq!(select_extraction(false, true, true, true), Extraction::DiagonalX);
    // r11 == r22 > r00
    assert_eq!(select_extraction(false, false, false, true), Extraction::DiagonalY);
    // all three diagonal entries equal
    let m = [-0.5, 0.0, 0.0, 0.0, -0.5, 0.0, 0.0, 0.0, -0.5];
    assert_eq!(extraction_for(m), Extraction::DiagonalX);
}

#[test]
fn positive_trace_wins_over_diagonals() {
    assert_eq!(select_extraction(true, false, false, false), Extraction::Trace);
}
