use pseudo_rhythm::fixed::Fixed;
use pseudo_rhythm::util::{
    dist_to_segment, king_distance, king_distance_fixed, smooth_step, vec_to_dir,
};
use pseudo_rhythm::vec2::{FVec2, IVec2, Segment};

fn fv(x: i64, y: i64) -> FVec2 {
    FVec2::new(Fixed::from_raw(x), Fixed::from_raw(y))
}

#[test]
fn king_distance_is_the_larger_extent() {
    assert_eq!(king_distance(IVec2::new(3, -7)), 7);
    assert_eq!(king_distance(IVec2::new(-3, 2)), 3);
    assert_eq!(king_distance(IVec2::new(0, 0)), 0);
    assert_eq!(king_distance(IVec2::new(i64::MIN, 0)), i64::MAX);
    assert_eq!(king_distance_fixed(fv(-1_500_000, 250_000)).raw, 1_500_000);
}

#[test]
fn smooth_step_ends_and_middle() {
    assert_eq!(smooth_step(Fixed::zero()).raw, 0);
    assert_eq!(smooth_step(Fixed::one()).raw, 1_000_000);
    assert_eq!(smooth_step(Fixed::from_raw(500_000)).raw, 500_000);
    assert_eq!(smooth_step(Fixed::from_raw(250_000)).raw, 156_250);
}

#[test]
fn vec_to_dir_zero_stands_still() {
    assert_eq!(vec_to_dir(fv(0, 0)), IVec2::new(0, 0));
}

#[test]
fn vec_to_dir_axes() {
    assert_eq!(vec_to_dir(fv(5_000_000, 0)), IVec2::new(1, 0));
    assert_eq!(vec_to_dir(fv(-5_000_000, 0)), IVec2::new(-1, 0));
    assert_eq!(vec_to_dir(fv(0, 5_000_000)), IVec2::new(0, 1));
    assert_eq!(vec_to_dir(fv(0, -5_000_000)), IVec2::new(0, -1));
}

#[test]
fn vec_to_dir_diagonals() {
    assert_eq!(vec_to_dir(fv(1_000_000, 1_000_000)), IVec2::new(1, 1));
    assert_eq!(vec_to_dir(fv(-1_000_000, 1_000_000)), IVec2::new(-1, 1));
    assert_eq!(vec_to_dir(fv(1_000_000, -1_000_000)), IVec2::new(1, -1));
    assert_eq!(vec_to_dir(fv(-2_000_000, -1_000_000)), IVec2::new(-1, -1));
}

#[test]
fn vec_to_dir_thresholds() {
    // tangent 0.40 is horizontal, 0.41 is diagonal
    assert_eq!(vec_to_dir(fv(100_000_000, 40_000_000)), IVec2::new(1, 0));
    assert_eq!(vec_to_dir(fv(100_000_000, 41_000_000)), IVec2::new(1, 1));
    // tangent 2.40 is diagonal, 2.41 is vertical
    assert_eq!(vec_to_dir(fv(100_000_000, 240_000_000)), IVec2::new(1, 1));
    assert_eq!(vec_to_dir(fv(100_000_000, 241_000_000)), IVec2::new(0, 1));
    // the horizontal extent counts as at least 0.01
    assert_eq!(vec_to_dir(fv(0, 4_000)), IVec2::new(0, 0));
    assert_eq!(vec_to_dir(fv(0, 20_000)), IVec2::new(0, 1));
    assert_eq!(vec_to_dir(fv(0, 30_000)), IVec2::new(0, 1));
}

#[test]
fn dist_to_point_segment() {
    let p = fv(3_000_000, 4_000_000);
    let s = Segment(fv(0, 0), fv(0, 0));
    assert_eq!(dist_to_segment(p, s).raw, 5_000_000);
}

#[test]
fn dist_to_segment_beyond_the_ends() {
    let s = Segment(fv(0, 0), fv(1_000_000, 0));
    // on the line, beyond the second end: nearest to the second end
    assert_eq!(dist_to_segment(fv(5_000_000, 0), s).raw, 4_000_000);
    // on the line, before the first end: nearest to the first end
    assert_eq!(dist_to_segment(fv(-2_000_000, 0), s).raw, 2_000_000);
    // off the line, beyond the second end
    assert_eq!(dist_to_segment(fv(4_000_000, 4_000_000), s).raw, 5_000_000);
}

#[test]
fn dist_to_segment_between_the_ends() {
    let s = Segment(fv(0, 0), fv(1_000_000, 0));
    assert_eq!(dist_to_segment(fv(500_000, 0), s).raw, 0);
    assert_eq!(dist_to_segment(fv(500_000, 300_000), s).raw, 300_000);
    assert_eq!(dist_to_segment(fv(250_000, -2_000_000), s).raw, 2_000_000);
    assert_eq!(dist_to_segment(fv(0, 0), s).raw, 0);
    assert_eq!(dist_to_segment(fv(1_000_000, 0), s).raw, 0);
    let slanted = Segment(fv(0, 0), fv(4_000_000, 4_000_000));
    // the foot of (4, 0) is (2, 2)
    assert_eq!(dist_to_segment(fv(4_000_000, 0), slanted).raw, 2_828_427);
}
