use qr_decoder::error::QRDecodeError;
use qr_decoder::geometry::{
    bounding_box, calculate_area_from_corners, calculate_position_from_corners, copy_corners,
};
use qr_decoder::types::QRPosition;

fn square_of(side: i32) -> Vec<(i32, i32)> {
    vec![(0, 0), (side, 0), (side, side), (0, side)]
}

#[test]
fn area_of_a_square() {
    assert_eq!(calculate_area_from_corners(&square_of(100)), 10000);
}

#[test]
fn area_is_that_of_the_bounding_box() {
    let diamond = vec![(50, 0), (100, 40), (50, 80), (0, 40)];
    assert_eq!(calculate_area_from_corners(&diamond), 100 * 80);
}

#[test]
fn area_of_too_few_corners_is_zero() {
    assert_eq!(calculate_area_from_corners(&Vec::new()), 0);
    assert_eq!(calculate_area_from_corners(&vec![(0, 0), (10, 0), (10, 10)]), 0);
}

#[test]
fn area_of_five_corners_counts_them_all() {
    let corners = vec![(0, 0), (10, 0), (10, 10), (0, 10), (30, 5)];
    assert_eq!(calculate_area_from_corners(&corners), 300);
}

#[test]
fn area_of_the_widest_box_does_not_overflow() {
    let corners = vec![
        (i32::MIN, i32::MIN),
        (i32::MAX, i32::MIN),
        (i32::MAX, i32::MAX),
        (i32::MIN, i32::MAX),
    ];
    let side = u32::MAX as u64;
    assert_eq!(calculate_area_from_corners(&corners), side.saturating_mul(side));
}

#[test]
fn bounding_box_of_a_tilted_code() {
    let corners = vec![(12, 30), (110, 20), (120, 118), (10, 125)];
    assert_eq!(bounding_box(&corners), (10, 20, 120, 125));
}

#[test]
fn position_is_the_box_around_the_corners() {
    let corners = vec![(10, 20), (110, 20), (110, 120), (10, 120)];
    let position = calculate_position_from_corners(&corners).unwrap();
    assert_eq!(position.x, 10);
    assert_eq!(position.y, 20);
    assert_eq!(position.width, 100);
    assert_eq!(position.height, 100);
    assert_eq!(position.corners, Some(corners));
}

#[test]
fn position_with_negative_coordinates() {
    let corners = vec![(-10, -20), (30, -25), (35, 15), (-5, 20)];
    let position = calculate_position_from_corners(&corners).unwrap();
    assert_eq!((position.x, position.y, position.width, position.height), (-10, -25, 45, 45));
}

#[test]
fn position_wider_than_a_box_can_hold_is_cut() {
    let corners = vec![(i32::MIN, 0), (i32::MAX, 0), (i32::MAX, 10), (i32::MIN, 10)];
    let position = calculate_position_from_corners(&corners).unwrap();
    assert_eq!(position.x, i32::MIN);
    assert_eq!(position.width, i32::MAX);
    assert_eq!(position.height, 10);
}

#[test]
fn position_needs_four_corners() {
    for n in 0..4usize {
        let corners: Vec<(i32, i32)> = square_of(10).into_iter().take(n).collect();
        match calculate_position_from_corners(&corners) {
            Err(QRDecodeError::DecodeError(message)) => assert_eq!(message, "角点数量不足"),
            other => panic!("expected a decode error, got {:?}", other),
        }
    }
}

#[test]
fn copy_of_corners_is_equal() {
    let corners = vec![(1, 2), (3, 4), (-5, 6)];
    assert_eq!(copy_corners(&corners), corners);
    assert_eq!(copy_corners(&Vec::new()), Vec::<(i32, i32)>::new());
}

#[test]
fn center_is_in_half_pixels() {
    let position = QRPosition::new(10, 20, 100, 100);
    assert_eq!(position.center(), (120, 140));
    let odd = QRPosition::new(0, 0, 5, 7);
    assert_eq!(odd.center(), (5, 7));
}

#[test]
fn area_of_a_position() {
    assert_eq!(QRPosition::new(10, 20, 100, 100).area(), 10000);
    assert_eq!(QRPosition::new(0, 0, i32::MAX, i32::MAX).area(), (i32::MAX as i64) * (i32::MAX as i64));
    assert_eq!(QRPosition::new(0, 0, -3, 4).area(), -12);
}

#[test]
fn with_corners_keeps_the_box() {
    let position = QRPosition::new(1, 2, 3, 4).with_corners(square_of(3));
    assert_eq!((position.x, position.y, position.width, position.height), (1, 2, 3, 4));
    assert_eq!(position.corners, Some(square_of(3)));
}
