use qr_decoder::confidence::{score, BackendKind};
use qr_decoder::types::CONFIDENCE_MAX;

fn box_of(width: i32, height: i32) -> Vec<(i32, i32)> {
    vec![(0, 0), (width, 0), (width, height), (0, height)]
}

#[test]
fn generic_score_with_every_bonus() {
    assert_eq!(score(&box_of(100, 100), 21, 21, BackendKind::Generic), 1000);
}

#[test]
fn generic_score_without_a_rectified_image() {
    assert_eq!(score(&box_of(100, 100), 0, 0, BackendKind::Generic), 800);
}

#[test]
fn generic_score_of_a_speck() {
    assert_eq!(score(&box_of(10, 10), 0, 0, BackendKind::Generic), 700);
    assert_eq!(score(&box_of(10, 11), 0, 0, BackendKind::Generic), 800);
}

#[test]
fn generic_score_of_too_few_corners() {
    assert_eq!(score(&Vec::new(), 0, 0, BackendKind::Generic), 500);
    assert_eq!(score(&vec![(0, 0), (100, 0), (100, 100)], 0, 0, BackendKind::Generic), 500);
    assert_eq!(score(&vec![(0, 0), (100, 0), (100, 100)], 64, 64, BackendKind::Generic), 700);
}

#[test]
fn rectified_image_must_exceed_twenty_pixels_both_ways() {
    assert_eq!(score(&box_of(100, 100), 20, 20, BackendKind::Generic), 800);
    assert_eq!(score(&box_of(100, 100), 21, 20, BackendKind::Generic), 800);
    assert_eq!(score(&box_of(100, 100), 20, 21, BackendKind::Generic), 800);
    assert_eq!(score(&box_of(100, 100), 21, 21, BackendKind::Generic), 1000);
}

#[test]
fn wechat_score_is_cut_at_certainty() {
    assert_eq!(score(&box_of(100, 100), 64, 64, BackendKind::WeChat), 1000);
}

#[test]
fn wechat_score_step_by_step() {
    assert_eq!(score(&Vec::new(), 0, 0, BackendKind::WeChat), 800);
    assert_eq!(score(&Vec::new(), 64, 64, BackendKind::WeChat), 850);
    assert_eq!(score(&box_of(10, 10), 0, 0, BackendKind::WeChat), 900);
    assert_eq!(score(&box_of(20, 20), 0, 0, BackendKind::WeChat), 950);
    assert_eq!(score(&box_of(40, 25), 0, 0, BackendKind::WeChat), 950);
    assert_eq!(score(&box_of(40, 26), 0, 0, BackendKind::WeChat), 1000);
    assert_eq!(score(&box_of(20, 20), 64, 64, BackendKind::WeChat), 1000);
}

#[test]
fn score_is_never_beyond_certainty() {
    let sides = [i32::MIN, -100, -1, 0, 1, 10, 11, 20, 21, 32, 1000, i32::MAX];
    let kinds = [BackendKind::Generic, BackendKind::WeChat];
    for &w in sides.iter() {
        for &h in sides.iter() {
            for n in 0..6usize {
                let corners: Vec<(i32, i32)> =
                    vec![(0, 0), (w, 0), (w, h), (0, h), (w / 2, h / 2)].into_iter().take(n).collect();
                for &kind in kinds.iter() {
                    let s = score(&corners, w, h, kind);
                    assert!(s <= CONFIDENCE_MAX);
                    let base = match kind {
                        BackendKind::Generic => 500,
                        BackendKind::WeChat => 800,
                    };
                    assert!(s >= base);
                }
            }
        }
    }
}

#[test]
fn symbol_names() {
    assert_eq!(BackendKind::Generic.symbol_name(), "QR_CODE");
    assert_eq!(BackendKind::WeChat.symbol_name(), "WECHAT_QR_CODE");
}
