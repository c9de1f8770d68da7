use qr_decoder::dedup::{dedup, is_duplicate, is_same_code};
use qr_decoder::types::{QRCodeResult, QRPosition};

fn found_at(content: &str, x: i32, y: i32) -> QRCodeResult {
    QRCodeResult::new(content.to_string(), QRPosition::new(x, y, 80, 80), 900, "QR_CODE".to_string())
}

#[test]
fn origins_close_together_are_the_same_code() {
    let existing = vec![found_at("a", 100, 100)];
    assert!(is_duplicate(&found_at("a", 105, 103), &existing));
}

#[test]
fn origins_far_apart_are_different_codes() {
    let existing = vec![found_at("a", 100, 100)];
    assert!(!is_duplicate(&found_at("a", 300, 300), &existing));
}

#[test]
fn nothing_repeats_an_empty_list() {
    assert!(!is_duplicate(&found_at("a", 0, 0), &Vec::new()));
}

#[test]
fn the_threshold_itself_is_not_within() {
    let origin = found_at("a", 0, 0);
    assert!(!is_same_code(&origin, &found_at("b", 30, 40)));
    assert!(!is_same_code(&origin, &found_at("b", 50, 0)));
    assert!(!is_same_code(&origin, &found_at("b", 0, -50)));
    assert!(is_same_code(&origin, &found_at("b", 30, 39)));
    assert!(is_same_code(&origin, &found_at("b", 49, 0)));
    assert!(is_same_code(&origin, &found_at("b", -35, -35)));
}

#[test]
fn same_code_whichever_is_asked_first() {
    let points = [(0, 0), (30, 40), (30, 39), (-49, 1), (1000, -1000), (i32::MIN, i32::MAX)];
    for &(ax, ay) in points.iter() {
        for &(bx, by) in points.iter() {
            let a = found_at("a", ax, ay);
            let b = found_at("b", bx, by);
            assert_eq!(is_same_code(&a, &b), is_same_code(&b, &a));
        }
    }
}

#[test]
fn content_plays_no_part() {
    assert!(is_same_code(&found_at("one", 10, 10), &found_at("another", 12, 11)));
    assert!(!is_same_code(&found_at("same", 10, 10), &found_at("same", 500, 10)));
}

#[test]
fn any_of_the_existing_counts() {
    let existing = vec![found_at("a", 0, 0), found_at("b", 500, 500), found_at("c", 1000, 0)];
    assert!(is_duplicate(&found_at("x", 510, 490), &existing));
    assert!(is_duplicate(&found_at("x", 1001, 1), &existing));
    assert!(!is_duplicate(&found_at("x", 250, 250), &existing));
}

#[test]
fn extreme_origins_do_not_overflow() {
    let a = found_at("a", i32::MIN, i32::MIN);
    let b = found_at("b", i32::MAX, i32::MAX);
    assert!(!is_same_code(&a, &b));
    assert!(is_same_code(&a, &a));
}

#[test]
fn dedup_keeps_the_first_of_each_code() {
    let kept = dedup(vec![
        found_at("first", 100, 100),
        found_at("again", 105, 103),
        found_at("second", 300, 300),
        found_at("again too", 95, 90),
        found_at("second again", 310, 310),
    ]);
    let contents: Vec<&str> = kept.iter().map(|r| r.content.as_str()).collect();
    assert_eq!(contents, vec!["first", "second"]);
}

#[test]
fn dedup_compares_with_what_stayed() {
    // The third is within reach of the second, which did not stay, and out
    // of reach of the first.
    let kept = dedup(vec![found_at("a", 0, 0), found_at("b", 40, 0), found_at("c", 80, 0)]);
    let contents: Vec<&str> = kept.iter().map(|r| r.content.as_str()).collect();
    assert_eq!(contents, vec!["a", "c"]);
}

#[test]
fn dedup_of_nothing_and_of_one() {
    assert!(dedup(Vec::new()).is_empty());
    let one = dedup(vec![found_at("only", 7, 7)]);
    assert_eq!(one.len(), 1);
    assert_eq!(one[0].content, "only");
}

#[test]
fn no_two_of_what_stays_are_the_same_code() {
    let mut all = Vec::new();
    for i in 0..40 {
        all.push(found_at("p", (i * 17) % 200, (i * 29) % 150));
    }
    let kept = dedup(all);
    assert_eq!(kept[0].position.x, 0);
    for i in 0..kept.len() {
        for j in 0..i {
            assert!(!is_same_code(&kept[i], &kept[j]));
        }
    }
}
