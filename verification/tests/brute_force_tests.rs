use qr_decoder::brute_force_decoder::{BruteForceConfig, BruteForceDecoder, TransformParams};
use qr_decoder::error::QRDecodeError;
use qr_decoder::image_ops::{ImageInfo, ImageOp};
use qr_decoder::image_processor::ReadOutcome;
use qr_decoder::search::{AttemptOutcome, SearchOutcome, SearchStep};
use qr_decoder::types::{OutputFormat, ProcessingConfig, QRCodeResult, QRPosition};
use qr_decoder::wechat_qr_decoder::{ModelArtifacts, WeChatQRDecoder};

fn brute_test_config() -> ProcessingConfig {
    ProcessingConfig {
        input_path: "test.jpg".to_string(),
        output_path: None,
        output_format: OutputFormat::Text,
        preprocess: false,
        verbose: false,
        show_position: false,
        min_confidence: 0,
        save_processed: false,
        processed_output_path: None,
        brute_force: true,
        expected_count: 1,
        randomize: false,
        invert: false,
    }
}

fn brute_models(present: bool) -> ModelArtifacts {
    ModelArtifacts {
        detect_prototxt: present,
        detect_caffemodel: present,
        sr_prototxt: present,
        sr_caffemodel: present,
    }
}

fn brute_decoder() -> BruteForceDecoder {
    BruteForceDecoder::new(WeChatQRDecoder::new(&brute_test_config(), &brute_models(true), None))
        .unwrap()
}

fn at(content: &str, x: i32, y: i32) -> QRCodeResult {
    QRCodeResult::new(content.to_string(), QRPosition::new(x, y, 60, 60), 900, "WECHAT_QR_CODE".to_string())
}

fn params(scale: u32, contrast: u32, brightness: i32, blur: i32, grayscale: bool, binary: bool) -> TransformParams {
    TransformParams { contrast, brightness, blur, scale, grayscale, binary }
}

// Runs a whole search and tells which combinations were tried, in order.
fn run_brute<F>(decoder: &mut BruteForceDecoder, randomize: bool, mut attempt: F) -> (SearchOutcome, Vec<TransformParams>)
where
    F: FnMut(usize, TransformParams) -> AttemptOutcome,
{
    let mut tried = Vec::new();
    let mut step = decoder.begin(randomize);
    loop {
        match step {
            SearchStep::Attempt { index, candidate } => {
                assert_eq!(index, tried.len());
                tried.push(candidate);
                step = decoder.detect_and_decode(attempt(index, candidate));
            }
            SearchStep::Finished(outcome) => return (outcome, tried),
        }
    }
}

fn sort_key(p: &TransformParams) -> (u32, u32, i32, i32, bool, bool) {
    (p.scale, p.contrast, p.brightness, p.blur, p.grayscale, p.binary)
}

#[test]
fn the_default_option_lists() {
    let config = BruteForceConfig::default();
    assert_eq!(config.contrast_options, vec![200, 100, 300]);
    assert_eq!(config.brightness_options, vec![-75, 75, -50, -25, -10, 0, 25, 50]);
    assert_eq!(
        config.blur_options,
        vec![-7, -3, 7, 3, -1, 5, 9, 11, 13, 15, 17, 19, 21, 23, 25]
    );
    assert_eq!(config.scale_options, vec![20, 50, 70, 90, 130, 200]);
    assert_eq!(config.duplicate_threshold, 10);
    assert!(!config.randomize);
}

#[test]
fn the_default_grid_has_every_combination() {
    let decoder = brute_decoder();
    let grid = decoder.generate_param_combinations();
    assert_eq!(grid.len(), 6 * 3 * 8 * 15 * 2);
    assert_eq!(grid.len(), 4320);
    let mut keys: Vec<_> = grid.iter().map(sort_key).collect();
    keys.sort();
    keys.dedup();
    assert_eq!(keys.len(), 4320);
    assert!(grid.iter().all(|p| p.grayscale));
}

#[test]
fn the_grid_counts_like_nested_loops() {
    let grid = brute_decoder().generate_param_combinations();
    assert_eq!(grid[0], params(20, 200, -75, -7, true, true));
    assert_eq!(grid[1], params(20, 200, -75, -7, true, false));
    assert_eq!(grid[2], params(20, 200, -75, -3, true, true));
    assert_eq!(grid[29], params(20, 200, -75, 25, true, false));
    assert_eq!(grid[30], params(20, 200, 75, -7, true, true));
    assert_eq!(grid[240], params(20, 100, -75, -7, true, true));
    assert_eq!(grid[720], params(50, 200, -75, -7, true, true));
    assert_eq!(grid[4319], params(200, 300, 50, 25, true, false));
    let config = BruteForceConfig::default();
    let mut expected = Vec::new();
    for &scale in config.scale_options.iter() {
        for &contrast in config.contrast_options.iter() {
            for &brightness in config.brightness_options.iter() {
                for &blur in config.blur_options.iter() {
                    for binary in [true, false] {
                        expected.push(params(scale, contrast, brightness, blur, true, binary));
                    }
                }
            }
        }
    }
    assert_eq!(grid, expected);
}

#[test]
fn a_search_in_order_walks_the_grid() {
    let mut decoder = brute_decoder();
    let grid = decoder.generate_param_combinations();
    let (outcome, tried) = run_brute(&mut decoder, false, |_, _| AttemptOutcome::Decoded(Vec::new()));
    assert_eq!(tried, grid);
    assert_eq!(outcome.attempts_tried, 4320);
    assert!(outcome.results.is_empty());
}

#[test]
fn a_shuffled_search_tries_the_same_combinations() {
    let mut decoder = brute_decoder();
    let grid = decoder.generate_param_combinations();
    let (_, first) = run_brute(&mut decoder, true, |_, _| AttemptOutcome::Decoded(Vec::new()));
    let (_, second) = run_brute(&mut decoder, true, |_, _| AttemptOutcome::Decoded(Vec::new()));
    assert_eq!(first.len(), 4320);
    assert_eq!(second.len(), 4320);
    assert_ne!(first, grid);
    assert_ne!(second, grid);
    assert_ne!(first, second);
    let mut in_order: Vec<_> = grid.iter().map(sort_key).collect();
    let mut first_keys: Vec<_> = first.iter().map(sort_key).collect();
    let mut second_keys: Vec<_> = second.iter().map(sort_key).collect();
    in_order.sort();
    first_keys.sort();
    second_keys.sort();
    assert_eq!(first_keys, in_order);
    assert_eq!(second_keys, in_order);
}

#[test]
fn the_search_stops_at_the_first_hit() {
    for hit_at in [0usize, 1, 100, 4319] {
        let mut decoder = brute_decoder();
        let mut calls = 0usize;
        let (outcome, tried) = run_brute(&mut decoder, false, |index, _| {
            calls += 1;
            if index == hit_at {
                AttemptOutcome::Decoded(vec![at("found", 10, 10)])
            } else if index > hit_at {
                panic!("the search went on after a hit")
            } else {
                AttemptOutcome::Decoded(Vec::new())
            }
        });
        assert_eq!(calls, hit_at + 1);
        assert_eq!(tried.len(), hit_at + 1);
        assert_eq!(outcome.attempts_tried, hit_at + 1);
        assert_eq!(outcome.results.len(), 1);
        assert_eq!(outcome.results[0].content, "found");
    }
}

#[test]
fn failures_are_swallowed() {
    let mut decoder = brute_decoder();
    let (outcome, tried) = run_brute(&mut decoder, false, |index, _| {
        if index < 10 {
            AttemptOutcome::Failed(QRDecodeError::image_processing_error("缩放处理失败".to_string()))
        } else if index < 20 {
            AttemptOutcome::Failed(QRDecodeError::decode_error("backend".to_string()))
        } else {
            AttemptOutcome::Decoded(vec![at("found", 0, 0)])
        }
    });
    assert_eq!(tried.len(), 21);
    assert_eq!(outcome.attempts_tried, 21);
    assert_eq!(outcome.results.len(), 1);
}

#[test]
fn repetitions_within_the_hit_are_left_out() {
    let mut decoder = brute_decoder();
    let (outcome, _) = run_brute(&mut decoder, false, |_, _| {
        AttemptOutcome::Decoded(vec![
            at("a", 100, 100),
            at("a again", 105, 103),
            at("b", 300, 300),
            at("b again", 290, 310),
        ])
    });
    let contents: Vec<&str> = outcome.results.iter().map(|r| r.content.as_str()).collect();
    assert_eq!(contents, vec!["a", "b"]);
    assert_eq!(outcome.attempts_tried, 1);
}

#[test]
fn a_black_image_exhausts_the_grid() {
    let mut decoder = brute_decoder();
    let mut calls = 0usize;
    let (outcome, _) = run_brute(&mut decoder, true, |_, _| {
        calls += 1;
        AttemptOutcome::Decoded(Vec::new())
    });
    assert_eq!(calls, 4320);
    assert!(outcome.results.is_empty());
    assert_eq!(outcome.attempts_tried, 4320);
}

#[test]
fn no_search_under_way_no_step() {
    let mut decoder = brute_decoder();
    match decoder.detect_and_decode(AttemptOutcome::Decoded(vec![at("stray", 0, 0)])) {
        SearchStep::Finished(outcome) => {
            assert!(outcome.results.is_empty());
            assert_eq!(outcome.attempts_tried, 0);
        }
        SearchStep::Attempt { .. } => panic!("a search started by itself"),
    }
}

#[test]
fn without_a_decoder_there_is_no_search() {
    let failed = WeChatQRDecoder::new(&brute_test_config(), &brute_models(false), None);
    match BruteForceDecoder::new(failed) {
        Err(QRDecodeError::DecodeError(message)) => assert_eq!(
            message,
            "创建解码器失败: 二维码解码失败: 检测模型文件不存在: models/detect.prototxt"
        ),
        Err(other) => panic!("expected a decode error, got {:?}", other),
        Ok(_) => panic!("expected a decode error, got a search"),
    }
}

#[test]
fn the_identity_is_applied_by_doing_nothing() {
    let decoder = brute_decoder();
    let identity = params(100, 100, 0, 0, false, false);
    for channels in [1, 3, 4] {
        let image = ImageInfo::new(640, 480, channels, 0);
        assert!(decoder.apply_transform(&image, &identity, false).is_empty());
    }
    let empty = ImageInfo::new(0, 0, 3, 0);
    assert!(decoder.apply_transform(&empty, &identity, false).is_empty());
    let image = ImageInfo::new(640, 480, 3, 0);
    assert!(decoder.apply_transform(&image, &params(100, 100, 0, 1, false, false), false).is_empty());
    assert!(decoder.apply_transform(&image, &params(100, 100, 0, -1, false, false), false).is_empty());
}

#[test]
fn the_steps_run_in_their_order() {
    let decoder = brute_decoder();
    let image = ImageInfo::new(640, 480, 3, 0);
    assert_eq!(
        decoder.apply_transform(&image, &params(50, 200, -25, 7, true, true), true),
        vec![
            ImageOp::Resize { width: 320, height: 240 },
            ImageOp::ConvertScale { alpha: 200, beta: -25 },
            ImageOp::GaussianBlur(7),
            ImageOp::Grayscale,
            ImageOp::OtsuThreshold,
            ImageOp::Invert,
        ]
    );
}

#[test]
fn each_step_on_its_own() {
    let decoder = brute_decoder();
    let image = ImageInfo::new(640, 480, 3, 0);
    assert_eq!(
        decoder.apply_transform(&image, &params(130, 100, 0, 0, false, false), false),
        vec![ImageOp::Resize { width: 832, height: 624 }]
    );
    assert_eq!(
        decoder.apply_transform(&image, &params(20, 100, 0, 0, false, false), false),
        vec![ImageOp::Resize { width: 128, height: 96 }]
    );
    assert_eq!(
        decoder.apply_transform(&image, &params(100, 300, 0, 0, false, false), false),
        vec![ImageOp::ConvertScale { alpha: 300, beta: 0 }]
    );
    assert_eq!(
        decoder.apply_transform(&image, &params(100, 100, 50, 0, false, false), false),
        vec![ImageOp::ConvertScale { alpha: 100, beta: 50 }]
    );
    assert_eq!(
        decoder.apply_transform(&image, &params(100, 100, 0, -3, false, false), false),
        vec![ImageOp::GaussianBlur(3)]
    );
    assert_eq!(
        decoder.apply_transform(&image, &params(100, 100, 0, 0, true, false), false),
        vec![ImageOp::Grayscale]
    );
    assert_eq!(
        decoder.apply_transform(&image, &params(100, 100, 0, 0, false, false), true),
        vec![ImageOp::Invert]
    );
}

#[test]
fn even_blur_kernels_are_made_odd() {
    let decoder = brute_decoder();
    let image = ImageInfo::new(640, 480, 1, 0);
    assert_eq!(
        decoder.apply_transform(&image, &params(100, 100, 0, 4, false, false), false),
        vec![ImageOp::GaussianBlur(5)]
    );
    assert_eq!(
        decoder.apply_transform(&image, &params(100, 100, 0, -2, false, false), false),
        vec![ImageOp::GaussianBlur(3)]
    );
    assert_eq!(
        decoder.apply_transform(&image, &params(100, 100, 0, i32::MIN, false, false), false),
        vec![ImageOp::GaussianBlur(i32::MAX)]
    );
}

#[test]
fn binarising_brings_the_grey_step_with_it() {
    let decoder = brute_decoder();
    let colour = ImageInfo::new(640, 480, 3, 0);
    let grey = ImageInfo::new(640, 480, 1, 0);
    assert_eq!(
        decoder.apply_transform(&colour, &params(100, 100, 0, 0, false, true), false),
        vec![ImageOp::Grayscale, ImageOp::OtsuThreshold]
    );
    assert_eq!(
        decoder.apply_transform(&grey, &params(100, 100, 0, 0, false, true), false),
        vec![ImageOp::OtsuThreshold]
    );
    assert_eq!(
        decoder.apply_transform(&grey, &params(100, 100, 0, 0, true, false), false),
        Vec::<ImageOp>::new()
    );
}

#[test]
fn duplicates_through_the_decoder() {
    let decoder = brute_decoder();
    let existing = vec![at("a", 100, 100)];
    assert!(decoder.is_duplicate(&at("b", 105, 103), &existing));
    assert!(!decoder.is_duplicate(&at("a", 300, 300), &existing));
}

#[test]
fn what_a_batch_run_records() {
    let decoder = brute_decoder();
    let found = vec![at("one", 10, 20), at("two", i32::MAX - 5, -7)];
    let recorded = decoder.decode_with_brute_force(&found);
    assert_eq!(recorded.len(), 2);
    assert_eq!(recorded[0].content, "one");
    assert_eq!(recorded[0].points, Some(vec![(10, 20), (70, 20), (70, 80), (10, 80)]));
    assert_eq!(recorded[1].content, "two");
    assert_eq!(
        recorded[1].points,
        Some(vec![(i32::MAX - 5, -7), (i32::MAX, -7), (i32::MAX, 53), (i32::MAX - 5, 53)])
    );
    assert!(decoder.decode_with_brute_force(&Vec::new()).is_empty());
}

#[test]
fn what_loading_a_file_for_the_search_comes_to() {
    let decoder = brute_decoder();
    let info = ImageInfo::new(640, 480, 3, 0);
    assert_eq!(decoder.load_image(ReadOutcome::Image(info)).unwrap(), info);
    match decoder.load_image(ReadOutcome::Failed("no such file".to_string())) {
        Err(QRDecodeError::DecodeError(message)) => assert_eq!(message, "加载图像失败: no such file"),
        other => panic!("expected a decode error, got {:?}", other),
    }
    match decoder.load_image(ReadOutcome::Image(ImageInfo::new(0, 480, 3, 0))) {
        Err(QRDecodeError::InvalidInput(message)) => assert_eq!(message, "图像为空"),
        other => panic!("expected invalid input, got {:?}", other),
    }
}
