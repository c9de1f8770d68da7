use qr_decoder::detection::{BackendReply, RawDetection};
use qr_decoder::enhanced_processor::{
    ranking, EnhancedImageProcessor, TransformType, TRANSFORM_COUNT,
};
use qr_decoder::error::QRDecodeError;
use qr_decoder::image_ops::{ImageInfo, ImageOp};
use qr_decoder::qr_decoder::{DecodeStep, QRDecoder};
use qr_decoder::search::{AttemptOutcome, SearchOutcome, SearchStep};
use qr_decoder::types::{OutputFormat, ProcessingConfig, QRCodeResult, QRPosition};
use qr_decoder::wechat_qr_decoder::{ModelArtifacts, WeChatQRDecoder};

fn create_test_config() -> ProcessingConfig {
    ProcessingConfig {
        input_path: "test.jpg".to_string(),
        output_path: None,
        output_format: OutputFormat::Text,
        preprocess: true,
        verbose: false,
        show_position: false,
        min_confidence: 500,
        save_processed: false,
        processed_output_path: None,
        brute_force: false,
        expected_count: 1,
        randomize: false,
        invert: false,
    }
}

fn one_result(content: &str) -> Vec<QRCodeResult> {
    vec![QRCodeResult::new(
        content.to_string(),
        QRPosition::new(0, 0, 100, 100),
        900,
        "QR_CODE".to_string(),
    )]
}

// Runs a whole search. `attempt` stands for applying a correction and
// decoding; it is told the index and the correction, and the indices it was
// called with are handed back with the outcome.
fn run_search<F>(processor: &mut EnhancedImageProcessor, mut attempt: F) -> (SearchOutcome, Vec<usize>)
where
    F: FnMut(usize, TransformType) -> AttemptOutcome,
{
    let mut calls = Vec::new();
    let mut step = processor.begin();
    loop {
        match step {
            SearchStep::Attempt { index, candidate } => {
                calls.push(index);
                step = processor.decode_with_transforms(attempt(index, candidate));
            }
            SearchStep::Finished(outcome) => return (outcome, calls),
        }
    }
}

#[test]
fn test_transform_type_description() {
    assert_eq!(TransformType::Original.description(), "原始图像");
    assert_eq!(TransformType::Brightness(30).description(), "亮度调整: 30");
    assert_eq!(TransformType::Contrast(150).description(), "对比度调整: 1.50");
}

#[test]
fn test_transform_sequence() {
    let config = create_test_config();
    let processor = EnhancedImageProcessor::new(config).unwrap();
    let transforms = processor.get_transform_sequence();

    assert!(!transforms.is_empty());
    assert_eq!(transforms[0], TransformType::Original);
}

#[test]
fn every_description() {
    assert_eq!(TransformType::Brightness(-40).description(), "亮度调整: -40");
    assert_eq!(TransformType::Contrast(60).description(), "对比度调整: 0.60");
    assert_eq!(TransformType::Contrast(205).description(), "对比度调整: 2.05");
    assert_eq!(TransformType::Gamma(80).description(), "伽马校正: 0.80");
    assert_eq!(TransformType::Gamma(220).description(), "伽马校正: 2.20");
    assert_eq!(TransformType::GaussianBlur(5).description(), "高斯模糊: 5x5");
    assert_eq!(TransformType::BilateralFilter.description(), "双边滤波");
    assert_eq!(TransformType::MedianBlur(3).description(), "中值滤波: 3x3");
    assert_eq!(TransformType::MorphOpen.description(), "形态学开运算");
    assert_eq!(TransformType::MorphClose.description(), "形态学闭运算");
    assert_eq!(TransformType::Sharpen.description(), "锐化");
    assert_eq!(TransformType::BrightnessContrast(-15, 130).description(), "亮度+对比度: -15 / 1.30");
    assert_eq!(TransformType::BrightnessContrast(25, 70).description(), "亮度+对比度: 25 / 0.70");
}

#[test]
fn the_sequence_in_full() {
    let processor = EnhancedImageProcessor::new(create_test_config()).unwrap();
    let sequence = processor.get_transform_sequence();
    assert_eq!(sequence.len(), TRANSFORM_COUNT);
    assert_eq!(sequence.len(), 36);
    assert_eq!(sequence[1], TransformType::Brightness(20));
    assert_eq!(sequence[2], TransformType::Brightness(-20));
    assert_eq!(sequence[3], TransformType::Contrast(120));
    assert_eq!(sequence[7], TransformType::BrightnessContrast(15, 130));
    assert_eq!(sequence[17], TransformType::BilateralFilter);
    assert_eq!(sequence[21], TransformType::Sharpen);
    assert_eq!(sequence[23], TransformType::MorphClose);
    assert_eq!(sequence[29], TransformType::Gamma(220));
    assert_eq!(sequence[35], TransformType::GaussianBlur(7));
}

#[test]
fn the_original_image_is_left_alone() {
    let processor = EnhancedImageProcessor::new(create_test_config()).unwrap();
    let image = ImageInfo::new(640, 480, 3, 0);
    assert!(processor.apply_transform(&image, TransformType::Original).is_empty());
}

#[test]
fn corrections_as_primitives() {
    let processor = EnhancedImageProcessor::new(create_test_config()).unwrap();
    let image = ImageInfo::new(640, 480, 3, 0);
    assert_eq!(
        processor.apply_transform(&image, TransformType::Brightness(-20)),
        vec![ImageOp::AddScalar(-20)]
    );
    assert_eq!(
        processor.apply_transform(&image, TransformType::Contrast(120)),
        vec![ImageOp::MultiplyScalar(120)]
    );
    assert_eq!(processor.apply_transform(&image, TransformType::Gamma(50)), vec![ImageOp::Gamma(50)]);
    assert_eq!(
        processor.apply_transform(&image, TransformType::GaussianBlur(5)),
        vec![ImageOp::GaussianBlur(5)]
    );
    assert_eq!(
        processor.apply_transform(&image, TransformType::MedianBlur(3)),
        vec![ImageOp::MedianBlur(3)]
    );
    assert_eq!(
        processor.apply_transform(&image, TransformType::BilateralFilter),
        vec![ImageOp::BilateralFilter]
    );
    assert_eq!(processor.apply_transform(&image, TransformType::Sharpen), vec![ImageOp::Sharpen]);
    assert_eq!(
        processor.apply_transform(&image, TransformType::BrightnessContrast(15, 130)),
        vec![ImageOp::AddScalar(15), ImageOp::MultiplyScalar(130)]
    );
}

#[test]
fn even_kernels_take_the_next_odd_side() {
    let processor = EnhancedImageProcessor::new(create_test_config()).unwrap();
    let image = ImageInfo::new(640, 480, 3, 0);
    assert_eq!(
        processor.apply_transform(&image, TransformType::GaussianBlur(4)),
        vec![ImageOp::GaussianBlur(5)]
    );
    assert_eq!(
        processor.apply_transform(&image, TransformType::MedianBlur(6)),
        vec![ImageOp::MedianBlur(7)]
    );
}

#[test]
fn morphology_works_on_grey() {
    let processor = EnhancedImageProcessor::new(create_test_config()).unwrap();
    let colour = ImageInfo::new(640, 480, 3, 0);
    let grey = ImageInfo::new(640, 480, 1, 0);
    let with_alpha = ImageInfo::new(640, 480, 4, 0);
    assert_eq!(
        processor.apply_transform(&colour, TransformType::MorphOpen),
        vec![ImageOp::Grayscale, ImageOp::MorphOpen, ImageOp::GrayToColor]
    );
    assert_eq!(processor.apply_transform(&grey, TransformType::MorphOpen), vec![ImageOp::MorphOpen]);
    assert_eq!(
        processor.apply_transform(&with_alpha, TransformType::MorphClose),
        vec![ImageOp::Grayscale, ImageOp::MorphClose]
    );
    assert_eq!(
        processor.apply_transform(&colour, TransformType::MorphClose),
        vec![ImageOp::Grayscale, ImageOp::MorphClose, ImageOp::GrayToColor]
    );
}

#[test]
fn the_search_returns_on_the_first_hit() {
    for hit_at in [0usize, 1, 5, 17, 35] {
        let mut processor = EnhancedImageProcessor::new(create_test_config()).unwrap();
        let (outcome, calls) = run_search(&mut processor, |index, _| {
            if index >= hit_at {
                AttemptOutcome::Decoded(one_result("found"))
            } else {
                AttemptOutcome::Decoded(Vec::new())
            }
        });
        let expected: Vec<usize> = (0..=hit_at).collect();
        assert_eq!(calls, expected);
        assert_eq!(outcome.attempts_tried, hit_at + 1);
        assert_eq!(outcome.results.len(), 1);
        assert_eq!(outcome.results[0].content, "found");
    }
}

#[test]
fn the_search_tries_the_corrections_in_order() {
    let mut processor = EnhancedImageProcessor::new(create_test_config()).unwrap();
    let sequence = processor.get_transform_sequence();
    let mut seen = Vec::new();
    let (outcome, calls) = run_search(&mut processor, |_, candidate| {
        seen.push(candidate);
        AttemptOutcome::Decoded(Vec::new())
    });
    assert_eq!(seen, sequence);
    assert_eq!(calls.len(), 36);
    assert_eq!(outcome.attempts_tried, 36);
    assert!(outcome.results.is_empty());
}

#[test]
fn failures_cost_only_their_candidate() {
    let mut processor = EnhancedImageProcessor::new(create_test_config()).unwrap();
    let (outcome, calls) = run_search(&mut processor, |index, _| match index {
        0 => AttemptOutcome::Failed(QRDecodeError::image_processing_error("no memory".to_string())),
        1 => AttemptOutcome::Failed(QRDecodeError::decode_error("backend gone".to_string())),
        2 => AttemptOutcome::Failed(QRDecodeError::NoQRCodeFound),
        3 => AttemptOutcome::Decoded(one_result("after the failures")),
        _ => panic!("the search went on after a hit"),
    });
    assert_eq!(calls, vec![0, 1, 2, 3]);
    assert_eq!(outcome.attempts_tried, 4);
    assert_eq!(outcome.results[0].content, "after the failures");
}

#[test]
fn every_candidate_failing_is_an_empty_end() {
    let mut processor = EnhancedImageProcessor::new(create_test_config()).unwrap();
    let (outcome, calls) = run_search(&mut processor, |_, _| {
        AttemptOutcome::Failed(QRDecodeError::image_processing_error("broken".to_string()))
    });
    assert_eq!(calls.len(), 36);
    assert_eq!(outcome.attempts_tried, 36);
    assert!(outcome.results.is_empty());
}

#[test]
fn all_results_of_the_hit_are_returned() {
    let mut processor = EnhancedImageProcessor::new(create_test_config()).unwrap();
    let (outcome, _) = run_search(&mut processor, |_, _| {
        let mut both = one_result("one");
        both.extend(one_result("one"));
        AttemptOutcome::Decoded(both)
    });
    assert_eq!(outcome.results.len(), 2);
}

#[test]
fn hits_are_counted_by_correction() {
    let mut processor = EnhancedImageProcessor::new(create_test_config()).unwrap();
    assert_eq!(*processor.get_transform_stats(), vec![0usize; 36]);
    for hit_at in [3usize, 3, 0, 35] {
        run_search(&mut processor, |index, _| {
            if index == hit_at {
                AttemptOutcome::Decoded(one_result("x"))
            } else {
                AttemptOutcome::Decoded(Vec::new())
            }
        });
    }
    run_search(&mut processor, |_, _| AttemptOutcome::Decoded(Vec::new()));
    let mut expected = vec![0usize; 36];
    expected[0] = 1;
    expected[3] = 2;
    expected[35] = 1;
    assert_eq!(*processor.get_transform_stats(), expected);
}

#[test]
fn without_a_search_under_way_none_starts() {
    let mut processor = EnhancedImageProcessor::new(create_test_config()).unwrap();
    match processor.decode_with_transforms(AttemptOutcome::Decoded(one_result("stray"))) {
        SearchStep::Finished(outcome) => {
            assert!(outcome.results.is_empty());
            assert_eq!(outcome.attempts_tried, 36);
        }
        SearchStep::Attempt { .. } => panic!("a search started by itself"),
    }
    assert_eq!(*processor.get_transform_stats(), vec![0usize; 36]);
}

#[test]
fn a_search_can_be_begun_again() {
    let mut processor = EnhancedImageProcessor::new(create_test_config()).unwrap();
    processor.begin();
    processor.decode_with_transforms(AttemptOutcome::Decoded(Vec::new()));
    match processor.begin() {
        SearchStep::Attempt { index, candidate } => {
            assert_eq!(index, 0);
            assert_eq!(candidate, TransformType::Original);
        }
        SearchStep::Finished(_) => panic!("the search ended before it began"),
    }
}

#[test]
fn the_decoders_get_the_configuration() {
    let processor = EnhancedImageProcessor::new(create_test_config()).unwrap();
    assert_eq!(processor.decoder_config().min_confidence, 500);
    assert_eq!(processor.decoder_config().input_path, "test.jpg");
}

// What stands for an image in the scenarios below: the codes that a backend
// reads from it, whatever correction was applied before.
fn decode_through_the_tiers(decoder: &mut QRDecoder, visible: &Vec<RawDetection>) -> AttemptOutcome {
    let mut tier = decoder.first_tier();
    loop {
        let reply = BackendReply::Detections(visible.clone());
        match decoder.decode_qr_codes(tier, &reply) {
            DecodeStep::Invoke(next) => tier = next,
            DecodeStep::Done(results) => return AttemptOutcome::Decoded(results),
        }
    }
}

fn scenario_decoder(with_wechat: bool) -> QRDecoder {
    let config = create_test_config();
    let models = ModelArtifacts {
        detect_prototxt: with_wechat,
        detect_caffemodel: with_wechat,
        sr_prototxt: with_wechat,
        sr_caffemodel: with_wechat,
    };
    QRDecoder::new(&config, WeChatQRDecoder::new(&config, &models, None))
}

#[test]
fn a_clear_code_is_read_from_the_original_image() {
    for with_wechat in [false, true] {
        let visible = vec![RawDetection {
            content: "HELLO".to_string(),
            corners: vec![(40, 40), (240, 40), (240, 240), (40, 240)],
            rectified_width: 0,
            rectified_height: 0,
        }];
        let mut decoder = scenario_decoder(with_wechat);
        let mut processor = EnhancedImageProcessor::new(create_test_config()).unwrap();
        let image = ImageInfo::new(640, 480, 3, 0);
        let mut plans = Vec::new();
        let (outcome, calls) = run_search(&mut processor, |_, candidate| {
            plans.push(processor_plan(&image, candidate));
            decode_through_the_tiers(&mut decoder, &visible)
        });
        assert_eq!(calls, vec![0]);
        assert_eq!(plans, vec![Vec::<ImageOp>::new()]);
        assert_eq!(outcome.attempts_tried, 1);
        assert_eq!(outcome.results.len(), 1);
        assert_eq!(outcome.results[0].content, "HELLO");
        assert!(outcome.results[0].confidence >= 500);
        let expected_type = if with_wechat { "WECHAT_QR_CODE" } else { "QR_CODE" };
        assert_eq!(outcome.results[0].qr_type, expected_type);
        assert_eq!(outcome.results[0].position.x, 40);
        assert_eq!(outcome.results[0].position.width, 200);
    }
}

fn processor_plan(image: &ImageInfo, candidate: TransformType) -> Vec<ImageOp> {
    EnhancedImageProcessor::new(create_test_config()).unwrap().apply_transform(image, candidate)
}

#[test]
fn a_black_image_gives_an_empty_outcome() {
    let visible: Vec<RawDetection> = Vec::new();
    let mut decoder = scenario_decoder(true);
    let mut processor = EnhancedImageProcessor::new(create_test_config()).unwrap();
    let (outcome, calls) =
        run_search(&mut processor, |_, _| decode_through_the_tiers(&mut decoder, &visible));
    assert_eq!(calls.len(), 36);
    assert!(outcome.results.is_empty());
    assert_eq!(outcome.attempts_tried, 36);
    assert_eq!(decoder.get_stats().total_attempts, 36);
    assert_eq!(decoder.get_stats().successful_decodes, 0);
}

#[test]
fn corrections_ranked_by_their_hits() {
    assert_eq!(ranking(&vec![0, 0, 0]), Vec::<usize>::new());
    assert_eq!(ranking(&Vec::new()), Vec::<usize>::new());
    assert_eq!(ranking(&vec![0, 3, 0, 5, 1]), vec![3, 1, 4]);
    assert_eq!(ranking(&vec![2, 2, 7, 2, 0, 7]), vec![2, 5, 0, 1, 3]);
    assert_eq!(ranking(&vec![1, 2, 3, 4]), vec![3, 2, 1, 0]);
    assert_eq!(ranking(&vec![usize::MAX, 1, usize::MAX]), vec![0, 2, 1]);
}

#[test]
fn the_hit_counts_in_words() {
    let mut processor = EnhancedImageProcessor::new(create_test_config()).unwrap();
    assert_eq!(processor.print_transform_stats(), vec!["📊 暂无变换统计信息"]);
    for hit_at in [3usize, 13, 3, 0, 13, 13, 35] {
        run_search(&mut processor, |index, _| {
            if index == hit_at {
                AttemptOutcome::Decoded(one_result("x"))
            } else {
                AttemptOutcome::Decoded(Vec::new())
            }
        });
    }
    assert_eq!(
        processor.print_transform_stats(),
        vec![
            "📊 变换成功统计:",
            "   对比度调整: 1.50 : 3 次",
            "   对比度调整: 1.20 : 2 次",
            "   原始图像 : 1 次",
            "   高斯模糊: 7x7 : 1 次",
        ]
    );
}
