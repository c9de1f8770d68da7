use qr_decoder::detection::{BackendReply, RawDetection};
use qr_decoder::error::QRDecodeError;
use qr_decoder::qr_decoder::{per_mille, raised, DecodeStep, DecodingStats, QRDecoder, Tier};
use qr_decoder::types::{OutputFormat, ProcessingConfig, QRCodeResult};
use qr_decoder::wechat_qr_decoder::{ModelArtifacts, WeChatQRDecoder};

fn decoder_test_config(min_confidence: u32) -> ProcessingConfig {
    ProcessingConfig {
        input_path: "test.jpg".to_string(),
        output_path: None,
        output_format: OutputFormat::Text,
        preprocess: false,
        verbose: false,
        show_position: false,
        min_confidence,
        save_processed: false,
        processed_output_path: None,
        brute_force: false,
        expected_count: 1,
        randomize: false,
        invert: false,
    }
}

fn all_models() -> ModelArtifacts {
    ModelArtifacts {
        detect_prototxt: true,
        detect_caffemodel: true,
        sr_prototxt: true,
        sr_caffemodel: true,
    }
}

fn no_models() -> ModelArtifacts {
    ModelArtifacts {
        detect_prototxt: false,
        detect_caffemodel: false,
        sr_prototxt: false,
        sr_caffemodel: false,
    }
}

fn generic_only(min_confidence: u32) -> QRDecoder {
    let config = decoder_test_config(min_confidence);
    QRDecoder::new(&config, WeChatQRDecoder::new(&config, &no_models(), None))
}

fn with_wechat(min_confidence: u32) -> QRDecoder {
    let config = decoder_test_config(min_confidence);
    QRDecoder::new(&config, WeChatQRDecoder::new(&config, &all_models(), None))
}

fn code(content: &str, x: i32, y: i32, side: i32) -> RawDetection {
    RawDetection {
        content: content.to_string(),
        corners: vec![(x, y), (x + side, y), (x + side, y + side), (x, y + side)],
        rectified_width: 0,
        rectified_height: 0,
    }
}

fn reads(codes: Vec<RawDetection>) -> BackendReply {
    BackendReply::Detections(codes)
}

fn fails(why: &str) -> BackendReply {
    BackendReply::Failed(why.to_string())
}

// Runs a whole decode against backends that answer as given, and tells
// which tiers were asked.
fn run_decode(
    decoder: &mut QRDecoder,
    wechat: &BackendReply,
    multi: &BackendReply,
    single: &BackendReply,
) -> (Vec<QRCodeResult>, Vec<Tier>) {
    let mut asked = Vec::new();
    let mut tier = decoder.first_tier();
    loop {
        asked.push(tier);
        let reply = match tier {
            Tier::WeChat => wechat,
            Tier::GenericMulti => multi,
            Tier::GenericSingle => single,
        };
        match decoder.decode_qr_codes(tier, reply) {
            DecodeStep::Invoke(next) => tier = next,
            DecodeStep::Done(results) => return (results, asked),
        }
    }
}

#[test]
fn test_qr_decoder_creation() {
    let config = decoder_test_config(500);
    let decoder = QRDecoder::new(&config, WeChatQRDecoder::new(&config, &no_models(), None));
    assert_eq!(decoder.get_stats().total_attempts, 0);
}

#[test]
fn test_decoding_stats() {
    let mut stats = DecodingStats::new();
    stats.total_attempts = 10;
    stats.successful_decodes = 8;
    stats.total_qr_codes_found = 12;

    assert_eq!(stats.success_rate(), 800);
    assert_eq!(stats.average_qr_codes_per_attempt(), 1200);
}

#[test]
fn qr_decoder_test_area_calculation() {
    let corners = vec![(0, 0), (100, 0), (100, 100), (0, 100)];
    let config = decoder_test_config(500);
    let decoder = QRDecoder::new(&config, WeChatQRDecoder::new(&config, &no_models(), None));

    let area = decoder.calculate_area_from_corners(&corners);
    assert_eq!(area, 10000);
}

#[test]
fn fresh_stats_have_no_rates() {
    let stats = DecodingStats::new();
    assert_eq!(stats.success_rate(), 0);
    assert_eq!(stats.average_qr_codes_per_attempt(), 0);
}

#[test]
fn rates_are_rounded_down() {
    let mut stats = DecodingStats::new();
    stats.total_attempts = 3;
    stats.successful_decodes = 2;
    stats.total_qr_codes_found = 7;
    assert_eq!(stats.success_rate(), 666);
    assert_eq!(stats.average_qr_codes_per_attempt(), 2333);
    assert_eq!(per_mille(1, 0), 0);
    assert_eq!(per_mille(usize::MAX, 1), (usize::MAX as u128) * 1000);
}

#[test]
fn counters_stay_at_their_end() {
    assert_eq!(raised(3, 4), 7);
    assert_eq!(raised(usize::MAX, 1), usize::MAX);
    assert_eq!(raised(usize::MAX - 1, 5), usize::MAX);
    let mut stats = DecodingStats::new();
    stats.total_attempts = usize::MAX;
    stats.record(2);
    assert_eq!(stats.total_attempts, usize::MAX);
    assert_eq!(stats.successful_decodes, 1);
    assert_eq!(stats.total_qr_codes_found, 2);
}

#[test]
fn recording_an_empty_decode() {
    let mut stats = DecodingStats::new();
    stats.record(0);
    assert_eq!(
        stats,
        DecodingStats { total_attempts: 1, successful_decodes: 0, total_qr_codes_found: 0 }
    );
    stats.record(3);
    assert_eq!(
        stats,
        DecodingStats { total_attempts: 2, successful_decodes: 1, total_qr_codes_found: 3 }
    );
}

#[test]
fn tiers_in_rank() {
    assert_eq!(Tier::WeChat.next(), Some(Tier::GenericMulti));
    assert_eq!(Tier::GenericMulti.next(), Some(Tier::GenericSingle));
    assert_eq!(Tier::GenericSingle.next(), None);
    assert_eq!(generic_only(0).first_tier(), Tier::GenericMulti);
    assert_eq!(with_wechat(0).first_tier(), Tier::WeChat);
}

#[test]
fn a_decoder_without_models_still_decodes() {
    let mut decoder = generic_only(500);
    let (results, asked) = run_decode(
        &mut decoder,
        &reads(vec![code("never asked", 0, 0, 100)]),
        &reads(vec![code("HELLO", 10, 10, 100)]),
        &reads(Vec::new()),
    );
    assert_eq!(asked, vec![Tier::GenericMulti]);
    assert_eq!(results.len(), 1);
    assert_eq!(results[0].content, "HELLO");
    assert_eq!(results[0].qr_type, "QR_CODE");
    assert_eq!(results[0].confidence, 800);
}

#[test]
fn the_wechat_backend_comes_first() {
    let mut decoder = with_wechat(500);
    let (results, asked) = run_decode(
        &mut decoder,
        &reads(vec![code("from wechat", 0, 0, 100)]),
        &reads(vec![code("from generic", 0, 0, 100)]),
        &reads(vec![code("from single", 0, 0, 100)]),
    );
    assert_eq!(asked, vec![Tier::WeChat]);
    assert_eq!(results.len(), 1);
    assert_eq!(results[0].content, "from wechat");
    assert_eq!(results[0].qr_type, "WECHAT_QR_CODE");
    assert_eq!(results[0].confidence, 1000);
}

#[test]
fn an_empty_reply_falls_through() {
    let mut decoder = with_wechat(500);
    let (results, asked) = run_decode(
        &mut decoder,
        &reads(Vec::new()),
        &reads(vec![code("from generic", 0, 0, 100), code("and another", 300, 0, 100)]),
        &reads(vec![code("from single", 0, 0, 100)]),
    );
    assert_eq!(asked, vec![Tier::WeChat, Tier::GenericMulti]);
    assert_eq!(results.len(), 2);
    assert_eq!(results[0].content, "from generic");
    assert_eq!(results[1].content, "and another");
}

#[test]
fn a_failing_backend_falls_through() {
    let mut decoder = with_wechat(500);
    let (results, asked) = run_decode(
        &mut decoder,
        &fails("model crashed"),
        &fails("detector crashed"),
        &reads(vec![code("from single", 0, 0, 100)]),
    );
    assert_eq!(asked, vec![Tier::WeChat, Tier::GenericMulti, Tier::GenericSingle]);
    assert_eq!(results.len(), 1);
    assert_eq!(results[0].content, "from single");
}

#[test]
fn a_malformed_reply_falls_through() {
    let mut broken = code("broken", 0, 0, 100);
    broken.corners.truncate(2);
    let mut decoder = with_wechat(500);
    let (results, asked) = run_decode(
        &mut decoder,
        &reads(vec![code("fine", 0, 0, 100), broken]),
        &reads(vec![code("from generic", 0, 0, 100)]),
        &reads(Vec::new()),
    );
    assert_eq!(asked, vec![Tier::WeChat, Tier::GenericMulti]);
    assert_eq!(results[0].content, "from generic");
}

#[test]
fn blank_detections_count_as_nothing() {
    let mut decoder = with_wechat(500);
    let (results, asked) = run_decode(
        &mut decoder,
        &reads(vec![code("", 0, 0, 100)]),
        &reads(vec![code("", 0, 0, 100), code("", 5, 5, 100)]),
        &reads(vec![code("from single", 0, 0, 100)]),
    );
    assert_eq!(asked, vec![Tier::WeChat, Tier::GenericMulti, Tier::GenericSingle]);
    assert_eq!(results[0].content, "from single");
}

#[test]
fn nothing_anywhere_is_an_empty_end() {
    let mut decoder = with_wechat(500);
    let (results, asked) =
        run_decode(&mut decoder, &reads(Vec::new()), &reads(Vec::new()), &reads(Vec::new()));
    assert_eq!(asked, vec![Tier::WeChat, Tier::GenericMulti, Tier::GenericSingle]);
    assert!(results.is_empty());
    assert_eq!(
        *decoder.get_stats(),
        DecodingStats { total_attempts: 1, successful_decodes: 0, total_qr_codes_found: 0 }
    );
}

#[test]
fn every_backend_failing_is_an_empty_end() {
    let mut decoder = with_wechat(500);
    let (results, asked) = run_decode(&mut decoder, &fails("a"), &fails("b"), &fails("c"));
    assert_eq!(asked.len(), 3);
    assert!(results.is_empty());
}

#[test]
fn the_single_tier_reads_the_first_detection_only() {
    let mut decoder = generic_only(0);
    let (results, _) = run_decode(
        &mut decoder,
        &reads(Vec::new()),
        &reads(Vec::new()),
        &reads(vec![code("first", 0, 0, 100), code("second", 300, 0, 100)]),
    );
    assert_eq!(results.len(), 1);
    assert_eq!(results[0].content, "first");
}

#[test]
fn a_reading_that_is_not_trusted_still_settles_the_decode() {
    // A speck read by the WeChat backend scores 900, below the 950 asked for.
    let mut decoder = with_wechat(950);
    let (results, asked) = run_decode(
        &mut decoder,
        &reads(vec![code("speck", 0, 0, 10)]),
        &reads(vec![code("from generic", 0, 0, 100)]),
        &reads(vec![code("from single", 0, 0, 100)]),
    );
    assert_eq!(asked, vec![Tier::WeChat]);
    assert!(results.is_empty());
}

#[test]
fn the_minimum_confidence_is_applied_to_what_was_read() {
    let mut large = code("large", 0, 0, 100);
    large.rectified_width = 40;
    large.rectified_height = 40;
    let mut decoder = generic_only(900);
    let (results, _) = run_decode(
        &mut decoder,
        &reads(Vec::new()),
        &reads(vec![code("plain", 300, 0, 100), large]),
        &reads(Vec::new()),
    );
    assert_eq!(results.len(), 1);
    assert_eq!(results[0].content, "large");
    assert_eq!(results[0].confidence, 1000);
}

#[test]
fn stats_follow_the_decodes() {
    let mut decoder = generic_only(0);
    let hit = reads(vec![code("a", 0, 0, 100), code("b", 300, 0, 100)]);
    let miss = reads(Vec::new());
    run_decode(&mut decoder, &miss, &hit, &miss);
    run_decode(&mut decoder, &miss, &miss, &miss);
    run_decode(&mut decoder, &miss, &miss, &hit);
    let stats = *decoder.get_stats();
    assert_eq!(stats.total_attempts, 3);
    assert_eq!(stats.successful_decodes, 2);
    assert_eq!(stats.total_qr_codes_found, 3);
    assert_eq!(stats.success_rate(), 666);
    assert_eq!(stats.average_qr_codes_per_attempt(), 1000);
    decoder.reset_stats();
    assert_eq!(*decoder.get_stats(), DecodingStats::new());
}

#[test]
fn a_step_that_goes_on_leaves_the_stats_alone() {
    let mut decoder = with_wechat(0);
    match decoder.decode_qr_codes(Tier::WeChat, &reads(Vec::new())) {
        DecodeStep::Invoke(next) => assert_eq!(next, Tier::GenericMulti),
        DecodeStep::Done(_) => panic!("the decode ended too early"),
    }
    assert_eq!(decoder.get_stats().total_attempts, 0);
}

#[test]
fn multi_detection_on_its_own() {
    let decoder = generic_only(999);
    let results = decoder.detect_and_decode_multi(&reads(vec![code("a", 0, 0, 100)])).unwrap();
    assert_eq!(results.len(), 1);
    assert_eq!(results[0].confidence, 800);
    match decoder.detect_and_decode_multi(&fails("no memory")) {
        Err(QRDecodeError::DecodeError(message)) => {
            assert_eq!(message, "多重二维码检测失败: no memory")
        }
        other => panic!("expected a decode error, got {:?}", other),
    }
    let mut broken = code("broken", 0, 0, 100);
    broken.corners.clear();
    match decoder.detect_and_decode_multi(&reads(vec![broken])) {
        Err(QRDecodeError::DecodeError(message)) => assert_eq!(message, "角点数量不足"),
        other => panic!("expected a decode error, got {:?}", other),
    }
}

#[test]
fn positions_and_scores_through_the_decoder() {
    let decoder = generic_only(0);
    let corners = vec![(10, 20), (110, 20), (110, 120), (10, 120)];
    let position = decoder.calculate_position_from_corners(&corners).unwrap();
    assert_eq!((position.x, position.y, position.width, position.height), (10, 20, 100, 100));
    assert_eq!(decoder.calculate_confidence_from_corners(&corners, 0, 0), 800);
    assert_eq!(decoder.calculate_confidence_from_corners(&corners, 50, 50), 1000);
    assert_eq!(decoder.calculate_confidence_from_corners(&Vec::new(), 0, 0), 500);
    assert!(decoder.calculate_position_from_corners(&Vec::new()).is_err());
}

#[test]
fn single_detection_on_its_own() {
    let decoder = generic_only(999);
    let result = decoder
        .detect_and_decode_single(&reads(vec![code("first", 5, 6, 100), code("second", 300, 0, 100)]))
        .unwrap();
    assert_eq!(result.content, "first");
    assert_eq!(result.qr_type, "QR_CODE");
    assert_eq!(result.confidence, 800);
    assert_eq!((result.position.x, result.position.y), (5, 6));
    assert!(matches!(
        decoder.detect_and_decode_single(&reads(Vec::new())),
        Err(QRDecodeError::NoQRCodeFound)
    ));
    assert!(matches!(
        decoder.detect_and_decode_single(&reads(vec![code("", 0, 0, 100), code("second", 0, 0, 100)])),
        Err(QRDecodeError::NoQRCodeFound)
    ));
    match decoder.detect_and_decode_single(&fails("no memory")) {
        Err(QRDecodeError::DecodeError(message)) => assert_eq!(message, "二维码检测失败: no memory"),
        other => panic!("expected a decode error, got {:?}", other),
    }
    let mut broken = code("broken", 0, 0, 100);
    broken.corners.truncate(3);
    match decoder.detect_and_decode_single(&reads(vec![broken])) {
        Err(QRDecodeError::DecodeError(message)) => assert_eq!(message, "角点数量不足"),
        other => panic!("expected a decode error, got {:?}", other),
    }
}
