use qr_decoder::error::QRDecodeError;
use qr_decoder::types::{
    copy_optional_text, OutputFormat, ProcessingConfig, QRCodeResult, QRPosition, CONFIDENCE_MAX,
};

#[test]
fn a_result_is_stamped_when_it_is_made() {
    let result = QRCodeResult::new(
        "HELLO".to_string(),
        QRPosition::new(1, 2, 3, 4),
        950,
        "QR_CODE".to_string(),
    );
    assert_eq!(result.content, "HELLO");
    assert_eq!(result.confidence, 950);
    assert_eq!(result.qr_type, "QR_CODE");
    assert_eq!(result.position.x, 1);
    assert_eq!(result.raw_bytes, None);
    // A stamp of this century, whatever the clock says exactly.
    assert!(result.timestamp > 946_684_800_000);
    let with_bytes = result.with_raw_bytes(vec![0x48, 0x45]);
    assert_eq!(with_bytes.raw_bytes, Some(vec![0x48, 0x45]));
    assert_eq!(with_bytes.content, "HELLO");
}

#[test]
fn results_that_may_be_reported() {
    let make = |content: &str, confidence: u32| {
        QRCodeResult::new(content.to_string(), QRPosition::new(0, 0, 1, 1), confidence, "QR_CODE".to_string())
    };
    assert!(make("x", 1).is_valid());
    assert!(make("x", CONFIDENCE_MAX).is_valid());
    assert!(!make("", 500).is_valid());
    assert!(!make("x", 0).is_valid());
    assert!(!make("", 0).is_valid());
}

#[test]
fn formats_by_name() {
    for word in ["text", "txt", "TEXT", "Txt"] {
        assert_eq!(OutputFormat::from_str(word).unwrap(), OutputFormat::Text);
    }
    for word in ["json", "JSON", "Json"] {
        assert_eq!(OutputFormat::from_str(word).unwrap(), OutputFormat::Json);
    }
    for word in ["csv", "CSV"] {
        assert_eq!(OutputFormat::from_str(word).unwrap(), OutputFormat::Csv);
    }
    for word in ["verbose", "v", "V", "VERBOSE"] {
        assert_eq!(OutputFormat::from_str(word).unwrap(), OutputFormat::Verbose);
    }
    for word in ["", "xml", "text ", " json", "verbos", "tx"] {
        match OutputFormat::from_str(word) {
            Err(QRDecodeError::InvalidInput(message)) => {
                assert_eq!(message, format!("不支持的输出格式: {}", word))
            }
            other => panic!("expected invalid input, got {:?}", other),
        }
    }
}

#[test]
fn the_usual_configuration() {
    let config = ProcessingConfig::default();
    assert_eq!(config.input_path, "");
    assert_eq!(config.output_path, None);
    assert_eq!(config.output_format, OutputFormat::Text);
    assert!(config.preprocess);
    assert!(!config.verbose);
    assert!(!config.show_position);
    assert_eq!(config.min_confidence, 0);
    assert!(!config.save_processed);
    assert_eq!(config.processed_output_path, None);
    assert!(!config.brute_force);
    assert_eq!(config.expected_count, 1);
    assert!(!config.randomize);
    assert!(!config.invert);
}

#[test]
fn a_copy_of_a_configuration() {
    let mut config = ProcessingConfig::default();
    config.input_path = "photo.png".to_string();
    config.output_path = Some("out.json".to_string());
    config.output_format = OutputFormat::Json;
    config.min_confidence = 321;
    config.invert = true;
    let copy = config.clone();
    assert_eq!(copy.input_path, "photo.png");
    assert_eq!(copy.output_path, Some("out.json".to_string()));
    assert_eq!(copy.output_format, OutputFormat::Json);
    assert_eq!(copy.min_confidence, 321);
    assert!(copy.invert);
    assert_eq!(copy_optional_text(&None), None);
    assert_eq!(copy_optional_text(&Some("x".to_string())), Some("x".to_string()));
}

#[test]
fn a_configuration_is_checked_before_a_run() {
    let mut config = ProcessingConfig::default();
    config.input_path = "photo.png".to_string();
    config.min_confidence = 1000;
    assert!(config.validate(true).is_ok());
    match config.validate(false) {
        Err(QRDecodeError::InvalidInput(message)) => assert_eq!(message, "输入文件不存在: photo.png"),
        other => panic!("expected invalid input, got {:?}", other),
    }
    config.min_confidence = 1001;
    match config.validate(true) {
        Err(QRDecodeError::InvalidInput(message)) => assert_eq!(message, "置信度阈值必须在 0.0 到 1.0 之间"),
        other => panic!("expected invalid input, got {:?}", other),
    }
    match config.validate(false) {
        Err(QRDecodeError::InvalidInput(message)) => assert_eq!(message, "输入文件不存在: photo.png"),
        other => panic!("expected invalid input, got {:?}", other),
    }
}
