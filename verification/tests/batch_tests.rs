use qr_decoder::batch_processor::{
    outcome_of, BatchConfig, BatchProcessor, BatchResult, BatchStats, EntryKind, Visit,
};
use qr_decoder::brute_force_decoder::BruteForceDecoder;
use qr_decoder::error::QRDecodeError;
use qr_decoder::types::{OutputFormat, ProcessingConfig, QrResult};
use qr_decoder::wechat_qr_decoder::{ModelArtifacts, WeChatQRDecoder};

fn batch_test_config() -> ProcessingConfig {
    ProcessingConfig {
        input_path: "test.jpg".to_string(),
        output_path: None,
        output_format: OutputFormat::Text,
        preprocess: false,
        verbose: false,
        show_position: false,
        min_confidence: 0,
        save_processed: false,
        processed_output_path: None,
        brute_force: true,
        expected_count: 1,
        randomize: false,
        invert: false,
    }
}

fn batch_models(present: bool) -> ModelArtifacts {
    ModelArtifacts {
        detect_prototxt: present,
        detect_caffemodel: present,
        sr_prototxt: present,
        sr_caffemodel: present,
    }
}

fn batch_processor_with(config: BatchConfig) -> BatchProcessor {
    let search =
        BruteForceDecoder::new(WeChatQRDecoder::new(&batch_test_config(), &batch_models(true), None));
    BatchProcessor::new(config, search).unwrap()
}

fn batch_processor() -> BatchProcessor {
    batch_processor_with(BatchConfig::default())
}

fn paths(names: &[&str]) -> Vec<String> {
    names.iter().map(|n| n.to_string()).collect()
}

fn read(content: &str) -> QrResult {
    QrResult { content: content.to_string(), points: None }
}

fn books(total: usize, processed: usize) -> BatchStats {
    let mut stats = BatchStats::new();
    stats.total_files = total;
    stats.processed_files = processed;
    stats
}

#[test]
fn the_default_batch_configuration() {
    let config = BatchConfig::default();
    assert_eq!(config.directory, ".");
    assert!(!config.recursive);
    assert_eq!(config.output_report, None);
    assert_eq!(config.supported_formats, paths(&["png", "jpg", "jpeg", "bmp", "tiff", "webp"]));
    assert_eq!(config.expected_count, 1);
    assert!(!config.randomize);
    assert!(config.show_progress);
    assert!(config.colored_output);
    assert!(!config.verbose);
    assert!(!config.quiet);
}

#[test]
fn a_batch_run_needs_its_search() {
    let failed =
        BruteForceDecoder::new(WeChatQRDecoder::new(&batch_test_config(), &batch_models(false), None));
    match BatchProcessor::new(BatchConfig::default(), failed) {
        Err(QRDecodeError::DecodeError(message)) => assert!(message.starts_with("创建解码器失败: ")),
        Err(other) => panic!("expected a decode error, got {:?}", other),
        Ok(_) => panic!("expected a decode error, got a processor"),
    }
}

#[test]
fn the_directory_must_be_there() {
    let processor = batch_processor();
    assert!(processor.check_directory("photos", true, true).is_ok());
    match processor.check_directory("photos", false, false) {
        Err(QRDecodeError::InvalidInput(message)) => assert_eq!(message, "目录不存在: \"photos\""),
        other => panic!("expected invalid input, got {:?}", other),
    }
    match processor.check_directory("photos", false, true) {
        Err(QRDecodeError::InvalidInput(message)) => assert_eq!(message, "目录不存在: \"photos\""),
        other => panic!("expected invalid input, got {:?}", other),
    }
    match processor.check_directory("photos/a.png", true, false) {
        Err(QRDecodeError::InvalidInput(message)) => assert_eq!(message, "路径不是目录: \"photos/a.png\""),
        other => panic!("expected invalid input, got {:?}", other),
    }
}

#[test]
fn images_are_told_by_their_extension() {
    let processor = batch_processor();
    assert!(processor.is_supported_image("a.png"));
    assert!(processor.is_supported_image("dir/b.JPG"));
    assert!(processor.is_supported_image("c.Jpeg"));
    assert!(processor.is_supported_image("d.bmp"));
    assert!(processor.is_supported_image("e.tiff"));
    assert!(processor.is_supported_image("f.webp"));
    assert!(!processor.is_supported_image("g.tif"));
    assert!(!processor.is_supported_image("h.txt"));
    assert!(!processor.is_supported_image("png"));
    assert!(!processor.is_supported_image(".png"));
    assert!(!processor.is_supported_image("dir.png/readme"));
    assert!(!processor.is_supported_image(""));
}

#[test]
fn the_formats_can_be_chosen() {
    let mut config = BatchConfig::default();
    config.supported_formats = paths(&["gif", "TIF"]);
    let processor = batch_processor_with(config);
    assert!(processor.is_supported_image("a.gif"));
    assert!(processor.is_supported_image("a.tif"));
    assert!(!processor.is_supported_image("a.png"));
}

#[test]
fn what_the_walk_does_with_an_entry() {
    let flat = batch_processor();
    assert_eq!(flat.visit(EntryKind::File, "a.png"), Visit::Collect);
    assert_eq!(flat.visit(EntryKind::File, "a.txt"), Visit::Skip);
    assert_eq!(flat.visit(EntryKind::Directory, "sub"), Visit::Skip);
    assert_eq!(flat.visit(EntryKind::Directory, "sub.png"), Visit::Skip);
    assert_eq!(flat.visit(EntryKind::Other, "a.png"), Visit::Skip);
    let mut config = BatchConfig::default();
    config.recursive = true;
    let deep = batch_processor_with(config);
    assert_eq!(deep.visit(EntryKind::Directory, "sub"), Visit::Descend);
    assert_eq!(deep.visit(EntryKind::File, "sub/a.png"), Visit::Collect);
    assert_eq!(deep.visit(EntryKind::Other, "sub"), Visit::Skip);
}

#[test]
fn images_are_collected_in_the_order_of_the_walk() {
    let processor = batch_processor();
    let listed = paths(&["z.png", "notes.txt", "a.jpg", "b", "sub/c.WEBP", "d.pdf", "e.bmp"]);
    assert_eq!(processor.collect_image_files(&listed), paths(&["z.png", "a.jpg", "sub/c.WEBP", "e.bmp"]));
    assert!(processor.collect_image_files(&Vec::new()).is_empty());
    assert!(processor.collect_image_files(&paths(&["a.txt", "b.doc"])).is_empty());
}

#[test]
fn exactly_the_supported_files_are_attempted() {
    for (supported, unsupported) in [(0usize, 0usize), (0, 3), (4, 0), (3, 5), (10, 1)] {
        let mut listed = Vec::new();
        for i in 0..supported.max(unsupported) {
            if i < unsupported {
                listed.push(format!("file{}.txt", i));
            }
            if i < supported {
                listed.push(format!("image{}.png", i));
            }
        }
        let processor = batch_processor();
        let mut run = processor.process_batch(&listed);
        assert_eq!(run.stats().total_files, supported);
        let mut attempted = Vec::new();
        loop {
            let file = match run.current() {
                Some(file) => file.clone(),
                None => break,
            };
            let before = run.stats().processed_files;
            // Every other file fails to decode.
            if attempted.len() % 2 == 0 {
                run.record(Err(QRDecodeError::image_processing_error("broken file".to_string())), 5);
            } else {
                run.record(Ok(vec![read("code")]), 5);
            }
            assert_eq!(run.stats().processed_files, before + 1);
            attempted.push(file);
        }
        assert_eq!(attempted.len(), supported);
        assert!(attempted.iter().all(|f| f.ends_with(".png")));
        let (results, stats) = run.finish();
        assert_eq!(results.len(), supported);
        assert_eq!(stats.total_files, supported);
        assert_eq!(stats.processed_files, supported);
        assert_eq!(stats.failed_files, (supported + 1) / 2);
        assert_eq!(stats.successful_files, supported / 2);
        assert_eq!(stats.total_qr_codes, supported / 2);
        assert_eq!(stats.total_processing_time, 5 * supported as u64);
    }
}

#[test]
fn a_failure_is_kept_and_the_run_goes_on() {
    let processor = batch_processor();
    let mut run = processor.process_batch(&paths(&["a.png", "b.png", "c.png"]));
    run.record(Err(QRDecodeError::UnsupportedFormat("b".to_string())), 10);
    run.record(Ok(Vec::new()), 20);
    run.record(Ok(vec![read("x"), read("y")]), 30);
    assert!(run.current().is_none());
    let (results, stats) = run.finish();
    assert_eq!(results[0].file_path, "a.png");
    assert!(!results[0].success);
    assert_eq!(results[0].error, Some("不支持的图像格式: b".to_string()));
    assert!(results[0].results.is_empty());
    assert_eq!(results[0].processing_time, 10);
    assert_eq!(results[1].file_path, "b.png");
    assert!(!results[1].success);
    assert_eq!(results[1].error, None);
    assert_eq!(results[2].file_path, "c.png");
    assert!(results[2].success);
    assert_eq!(results[2].results.len(), 2);
    assert_eq!(stats.successful_files, 1);
    assert_eq!(stats.failed_files, 2);
    assert_eq!(stats.total_qr_codes, 2);
    assert_eq!(stats.total_processing_time, 60);
}

#[test]
fn nothing_is_entered_once_all_files_are_done() {
    let processor = batch_processor();
    let mut run = processor.process_batch(&paths(&["a.png"]));
    run.record(Ok(vec![read("x")]), 1);
    let before = *run.stats();
    run.record(Ok(vec![read("stray")]), 1);
    run.record(Err(QRDecodeError::NoQRCodeFound), 1);
    assert_eq!(*run.stats(), before);
    let (results, _) = run.finish();
    assert_eq!(results.len(), 1);
}

#[test]
fn an_empty_run_is_over_at_once() {
    let processor = batch_processor();
    let run = processor.process_batch(&paths(&["a.txt"]));
    assert!(run.current().is_none());
    let (results, stats) = run.finish();
    assert!(results.is_empty());
    assert_eq!(stats.total_files, 0);
    assert_eq!(stats.processed_files, 0);
}

#[test]
fn the_outcome_of_a_file() {
    let processor = batch_processor();
    let hit = processor.process_file("dir/a.png", Ok(vec![read("x")]), 42);
    assert_eq!(hit.file_path, "dir/a.png");
    assert!(hit.success);
    assert_eq!(hit.results.len(), 1);
    assert_eq!(hit.results[0].content, "x");
    assert_eq!(hit.processing_time, 42);
    assert_eq!(hit.error, None);
    let miss = processor.process_file("dir/b.png", Ok(Vec::new()), 7);
    assert!(!miss.success);
    assert_eq!(miss.error, None);
    let failed = outcome_of("dir/c.png", Err(QRDecodeError::decode_error("died".to_string())), 9);
    assert!(!failed.success);
    assert!(failed.results.is_empty());
    assert_eq!(failed.error, Some("二维码解码失败: died".to_string()));
    assert_eq!(failed.processing_time, 9);
}

#[test]
fn fresh_books() {
    let stats = BatchStats::new();
    assert_eq!(stats.total_files, 0);
    assert_eq!(stats.processed_files, 0);
    assert_eq!(stats.successful_files, 0);
    assert_eq!(stats.failed_files, 0);
    assert_eq!(stats.total_qr_codes, 0);
    assert_eq!(stats.total_processing_time, 0);
    assert_eq!(BatchStats::default().total_files, 0);
    assert_eq!(stats.processing_speed(), 0);
    assert_eq!(stats.estimated_remaining_time(), 0);
    assert_eq!(stats.progress_percentage(), 0);
}

#[test]
fn no_time_is_left_before_the_first_file() {
    for total in [0usize, 1, 10, 1000] {
        for elapsed in [0u64, 1, 500, 1_000_000] {
            assert_eq!(books(total, 0).estimated_remaining_time_after(elapsed), 0);
        }
        assert_eq!(books(total, 0).estimated_remaining_time(), 0);
    }
    for processed in [0usize, 1, 5] {
        assert_eq!(books(0, processed).estimated_remaining_time_after(1000), 0);
        assert_eq!(books(0, processed).estimated_remaining_time(), 0);
    }
}

#[test]
fn the_time_left_is_the_files_left_at_the_speed_so_far() {
    assert_eq!(books(10, 2).estimated_remaining_time_after(1000), 4000);
    assert_eq!(books(10, 5).estimated_remaining_time_after(1000), 1000);
    assert_eq!(books(10, 3).estimated_remaining_time_after(1000), 2333);
    assert_eq!(books(10, 10).estimated_remaining_time_after(1000), 0);
    assert_eq!(books(10, 11).estimated_remaining_time_after(1000), 0);
    assert_eq!(books(10, 5).estimated_remaining_time_after(0), 0);
    assert_eq!(books(usize::MAX, 1).estimated_remaining_time_after(u64::MAX), u64::MAX);
}

#[test]
fn the_time_left_shrinks_at_constant_throughput() {
    let total = 50usize;
    let per_file = 120u64;
    let mut last = u64::MAX;
    for processed in 1..=total {
        let left = books(total, processed).estimated_remaining_time_after(processed as u64 * per_file);
        assert_eq!(left, (total - processed) as u64 * per_file);
        assert!(left < last);
        last = left;
    }
    assert_eq!(last, 0);
}

#[test]
fn speed_in_thousandths_of_files_a_second() {
    assert_eq!(books(10, 5).processing_speed_after(1000), 5000);
    assert_eq!(books(10, 1).processing_speed_after(3000), 333);
    assert_eq!(books(10, 0).processing_speed_after(3000), 0);
    assert_eq!(books(10, 5).processing_speed_after(0), 0);
    assert_eq!(books(10, 3).processing_speed_after(1), 3_000_000);
}

#[test]
fn progress_in_hundredths_of_a_percent() {
    assert_eq!(books(0, 0).progress_percentage(), 0);
    assert_eq!(books(10, 0).progress_percentage(), 0);
    assert_eq!(books(10, 5).progress_percentage(), 5000);
    assert_eq!(books(3, 1).progress_percentage(), 3333);
    assert_eq!(books(3, 3).progress_percentage(), 10000);
}

#[test]
fn entering_a_file_into_the_books() {
    let mut stats = books(3, 0);
    stats.record(&BatchResult {
        file_path: "a.png".to_string(),
        results: vec![read("x"), read("y")],
        processing_time: 100,
        success: true,
        error: None,
    });
    stats.record(&BatchResult {
        file_path: "b.png".to_string(),
        results: Vec::new(),
        processing_time: 50,
        success: false,
        error: Some("why".to_string()),
    });
    assert_eq!(stats.total_files, 3);
    assert_eq!(stats.processed_files, 2);
    assert_eq!(stats.successful_files, 1);
    assert_eq!(stats.failed_files, 1);
    assert_eq!(stats.total_qr_codes, 2);
    assert_eq!(stats.total_processing_time, 150);
    stats.total_processing_time = u64::MAX - 10;
    stats.record(&BatchResult {
        file_path: "c.png".to_string(),
        results: Vec::new(),
        processing_time: 50,
        success: false,
        error: None,
    });
    assert_eq!(stats.total_processing_time, u64::MAX);
}

#[test]
fn the_search_of_a_batch_run_can_be_driven() {
    let mut processor = batch_processor();
    assert_eq!(processor.config().directory, ".");
    let grid = processor.decoder_mut().generate_param_combinations();
    assert_eq!(grid.len(), 4320);
}

#[test]
fn what_saving_the_report_comes_to() {
    let mut config = BatchConfig::default();
    assert_eq!(batch_processor().report_path(), None);
    config.output_report = Some("report.txt".to_string());
    let processor = batch_processor_with(config);
    assert_eq!(processor.report_path(), Some(&"report.txt".to_string()));
    assert!(processor.save_report(Ok(())).is_ok());
    match processor.save_report(Err("disk full".to_string())) {
        Err(QRDecodeError::OutputError(message)) => assert_eq!(message, "保存报告失败: disk full"),
        other => panic!("expected an output error, got {:?}", other),
    }
}
