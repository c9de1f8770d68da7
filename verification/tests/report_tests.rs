use qr_decoder::batch_processor::{BatchConfig, BatchProcessor, BatchResult, BatchStats};
use qr_decoder::brute_force_decoder::BruteForceDecoder;
use qr_decoder::report::{
    code_lines, codes, entry, file_lines, head, point_list, processing_note, report,
};
use qr_decoder::types::{OutputFormat, ProcessingConfig, QrResult};
use qr_decoder::wechat_qr_decoder::{ModelArtifacts, WeChatQRDecoder};

fn report_books() -> BatchStats {
    let mut stats = BatchStats::new();
    stats.total_files = 3;
    stats.processed_files = 3;
    stats.successful_files = 1;
    stats.failed_files = 2;
    stats.total_qr_codes = 2;
    stats
}

fn report_config() -> BatchConfig {
    let mut config = BatchConfig::default();
    config.directory = "photos".to_string();
    config.recursive = true;
    config
}

fn report_results() -> Vec<BatchResult> {
    vec![
        BatchResult {
            file_path: "photos/a.png".to_string(),
            results: vec![
                QrResult {
                    content: "HELLO".to_string(),
                    points: Some(vec![(10, 20), (70, 20), (70, 80), (10, 80)]),
                },
                QrResult { content: "WORLD".to_string(), points: None },
            ],
            processing_time: 1234,
            success: true,
            error: None,
        },
        BatchResult {
            file_path: "photos/".to_string(),
            results: Vec::new(),
            processing_time: 5,
            success: false,
            error: Some("图像处理错误: broken".to_string()),
        },
        BatchResult {
            file_path: "b.png".to_string(),
            results: Vec::new(),
            processing_time: 60_000,
            success: false,
            error: None,
        },
    ]
}

const WHOLE_REPORT: &str = "=== 批量二维码解码报告 ===\n\
\n\
处理目录: \"photos\"\n\
递归处理: 是\n\
总文件数: 3\n\
成功解码: 1\n\
解码失败: 2\n\
总二维码数: 2\n\
处理速度: 0.75 文件/秒\n\
总耗时: 4.00 秒\n\
\n\
=== 详细结果 ===\n\
\n\
文件: a.png\n\
路径: \"photos/a.png\"\n\
状态: 成功\n\
耗时: 1.234 秒\n\
解码数量: 2\n  \
二维码 1: HELLO\n  \
坐标: [(10.0, 20.0), (70.0, 20.0), (70.0, 80.0), (10.0, 80.0)]\n  \
二维码 2: WORLD\n\
\n\
文件: 未知文件\n\
路径: \"photos/\"\n\
状态: 失败\n\
耗时: 0.005 秒\n\
错误: 图像处理错误: broken\n\
\n\
文件: b.png\n\
路径: \"b.png\"\n\
状态: 失败\n\
耗时: 60.000 秒\n\
\n";

#[test]
fn the_whole_batch_report() {
    assert_eq!(report(&report_config(), &report_results(), &report_books(), 4000), WHOLE_REPORT);
}

#[test]
fn the_report_through_the_processor() {
    let processing = ProcessingConfig {
        input_path: String::new(),
        output_path: None,
        output_format: OutputFormat::Text,
        preprocess: false,
        verbose: false,
        show_position: false,
        min_confidence: 0,
        save_processed: false,
        processed_output_path: None,
        brute_force: true,
        expected_count: 1,
        randomize: false,
        invert: false,
    };
    let models = ModelArtifacts {
        detect_prototxt: true,
        detect_caffemodel: true,
        sr_prototxt: true,
        sr_caffemodel: true,
    };
    let search = BruteForceDecoder::new(WeChatQRDecoder::new(&processing, &models, None));
    let processor = BatchProcessor::new(report_config(), search).unwrap();
    assert_eq!(processor.report_after(&report_results(), &report_books(), 4000), WHOLE_REPORT);
    let mut stats = report_books();
    stats.start_time = i64::MAX;
    let now = processor.generate_report(&report_results(), &stats);
    assert_eq!(now, report(&report_config(), &report_results(), &stats, 0));
    assert!(now.contains("处理速度: 0.00 文件/秒\n总耗时: 0.00 秒\n"));
}

#[test]
fn the_head_of_a_report_without_files() {
    let mut config = BatchConfig::default();
    config.directory = "empty".to_string();
    let stats = BatchStats::new();
    assert_eq!(
        report(&config, &Vec::new(), &stats, 1234),
        "=== 批量二维码解码报告 ===\n\n处理目录: \"empty\"\n递归处理: 否\n总文件数: 0\n成功解码: 0\n\
         解码失败: 0\n总二维码数: 0\n处理速度: 0.00 文件/秒\n总耗时: 1.23 秒\n\n=== 详细结果 ===\n\n"
    );
    assert_eq!(head(&config, &stats, 1235), report(&config, &Vec::new(), &stats, 1235));
    assert!(head(&config, &stats, 1235).contains("总耗时: 1.24 秒"));
}

#[test]
fn the_parts_of_an_entry() {
    assert_eq!(point_list(&Vec::new()), "");
    assert_eq!(point_list(&vec![(1, -2)]), "(1.0, -2.0)");
    assert_eq!(point_list(&vec![(1, -2), (3, 4)]), "(1.0, -2.0), (3.0, 4.0)");
    let bare = QrResult { content: "x".to_string(), points: None };
    assert_eq!(code_lines(&bare, 4), "  二维码 5: x\n");
    let placed = QrResult { content: "y".to_string(), points: Some(Vec::new()) };
    assert_eq!(code_lines(&placed, 0), "  二维码 1: y\n  坐标: []\n");
    assert_eq!(codes(&vec![bare, placed]), "  二维码 1: x\n  二维码 2: y\n  坐标: []\n");
    assert_eq!(codes(&Vec::new()), "");
    assert_eq!(
        entry(&report_results()[2]),
        "文件: b.png\n路径: \"b.png\"\n状态: 失败\n耗时: 60.000 秒\n\n"
    );
}

#[test]
fn what_is_said_while_a_file_is_processed() {
    assert_eq!(processing_note("photos/a.png"), "正在处理: a.png");
    assert_eq!(processing_note("a.png"), "正在处理: a.png");
    assert_eq!(processing_note("photos/"), "正在处理: 未知文件");
}

#[test]
fn a_file_as_soon_as_it_is_done() {
    let results = report_results();
    assert_eq!(
        file_lines(&results[0], false),
        vec![
            "\n✅ a.png",
            "   📁 路径: photos/a.png",
            "   🎯 检测到 2 个二维码",
            "   ⏱️  处理时间: 1.234 秒",
            "   📄 二维码 1: HELLO",
            "   📄 二维码 2: WORLD",
        ]
    );
    assert_eq!(
        file_lines(&results[0], true),
        vec![
            "\n✅ a.png",
            "   📁 路径: photos/a.png",
            "   🎯 检测到 2 个二维码",
            "   ⏱️  处理时间: 1.234 秒",
            "   📄 二维码 1: HELLO",
            "      📍 位置: [(10.0, 20.0), (70.0, 20.0), (70.0, 80.0), (10.0, 80.0)]",
            "   📄 二维码 2: WORLD",
        ]
    );
    assert_eq!(
        file_lines(&results[1], true),
        vec![
            "\n❌ 未知文件",
            "   📁 路径: photos/",
            "   ⏱️  处理时间: 0.005 秒",
            "   🚫 错误: 图像处理错误: broken",
        ]
    );
    assert_eq!(
        file_lines(&results[2], false),
        vec!["\n❌ b.png", "   📁 路径: b.png", "   ⏱️  处理时间: 60.000 秒"]
    );
}
